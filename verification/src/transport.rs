//! The transport as the protocol core sees it: something that takes bytes
//! and gives frames, and may fail at either.

use vstd::prelude::*;
use crate::error::Error;
use crate::exchange::{Action, ActionView, Event};

verus! {

/// A blocking byte transport to the analyzer.
///
/// Nothing is assumed about what a transport does: whatever it answers is
/// passed on to the backend.
pub trait SerialDevice {
    /// Writes all of `bytes`, or fails.
    fn send(&mut self, bytes: &[u8]) -> Result<(), Error>;

    /// Reads exactly one frame, or fails.
    fn receive(&mut self) -> Result<[u8; 32], Error>;
}

/// What a backend is told after a write that went as `outcome` says.
pub open spec fn spec_written(outcome: Result<(), Error>) -> Event {
    match outcome {
        Ok(_) => Event::Completed,
        Err(e) => Event::Failed(e),
    }
}

/// What a backend is told after a read that went as `outcome` says.
pub open spec fn spec_received(outcome: Result<[u8; 32], Error>) -> Event {
    match outcome {
        Ok(frame) => Event::Frame(frame),
        Err(e) => Event::Failed(e),
    }
}

/// Says what a backend is told after a write.
pub fn written(outcome: Result<(), Error>) -> (event: Event)
    ensures
        event == spec_written(outcome),
{
    match outcome {
        Ok(_) => Event::Completed,
        Err(e) => Event::Failed(e),
    }
}

/// Says what a backend is told after a read.
pub fn received(outcome: Result<[u8; 32], Error>) -> (event: Event)
    ensures
        event == spec_received(outcome),
{
    match outcome {
        Ok(frame) => Event::Frame(frame),
        Err(e) => Event::Failed(e),
    }
}

/// Carries out on `device` what `action` asks of the transport, and says what
/// the backend is to be told. An action that asks nothing of the transport
/// has no answer here and leaves the transport alone.
pub fn transfer<D: SerialDevice>(device: &mut D, action: &Action) -> (event: Option<Event>)
    ensures
        match action@ {
            ActionView::Write(_) => exists|outcome: Result<(), Error>|
                event == Some(#[trigger] spec_written(outcome)),
            ActionView::Read => exists|outcome: Result<[u8; 32], Error>|
                event == Some(#[trigger] spec_received(outcome)),
            _ => event is None && *final(device) == *old(device),
        },
        event is Some <==> action@.asks_transfer(),
        event matches Some(outcome) ==> action@.answered_by(outcome),
{
    match action {
        Action::Write(bytes) => {
            let outcome = device.send(bytes.as_slice());
            Some(written(outcome))
        },
        Action::Read => {
            let outcome = device.receive();
            Some(received(outcome))
        },
        _ => None,
    }
}

/// The transport of a backend that has none: every transfer on it fails
/// with `DeviceNotFound`.
#[derive(Copy, Clone, Debug, PartialEq, Eq, Structural)]
pub struct Unplugged;

impl SerialDevice for Unplugged {
    fn send(&mut self, bytes: &[u8]) -> (outcome: Result<(), Error>)
        ensures
            outcome == Err::<(), Error>(Error::DeviceNotFound),
    {
        Err(Error::DeviceNotFound)
    }

    fn receive(&mut self) -> (outcome: Result<[u8; 32], Error>)
        ensures
            outcome == Err::<[u8; 32], Error>(Error::DeviceNotFound),
    {
        Err(Error::DeviceNotFound)
    }
}

} // verus!
