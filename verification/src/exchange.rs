//! What a backend and its driver say to each other.
//!
//! A backend never touches the transport, the clock or the consumer of its
//! samples. It hands its driver an [`Action`], the driver carries it out and
//! reports back with an [`Event`], and the backend answers with the next
//! action, until one of the closing actions ends the exchange.

use vstd::prelude::*;
use crate::error::Error;

verus! {

/// The settings of one sweep.
#[derive(Copy, Clone, Debug, PartialEq, Eq, Structural)]
pub struct SweepParams {
    pub noise_filter: i32,
    pub start_freq: i32,
    pub step_freq: i32,
    pub step_count: i32,
    pub step_millis: i32,
}

/// One reading of a sweep.
#[derive(Copy, Clone, Debug, PartialEq, Eq, Structural)]
pub struct Sample {
    /// The ordinal number of the step within its pass.
    pub index: i32,
    /// The absolute frequency of the step.
    pub freq: i64,
    /// The raw reading.
    pub value: i64,
}

/// The frequency of step `index` of a sweep.
pub open spec fn step_freq_at(params: SweepParams, index: int) -> int {
    params.start_freq + params.step_freq * index
}

/// The frequency of step `index` of a sweep.
pub fn freq_at(params: &SweepParams, index: i32) -> (freq: i64)
    ensures
        freq == step_freq_at(*params, index as int),
{
    let step: i64 = params.step_freq as i64;
    let at: i64 = index as i64;
    assert(-0x8000_0000 * 0x8000_0000 <= step * at <= 0x8000_0000 * 0x8000_0000)
        by (nonlinear_arith)
        requires
            -0x8000_0000 <= step < 0x8000_0000,
            -0x8000_0000 <= at < 0x8000_0000,
    ;
    params.start_freq as i64 + step * at
}

/// The pause that a step time asks for, in milliseconds: the step time
/// divided by `divisor`, and none where the step time is negative.
pub open spec fn pause_millis(step_millis: i32, divisor: int) -> u64 {
    if step_millis > 0 {
        (step_millis as int / divisor) as u64
    } else {
        0
    }
}

/// What the driver is to do next.
#[derive(Debug, PartialEq, Eq)]
pub enum Action {
    /// Write these bytes to the transport, then report `Completed` or `Failed`.
    Write(Vec<u8>),
    /// Read one frame from the transport, then report `Frame` or `Failed`.
    Read,
    /// Hand this sample to the consumer, then report `Continue` or `Stop`.
    Emit(Sample),
    /// Wait this many milliseconds, then report `Completed`.
    Sleep(u64),
    /// The exchange ended well. Nothing is to be reported.
    Done,
    /// The exchange ended well with the device's version text.
    Version(String),
    /// The exchange ended with this error.
    Fail(Error),
}

/// An [`Action`] as contracts see it.
pub enum ActionView {
    Write(Seq<u8>),
    Read,
    Emit(Sample),
    Sleep(u64),
    Done,
    Version(Seq<char>),
    Fail(Error),
}

impl View for Action {
    type V = ActionView;

    open spec fn view(&self) -> ActionView {
        match *self {
            Action::Write(bytes) => ActionView::Write(bytes@),
            Action::Read => ActionView::Read,
            Action::Emit(sample) => ActionView::Emit(sample),
            Action::Sleep(millis) => ActionView::Sleep(millis),
            Action::Done => ActionView::Done,
            Action::Version(text) => ActionView::Version(text@),
            Action::Fail(error) => ActionView::Fail(error),
        }
    }
}

impl ActionView {
    /// Whether this action ends an exchange.
    pub open spec fn closes(self) -> bool {
        self is Done || self is Version || self is Fail
    }

    /// Whether this action asks something of the transport.
    pub open spec fn asks_transfer(self) -> bool {
        self is Write || self is Read
    }

    /// Whether `event` is an outcome that this action can have: a write
    /// completes or fails, a read gives a frame or fails, a sample is taken
    /// with the wish to go on or to stop, a wait completes.
    pub open spec fn answered_by(self, event: Event) -> bool {
        match self {
            ActionView::Write(_) => event is Completed || event is Failed,
            ActionView::Read => event is Frame || event is Failed,
            ActionView::Emit(_) => event is Continue || event is Stop,
            ActionView::Sleep(_) => event is Completed,
            _ => false,
        }
    }
}

impl Action {
    /// Whether this action ends an exchange, so that nothing is to be
    /// reported back.
    pub fn closes(&self) -> (closing: bool)
        ensures
            closing == self@.closes(),
    {
        match self {
            Action::Done => true,
            Action::Version(_) => true,
            Action::Fail(_) => true,
            _ => false,
        }
    }
}

/// How the last action went.
#[derive(Copy, Clone, Debug, PartialEq, Eq)]
pub enum Event {
    /// The write or the wait is over.
    Completed,
    /// The read returned this frame.
    Frame([u8; 32]),
    /// The transport failed.
    Failed(Error),
    /// The consumer took the sample and wants more.
    Continue,
    /// The consumer took the sample and wants the sweep to end.
    Stop,
}

} // verus!
