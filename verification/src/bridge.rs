//! The ownership of the one device: who holds it, and who may start, stop
//! or release it.
//!
//! The device is in exactly one place at any time: in the idle slot of the
//! bridge, or with the background execution of a sweep. It is moved, never
//! shared, so no lock is needed and two sweeps can never run at once.

use vstd::prelude::*;
use crate::error::Error;
use crate::exchange::{Sample, SweepParams};
use crate::stream::{SampleSink, ScanStream};
use crate::token::CancelToken;

verus! {

/// What callers can observe of the bridge.
#[derive(Copy, Clone, Debug, PartialEq, Eq, Structural)]
pub enum State {
    Disconnected,
    Idle,
    Busy,
    Error,
}

impl Default for State {
    fn default() -> (state: State)
        ensures
            state == State::Disconnected,
    {
        State::Disconnected
    }
}

impl State {
    /// The name of the state, for status lines.
    pub fn name(&self) -> (text: &'static str)
        ensures
            text@ == match *self {
                State::Disconnected => "Disconnected"@,
                State::Idle => "Idle"@,
                State::Busy => "Busy"@,
                State::Error => "Error"@,
            },
    {
        match self {
            State::Disconnected => "Disconnected",
            State::Idle => "Idle",
            State::Busy => "Busy",
            State::Error => "Error",
        }
    }
}

/// Where the device is.
pub enum InternalState<T> {
    /// No device is attached.
    Disconnected,
    /// The device is here and free.
    Idle(T),
    /// The device is with a running sweep, which watches `cancel`.
    Busy { cancel: CancelToken },
    /// A sweep broke off and took the device with it. Nothing leads out of
    /// this state.
    Error,
}

impl<T> InternalState<T> {
    /// What callers can observe of this state.
    pub open spec fn state(self) -> State {
        match self {
            InternalState::Disconnected => State::Disconnected,
            InternalState::Idle(_) => State::Idle,
            InternalState::Busy { .. } => State::Busy,
            InternalState::Error => State::Error,
        }
    }

    /// The error with which this state turns down an operation that it does
    /// not allow.
    pub open spec fn refusal(self) -> Error {
        if self is Error {
            Error::Previous
        } else {
            Error::Busy
        }
    }

    /// The outcome of attaching a device, given how opening it went.
    pub open spec fn connected(self, opened: Result<T, Error>) -> (
        InternalState<T>,
        Result<(), Error>,
    ) {
        match (self, opened) {
            (InternalState::Disconnected, Ok(device)) => (InternalState::Idle(device), Ok(())),
            (InternalState::Disconnected, Err(e)) => (self, Err(e)),
            _ => (self, Err(self.refusal())),
        }
    }

    /// The outcome of releasing the device.
    pub open spec fn released(self) -> (InternalState<T>, Result<T, Error>) {
        match self {
            InternalState::Idle(device) => (InternalState::Disconnected, Ok(device)),
            _ => (self, Err(self.refusal())),
        }
    }

    /// The outcome of taking the device for a sweep that watches `cancel`.
    pub open spec fn taken(self, cancel: CancelToken) -> (InternalState<T>, Option<T>) {
        match self {
            InternalState::Idle(device) => (InternalState::Busy { cancel }, Some(device)),
            _ => (self, None),
        }
    }

    /// The outcome of a sweep's end: the device came back, or the background
    /// execution broke off and nothing came back.
    pub open spec fn completed(self, returned: Option<T>) -> (
        InternalState<T>,
        Result<(), Error>,
    ) {
        match (self, returned) {
            (InternalState::Busy { .. }, Some(device)) => (InternalState::Idle(device), Ok(())),
            (InternalState::Busy { .. }, None) => (InternalState::Error, Err(Error::Thread)),
            _ => (self, Err(self.refusal())),
        }
    }

    /// What asking a sweep to stop comes to. The state stays as it is.
    pub open spec fn cancelled(self) -> Result<(), Error> {
        if self is Error {
            Err(Error::Previous)
        } else {
            Ok(())
        }
    }

    /// What callers can observe of this state.
    pub fn current(&self) -> (state: State)
        ensures
            state == self.state(),
    {
        match self {
            InternalState::Disconnected => State::Disconnected,
            InternalState::Idle(_) => State::Idle,
            InternalState::Busy { .. } => State::Busy,
            InternalState::Error => State::Error,
        }
    }

    /// The error with which this state turns down an operation.
    fn refuse(&self) -> (e: Error)
        ensures
            e == self.refusal(),
    {
        match self {
            InternalState::Error => Error::Previous,
            _ => Error::Busy,
        }
    }

    /// Takes the device out for a sweep that watches `cancel`, where the
    /// device is here and free. Otherwise nothing changes.
    pub fn take(&mut self, cancel: CancelToken) -> (device: Option<T>)
        ensures
            (*final(self), device) == old(self).taken(cancel),
    {
        let mut held = InternalState::Busy { cancel };
        core::mem::swap(self, &mut held);
        match held {
            InternalState::Idle(device) => Some(device),
            other => {
                *self = other;
                None
            },
        }
    }
}

/// What `start` hands to the background execution: the device, the place
/// where its samples go, and the sweep to run.
pub struct Job<D> {
    pub device: D,
    pub sink: SampleSink,
    pub continuous: bool,
    pub params: SweepParams,
}

/// The bridge between a caller that must not block and the device that
/// blocks: it keeps the device while no sweep runs and knows where it is
/// while one does.
pub struct AsyncSWRAnalyzer<D> {
    analyzer: InternalState<D>,
}

impl<D> View for AsyncSWRAnalyzer<D> {
    type V = InternalState<D>;

    closed spec fn view(&self) -> InternalState<D> {
        self.analyzer
    }
}

impl<D> AsyncSWRAnalyzer<D> {
    /// A bridge that holds `analyzer`, free for use.
    pub fn new(analyzer: D) -> (bridge: Self)
        ensures
            bridge@ == InternalState::Idle(analyzer),
    {
        Self { analyzer: InternalState::Idle(analyzer) }
    }

    /// A bridge without a device.
    pub fn disconnected() -> (bridge: Self)
        ensures
            bridge@ == InternalState::<D>::Disconnected,
    {
        Self { analyzer: InternalState::Disconnected }
    }

    /// What callers can observe of the bridge.
    pub fn state(&self) -> (state: State)
        ensures
            state == self@.state(),
    {
        self.analyzer.current()
    }

    /// Attaches the device that was opened and probed, where there is none
    /// yet. With `opened` an error the bridge stays disconnected and reports
    /// that error.
    pub fn connect(&mut self, opened: Result<D, Error>) -> (r: Result<(), Error>)
        ensures
            (final(self)@, r) == old(self)@.connected(opened),
    {
        match self.analyzer {
            InternalState::Disconnected => match opened {
                Ok(device) => {
                    self.analyzer = InternalState::Idle(device);
                    Ok(())
                },
                Err(e) => Err(e),
            },
            _ => Err(self.analyzer.refuse()),
        }
    }

    /// Releases the device, where it is here and free, and hands it out.
    pub fn disconnect(&mut self) -> (r: Result<D, Error>)
        ensures
            (final(self)@, r) == old(self)@.released(),
    {
        let mut held = InternalState::Disconnected;
        core::mem::swap(&mut self.analyzer, &mut held);
        match held {
            InternalState::Idle(device) => Ok(device),
            other => {
                let e = other.refuse();
                self.analyzer = other;
                Err(e)
            },
        }
    }

    /// Starts a sweep, where the device is here and free: the device leaves
    /// the bridge as part of a job for the background execution, together
    /// with the sending end of a new sample stream and a new cancellation
    /// flag, and the bridge is busy until `complete`. The caller gets the job
    /// and the receiving end of the stream, which is not to be let go before
    /// `complete`. Otherwise nothing changes.
    pub fn start(&mut self, continuous: bool, params: SweepParams) -> (r: Result<
        (Job<D>, ScanStream),
        Error,
    >)
        ensures
            r is Ok <==> old(self)@ is Idle,
            r matches Ok(started) ==> {
                &&& (final(self)@, Some(started.0.device)) == old(self)@.taken(
                    started.0.sink.token(),
                )
                &&& started.0.continuous == continuous
                &&& started.0.params == params
                &&& !started.1.is_done()
                &&& started.0.sink.offered() == Seq::<Sample>::empty()
            },
            r matches Err(e) ==> e == old(self)@.refusal() && final(self)@ == old(self)@,
    {
        match self.analyzer {
            InternalState::Idle(_) => {},
            _ => {
                return Err(self.analyzer.refuse());
            },
        }
        let cancel = CancelToken::new();
        let watched = cancel.share();
        match self.analyzer.take(cancel) {
            Some(device) => {
                let (sink, samples) = SampleSink::open(watched);
                Ok((Job { device, sink, continuous, params }, ScanStream::begin(samples)))
            },
            None => Err(self.analyzer.refuse()),
        }
    }

    /// Starts a sweep of one pass. See `start`.
    pub fn start_oneshot(&mut self, params: SweepParams) -> (r: Result<
        (Job<D>, ScanStream),
        Error,
    >)
        ensures
            r is Ok <==> old(self)@ is Idle,
            r matches Ok(started) ==> {
                &&& (final(self)@, Some(started.0.device)) == old(self)@.taken(
                    started.0.sink.token(),
                )
                &&& !started.0.continuous
                &&& started.0.params == params
                &&& !started.1.is_done()
                &&& started.0.sink.offered() == Seq::<Sample>::empty()
            },
            r matches Err(e) ==> e == old(self)@.refusal() && final(self)@ == old(self)@,
    {
        self.start(false, params)
    }

    /// Starts a sweep that passes again and again until it is cancelled. See
    /// `start`.
    pub fn start_continuous(&mut self, params: SweepParams) -> (r: Result<
        (Job<D>, ScanStream),
        Error,
    >)
        ensures
            r is Ok <==> old(self)@ is Idle,
            r matches Ok(started) ==> {
                &&& (final(self)@, Some(started.0.device)) == old(self)@.taken(
                    started.0.sink.token(),
                )
                &&& started.0.continuous
                &&& started.0.params == params
                &&& !started.1.is_done()
                &&& started.0.sink.offered() == Seq::<Sample>::empty()
            },
            r matches Err(e) ==> e == old(self)@.refusal() && final(self)@ == old(self)@,
    {
        self.start(true, params)
    }

    /// Asks the running sweep to stop. It will notice at its next sample.
    /// Without a running sweep there is nothing to stop.
    pub fn cancel(&self) -> (r: Result<(), Error>)
        ensures
            r == self@.cancelled(),
    {
        match &self.analyzer {
            InternalState::Busy { cancel } => {
                cancel.cancel();
                Ok(())
            },
            InternalState::Error => Err(Error::Previous),
            _ => Ok(()),
        }
    }

    /// Takes note that the sweep is over. With the device returned the bridge
    /// is free again, whether the sweep went well or not. With nothing
    /// returned the background execution broke off, and the bridge is of no
    /// more use. Either way the sweep has ended, and `stream`, which is that
    /// of the sweep, may be let go of. Without a sweep nothing changes.
    pub fn complete(&mut self, stream: &mut ScanStream, returned: Option<D>) -> (r: Result<
        (),
        Error,
    >)
        ensures
            (final(self)@, r) == old(self)@.completed(returned),
            final(stream).is_done() == (old(stream).is_done() || old(self)@ is Busy),
    {
        match self.analyzer {
            InternalState::Busy { .. } => {
                stream.end();
                match returned {
                    Some(device) => {
                        self.analyzer = InternalState::Idle(device);
                        Ok(())
                    },
                    None => {
                        self.analyzer = InternalState::Error;
                        Err(Error::Thread)
                    },
                }
            },
            _ => Err(self.analyzer.refuse()),
        }
    }
}

/// While a sweep runs no other can be started: the attempt is refused with
/// `Busy`, and the state, with the flag that the running sweep watches, stays
/// as it is.
pub proof fn lemma_busy_refuses_start<T>(slot: InternalState<T>, cancel: CancelToken)
    requires
        slot is Busy,
    ensures
        slot.taken(cancel) == (slot, None::<T>),
        slot.refusal() == Error::Busy,
{
}

/// A sweep that was asked to stop still holds the device until it ends. Its
/// end, with the device returned, makes the bridge idle, and the next sweep
/// can be started.
pub proof fn lemma_sweep_end_frees_device<T>(
    slot: InternalState<T>,
    device: T,
    cancel: CancelToken,
)
    requires
        slot is Busy,
    ensures
        slot.cancelled() == Ok::<(), Error>(()),
        slot.completed(Some(device)) == (InternalState::Idle(device), Ok::<(), Error>(())),
        slot.completed(Some(device)).0.taken(cancel) == (
            InternalState::<T>::Busy { cancel },
            Some(device),
        ),
{
}

/// A sweep whose background execution broke off leaves the bridge in
/// `Error`, and nothing leads out of it: every operation is refused with
/// `Previous` and changes nothing.
pub proof fn lemma_broken_sweep_is_final<T>(
    slot: InternalState<T>,
    cancel: CancelToken,
    opened: Result<T, Error>,
    returned: Option<T>,
)
    requires
        slot is Busy,
    ensures
        ({
            let dead = slot.completed(None).0;
            &&& slot.completed(None) == (InternalState::<T>::Error, Err::<(), Error>(Error::Thread))
            &&& dead.state() == State::Error
            &&& dead.refusal() == Error::Previous
            &&& dead.taken(cancel) == (dead, None::<T>)
            &&& dead.connected(opened) == (dead, Err::<(), Error>(Error::Previous))
            &&& dead.released() == (dead, Err::<T, Error>(Error::Previous))
            &&& dead.completed(returned) == (dead, Err::<(), Error>(Error::Previous))
            &&& dead.cancelled() == Err::<(), Error>(Error::Previous)
        }),
{
}

/// The device is in one place only: taking it for a sweep leaves none in
/// the bridge, and only the end of that sweep brings one back.
pub proof fn lemma_device_is_moved<T>(
    slot: InternalState<T>,
    device: T,
    cancel: CancelToken,
    other: CancelToken,
    opened: Result<T, Error>,
)
    requires
        slot == InternalState::Idle(device),
    ensures
        ({
            let busy = slot.taken(cancel).0;
            &&& slot.taken(cancel).1 == Some(device)
            &&& busy.state() == State::Busy
            &&& busy.taken(other).1 is None
            &&& busy.released().1 is Err
            &&& busy.connected(opened).0 == busy
        }),
{
}

} // verus!
