//! The sample stream of a running sweep: the end that the sweep fills and
//! the end that the consumer drains.

use vstd::prelude::*;
use async_channel::Receiver;
use async_channel::Sender;
use crate::exchange::{Event, Sample};
use crate::token::CancelToken;

verus! {

/// `async_channel::Sender`: the sending end of a channel. Nothing inside it
/// is visible to contracts.
#[verifier::external_type_specification]
#[verifier::external_body]
#[verifier::reject_recursive_types(T)]
pub struct ExSender<T>(Sender<T>);

/// `async_channel::Receiver`: the receiving end of a channel. Nothing inside
/// it is visible to contracts.
#[verifier::external_type_specification]
#[verifier::external_body]
#[verifier::reject_recursive_types(T)]
pub struct ExReceiver<T>(Receiver<T>);

/// `async_channel::unbounded`: the two ends of a new channel that takes any
/// number of samples without making its sender wait.
#[verifier::external_body]
fn sample_channel() -> (ends: (Sender<Sample>, Receiver<Sample>)) {
    async_channel::unbounded()
}

/// `Sender::send_blocking`: puts the sample into the channel and says whether
/// the channel took it. A channel that its receiver has closed or dropped
/// takes nothing, and that is up to the receiver, so nothing is promised.
#[verifier::external_body]
fn forward(sender: &Sender<Sample>, sample: Sample) -> (queued: bool) {
    sender.send_blocking(sample).is_ok()
}

/// `Receiver::close`: closes the channel, so that the sender is turned away
/// from then on. Samples already in the channel can still be taken out.
#[verifier::external_body]
fn shut(receiver: &Receiver<Sample>) {
    receiver.close();
}

/// What the sweep is told after a sample: to go on while the consumer is
/// there and nobody asked to stop, and to stop otherwise.
pub open spec fn spec_flow(queued: bool, cancelled: bool) -> Event {
    if queued && !cancelled {
        Event::Continue
    } else {
        Event::Stop
    }
}

/// The background end of a sweep's sample stream: the channel to the
/// consumer, and the flag by which the sweep is asked to stop.
pub struct SampleSink {
    sender: Sender<Sample>,
    cancel: CancelToken,
    offered: Ghost<Seq<Sample>>,
}

impl SampleSink {
    /// The flag that this sink watches.
    pub closed spec fn token(&self) -> CancelToken {
        self.cancel
    }

    /// The samples that were passed to this sink so far, in the order in
    /// which they were passed.
    pub closed spec fn offered(&self) -> Seq<Sample> {
        self.offered@
    }

    /// A new sample stream watched through `cancel`: its background end, to
    /// which nothing has been passed yet, and its consumer's end.
    pub fn open(cancel: CancelToken) -> (ends: (SampleSink, Receiver<Sample>))
        ensures
            ends.0.token() == cancel,
            ends.0.offered() == Seq::<Sample>::empty(),
    {
        let (sender, receiver) = sample_channel();
        (SampleSink { sender, cancel, offered: Ghost(Seq::empty()) }, receiver)
    }

    /// Says what the sweep is told after a sample, given whether the channel
    /// took it and whether the flag is raised.
    pub fn flow(queued: bool, cancelled: bool) -> (event: Event)
        ensures
            event == spec_flow(queued, cancelled),
    {
        if queued && !cancelled {
            Event::Continue
        } else {
            Event::Stop
        }
    }

    /// Passes a sample on to the consumer, then looks at the flag. The answer
    /// is what the sweep is to be told: `Continue` or `Stop`. The sample is
    /// the last of those passed to this sink, after all that were passed
    /// before it, whatever the answer.
    pub fn offer(&mut self, sample: Sample) -> (event: Event)
        ensures
            event == Event::Continue || event == Event::Stop,
            final(self).offered() == old(self).offered().push(sample),
            final(self).token() == old(self).token(),
    {
        let queued = forward(&self.sender, sample);
        self.offered = Ghost(self.offered@.push(sample));
        let cancelled = self.cancel.is_cancelled();
        Self::flow(queued, cancelled)
    }

    /// Whether the sweep was asked to stop, as far as this thread can tell.
    pub fn is_cancelled(&self) -> bool {
        self.cancel.is_cancelled()
    }
}

/// The consumer's end of a sweep's sample stream.
///
/// A stream belongs to a sweep that holds the device. It may be let go only
/// once that sweep has ended and the device is back: before that, letting go
/// of it would leave the sweep running with nobody to end it.
pub struct ScanStream {
    samples: Receiver<Sample>,
    terminated: bool,
}

impl ScanStream {
    /// Whether the sweep of this stream has ended.
    pub closed spec fn is_done(&self) -> bool {
        self.terminated
    }

    /// The channel that this stream takes its samples from.
    pub closed spec fn channel(&self) -> Receiver<Sample> {
        self.samples
    }

    /// The stream of a sweep that has just begun, over `samples`.
    pub(crate) fn begin(samples: Receiver<Sample>) -> (stream: ScanStream)
        ensures
            !stream.is_done(),
            stream.channel() == samples,
    {
        ScanStream { samples, terminated: false }
    }

    /// Takes note that the sweep has ended.
    pub(crate) fn end(&mut self)
        ensures
            final(self).is_done(),
            final(self).channel() == old(self).channel(),
    {
        self.terminated = true;
    }

    /// Whether the sweep of this stream has ended.
    pub fn is_terminated(&self) -> (done: bool)
        ensures
            done == self.is_done(),
    {
        self.terminated
    }

    /// The channel from which the samples are taken.
    pub fn samples(&self) -> (samples: &Receiver<Sample>)
        ensures
            *samples == self.channel(),
    {
        &self.samples
    }

    /// Turns the sweep away at its next sample: it is told to stop as soon as
    /// it offers one. Samples already under way can still be taken. The
    /// sweep has not ended by this: its end is waited for as before.
    pub fn cancel(&self) {
        shut(&self.samples);
    }

    /// Lets go of the stream. This is for a stream whose sweep has ended.
    pub fn discard(self)
        requires
            self.is_done(),
    {
    }
}

} // verus!
