//! The part of a driver that needs no clock: what a backend asks for is
//! carried out, on the transport or towards the consumer, until the backend
//! asks for a wait or the exchange ends.

use vstd::prelude::*;
use crate::analyzer::{handed_on, lemma_reaches_step, reaches, SWRAnalyzer};
use crate::exchange::{Action, ActionView, Event, Sample};
use crate::stream::SampleSink;
use crate::transport::{transfer, SerialDevice};

verus! {

/// Carries out what `backend` asks for, beginning with `first`: transfers on
/// `line`, samples into `sink`, each outcome told to the backend in turn.
/// Returns the first action that is a wait, or that ends the exchange.
///
/// What comes back is where the backend gets when it is told, for each
/// action in turn, an outcome that answers it: how the transport answered a
/// transfer, and whether the sink wants the sweep to go on after a sample.
/// The samples that the backend gave on the way have been passed to the
/// sink, each once, in the order in which the backend gave them, after those
/// that were passed to it before.
pub fn advance<A: SWRAnalyzer, L: SerialDevice>(
    backend: &mut A,
    line: &mut L,
    sink: &mut SampleSink,
    first: Action,
) -> (next: Action)
    ensures
        next@ is Sleep || next@.closes(),
        exists|events: Seq<Event>, samples: Seq<Sample>|
            #![trigger reaches(*old(backend), first@, events, *final(backend), next@, samples)]
            reaches(*old(backend), first@, events, *final(backend), next@, samples)
                && final(sink).offered() == old(sink).offered() + samples,
        final(sink).token() == old(sink).token(),
        first@ is Sleep || first@.closes() ==> next@ == first@ && *final(backend) == *old(backend)
            && final(sink).offered() == old(sink).offered(),
{
    let mut action = first;
    let ghost mut events = Seq::<Event>::empty();
    let ghost mut samples = Seq::<Sample>::empty();
    proof {
        assert(old(sink).offered() + samples =~= old(sink).offered());
    }
    loop
        invariant
            reaches(*old(backend), first@, events, *backend, action@, samples),
            sink.offered() == old(sink).offered() + samples,
            sink.token() == old(sink).token(),
            events.len() == 0 ==> samples.len() == 0,
            events.len() > 0 ==> first@.asks_transfer() || first@ is Emit,
        decreases
                if action@.asks_transfer() || action@ is Emit {
                    backend.steps_left() + 1
                } else {
                    0
                },
    {
        let ghost asked = action@;
        let event = match transfer(line, &action) {
            Some(event) => event,
            None => match action {
                Action::Emit(sample) => sink.offer(sample),
                other => {
                    return other;
                },
            },
        };
        let ghost before = *backend;
        action = backend.resume(event);
        proof {
            assert(asked.answered_by(event));
            if action@.asks_transfer() || action@ is Emit {
                before.lemma_steps_run_out(event, *backend, action@);
            }
            lemma_reaches_step(
                *old(backend),
                first@,
                events,
                before,
                asked,
                samples,
                event,
                *backend,
                action@,
            );
            assert(sink.offered() =~= old(sink).offered() + handed_on(samples, asked));
            events = events.push(event);
            samples = handed_on(samples, asked);
        }
    }
}

} // verus!
