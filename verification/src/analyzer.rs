//! What every analyzer backend can do.

use vstd::prelude::*;
use crate::commands::LedState;
use crate::exchange::{Action, ActionView, Event, Sample, SweepParams};

verus! {

/// The capabilities of an analyzer backend.
///
/// Each capability opens an exchange and returns its first action. The driver
/// carries the action out and passes the outcome to `resume`, which returns
/// the next action, until an action that closes the exchange comes back.
/// Opening an exchange abandons the one in progress, if any.
///
/// A backend states what it may answer as a relation between the state it
/// was in, the state it ends up in and the action it returns: one backend
/// answers in one way only, another leaves something to chance.
pub trait SWRAnalyzer: Sized {
    /// Whether `version` may lead from `self` to `next` with `action`.
    spec fn version_opens(self, next: Self, action: ActionView) -> bool;

    /// Whether `set_led_blink` may lead from `self` to `next` with `action`.
    spec fn led_opens(self, state: LedState, next: Self, action: ActionView) -> bool;

    /// Whether `start_sweep` may lead from `self` to `next` with `action`.
    spec fn sweep_opens(
        self,
        continuous: bool,
        params: SweepParams,
        next: Self,
        action: ActionView,
    ) -> bool;

    /// Whether `resume` may lead from `self` to `next` with `action`.
    spec fn resumes(self, event: Event, next: Self, action: ActionView) -> bool;

    /// A bound on the actions that can follow one another from here on
    /// without a wait among them and without the exchange ending.
    spec fn steps_left(self) -> nat;

    /// Transfers and samples do not follow one another without end: each
    /// outcome that leads to another of them brings the backend nearer to a
    /// wait or to the end of the exchange.
    proof fn lemma_steps_run_out(self, event: Event, next: Self, action: ActionView)
        requires
            self.resumes(event, next, action),
            action.asks_transfer() || action is Emit,
        ensures
            next.steps_left() < self.steps_left(),
    ;

    /// Asks for the device's version text.
    fn version(&mut self) -> (action: Action)
        ensures
            old(self).version_opens(*final(self), action@),
    ;

    /// Sets the front-panel LED.
    fn set_led_blink(&mut self, state: LedState) -> (action: Action)
        ensures
            old(self).led_opens(state, *final(self), action@),
    ;

    /// Runs a sweep: one pass, or passes without end where `continuous` is set.
    fn start_sweep(&mut self, continuous: bool, params: SweepParams) -> (action: Action)
        ensures
            old(self).sweep_opens(continuous, params, *final(self), action@),
    ;

    /// Takes the outcome of the last action and says what to do next.
    fn resume(&mut self, event: Event) -> (action: Action)
        ensures
            old(self).resumes(event, *final(self), action@),
    ;
}

/// The samples handed on so far, once `asked` has been carried out after
/// `earlier` were handed on: one more where `asked` holds a sample.
pub open spec fn handed_on(earlier: Seq<Sample>, asked: ActionView) -> Seq<Sample> {
    match asked {
        ActionView::Emit(sample) => earlier.push(sample),
        _ => earlier,
    }
}

/// Whether `event` answers the action `asked` that the backend `mid` asked
/// for last, and can lead it to `to` and the action `last`, with `samples`
/// handed on in all where `earlier` were handed on before `asked`.
pub open spec fn leads<A: SWRAnalyzer>(
    mid: A,
    asked: ActionView,
    earlier: Seq<Sample>,
    event: Event,
    to: A,
    last: ActionView,
    samples: Seq<Sample>,
) -> bool {
    asked.answered_by(event) && mid.resumes(event, to, last) && samples == handed_on(
        earlier,
        asked,
    )
}

/// Whether a backend that was `from` and had just asked for `first` can be
/// `to` and ask for `last` after the outcomes `events`, each of which answers
/// the action asked for before it, and whether `samples` are then the samples
/// of the actions that were answered, in their order.
pub open spec fn reaches<A: SWRAnalyzer>(
    from: A,
    first: ActionView,
    events: Seq<Event>,
    to: A,
    last: ActionView,
    samples: Seq<Sample>,
) -> bool
    decreases events.len(),
{
    if events.len() == 0 {
        to == from && last == first && samples == Seq::<Sample>::empty()
    } else {
        exists|mid: A, asked: ActionView, earlier: Seq<Sample>|
            reaches(from, first, events.drop_last(), mid, asked, earlier) && #[trigger] leads(
                mid,
                asked,
                earlier,
                events.last(),
                to,
                last,
                samples,
            )
    }
}

/// One more outcome, told to a backend that was reached by a run.
pub proof fn lemma_reaches_step<A: SWRAnalyzer>(
    from: A,
    first: ActionView,
    events: Seq<Event>,
    mid: A,
    asked: ActionView,
    earlier: Seq<Sample>,
    event: Event,
    to: A,
    last: ActionView,
)
    requires
        reaches(from, first, events, mid, asked, earlier),
        asked.answered_by(event),
        mid.resumes(event, to, last),
    ensures
        reaches(from, first, events.push(event), to, last, handed_on(earlier, asked)),
{
    let longer = events.push(event);
    assert(longer.drop_last() =~= events);
    assert(leads(mid, asked, earlier, longer.last(), to, last, handed_on(earlier, asked)));
}

/// Runs a sweep that goes on until its consumer stops it.
pub fn start_continuous<A: SWRAnalyzer>(analyzer: &mut A, params: SweepParams) -> (action: Action)
    ensures
        old(analyzer).sweep_opens(true, params, *final(analyzer), action@),
{
    analyzer.start_sweep(true, params)
}

} // verus!
