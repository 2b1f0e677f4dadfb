//! The simulated backend: an analyzer that needs no hardware.

use vstd::prelude::*;
use rand::Rng;
use crate::analyzer::SWRAnalyzer;
use crate::commands::LedState;
use crate::error::Error;
use crate::exchange::{
    freq_at, pause_millis, step_freq_at, Action, ActionView, Event, Sample, SweepParams,
};

verus! {

/// The readings of one pass lie this far above their step numbers, at most.
pub const OFFSET_LIMIT: i32 = 1000;

/// How long the simulated LED command takes, in milliseconds.
pub const LED_MILLIS: u64 = 1000;

/// Where an exchange with the simulated device stands.
#[derive(Copy, Clone, Debug, PartialEq, Eq, Structural)]
pub enum DummyPhase {
    /// No exchange is in progress.
    Idle,
    /// The LED command is taking its time.
    LedPause,
    /// The sample of step `index` is with the consumer.
    Offered { index: i32, offset: i32 },
    /// The step time after step `index` is running.
    Pausing { index: i32, offset: i32 },
}

/// The protocol state of the simulated backend.
#[derive(Copy, Clone, Debug, PartialEq, Eq, Structural)]
pub struct Dummy {
    pub phase: DummyPhase,
    /// Whether the sweep in progress is a continuous one.
    pub continuous: bool,
    /// The settings of the sweep in progress.
    pub params: SweepParams,
}

/// The sample that the simulated device gives for step `index` of a pass
/// whose readings lie `offset` above their step numbers.
pub open spec fn dummy_sample(params: SweepParams, index: i32, offset: i32) -> Sample {
    Sample {
        index,
        freq: step_freq_at(params, index as int) as i64,
        value: (index + offset) as i64,
    }
}

/// The text the simulated device gives as its version.
pub open spec fn dummy_version() -> Seq<char> {
    "Dummy device"@
}

/// `Rng::gen_range` on `rand::thread_rng()`, over the numbers from 0 up to
/// `limit`, `limit` itself left out: a random number that is at least 0 and
/// less than `limit`. An empty range makes `gen_range` panic, so `limit` has
/// to be above 0.
#[verifier::external_body]
fn draw_below(limit: i32) -> (number: i32)
    requires
        limit > 0,
    ensures
        0 <= number < limit,
{
    rand::thread_rng().gen_range(0..limit)
}

impl Dummy {
    /// This backend in another phase.
    pub open spec fn at(self, phase: DummyPhase) -> Dummy {
        Dummy { phase, continuous: self.continuous, params: self.params }
    }

    /// The start of a pass whose readings lie `offset` above their step
    /// numbers: its first sample goes out.
    pub open spec fn spec_begin_pass(self, offset: i32) -> (Dummy, ActionView) {
        (
            self.at(DummyPhase::Offered { index: 0, offset }),
            ActionView::Emit(dummy_sample(self.params, 0, offset)),
        )
    }

    /// The exchange that runs a sweep, where `offset` is the number drawn for
    /// its first pass. A sweep without steps is over at once.
    pub open spec fn spec_start_sweep(
        self,
        continuous: bool,
        params: SweepParams,
        offset: i32,
    ) -> (Dummy, ActionView) {
        let set_up = Dummy { phase: DummyPhase::Idle, continuous, params };
        if params.step_count < 0 {
            (set_up, ActionView::Done)
        } else {
            set_up.spec_begin_pass(offset)
        }
    }

    /// Whether the next action is the first sample of a new pass, for which a
    /// number has to be drawn.
    pub open spec fn opens_pass(self, event: Event) -> bool {
        self.continuous && event == Event::Completed && (self.phase matches DummyPhase::Pausing {
            index,
            ..
        } && index >= self.params.step_count)
    }

    /// The next phase and action, given the outcome of the last action, where
    /// `offset` is the number drawn for the pass that begins, if one does.
    ///
    /// The consumer's wish to stop ends the sweep well. An outcome that does
    /// not answer the last action ends the exchange with `InvalidResponse`,
    /// and so does any outcome while no exchange is in progress.
    pub open spec fn spec_resume(self, event: Event, offset: i32) -> (Dummy, ActionView) {
        let idle = self.at(DummyPhase::Idle);
        match (self.phase, event) {
            (DummyPhase::LedPause, Event::Completed) => (idle, ActionView::Done),
            (DummyPhase::Offered { index, offset: current }, Event::Continue) => (
                self.at(DummyPhase::Pausing { index, offset: current }),
                ActionView::Sleep(pause_millis(self.params.step_millis, 1)),
            ),
            (DummyPhase::Offered { .. }, Event::Stop) => (idle, ActionView::Done),
            (DummyPhase::Pausing { index, offset: current }, Event::Completed) => {
                if index < self.params.step_count {
                    (
                        self.at(DummyPhase::Offered { index: (index + 1) as i32, offset: current }),
                        ActionView::Emit(
                            dummy_sample(self.params, (index + 1) as i32, current),
                        ),
                    )
                } else if self.continuous {
                    self.spec_begin_pass(offset)
                } else {
                    (idle, ActionView::Done)
                }
            },
            _ => (idle, ActionView::Fail(Error::InvalidResponse)),
        }
    }

    /// A backend with no exchange in progress.
    pub open spec fn spec_new() -> Dummy {
        Dummy {
            phase: DummyPhase::Idle,
            continuous: false,
            params: SweepParams {
                noise_filter: 0,
                start_freq: 0,
                step_freq: 0,
                step_count: 0,
                step_millis: 0,
            },
        }
    }

    /// A backend with no exchange in progress.
    pub fn new() -> (backend: Dummy)
        ensures
            backend == Self::spec_new(),
    {
        Dummy {
            phase: DummyPhase::Idle,
            continuous: false,
            params: SweepParams {
                noise_filter: 0,
                start_freq: 0,
                step_freq: 0,
                step_count: 0,
                step_millis: 0,
            },
        }
    }

    /// Hands out the sample of step `index`.
    fn offer(&mut self, index: i32, offset: i32) -> (action: Action)
        ensures
            *final(self) == old(self).at(DummyPhase::Offered { index, offset }),
            action@ == ActionView::Emit(dummy_sample(old(self).params, index, offset)),
    {
        self.phase = DummyPhase::Offered { index, offset };
        Action::Emit(
            Sample {
                index,
                freq: freq_at(&self.params, index),
                value: index as i64 + offset as i64,
            },
        )
    }

    /// Opens a sweep whose first pass has readings `offset` above their step
    /// numbers.
    pub fn start_sweep_with(&mut self, continuous: bool, params: SweepParams, offset: i32) -> (action:
        Action)
        ensures
            (*final(self), action@) == old(self).spec_start_sweep(continuous, params, offset),
    {
        self.phase = DummyPhase::Idle;
        self.continuous = continuous;
        self.params = params;
        if params.step_count < 0 {
            Action::Done
        } else {
            self.offer(0, offset)
        }
    }

    /// Says whether `resume_with` is about to open a new pass on `event`.
    pub fn opens_pass_on(&self, event: &Event) -> (opens: bool)
        ensures
            opens == self.opens_pass(*event),
    {
        match (self.phase, event) {
            (DummyPhase::Pausing { index, .. }, Event::Completed) => self.continuous && index
                >= self.params.step_count,
            _ => false,
        }
    }

    /// Takes the outcome of the last action and says what to do next, with
    /// `offset` for the pass that begins, if one does.
    pub fn resume_with(&mut self, event: Event, offset: i32) -> (action: Action)
        ensures
            (*final(self), action@) == old(self).spec_resume(event, offset),
    {
        let phase = self.phase;
        match (phase, event) {
            (DummyPhase::LedPause, Event::Completed) => {
                self.phase = DummyPhase::Idle;
                Action::Done
            },
            (DummyPhase::Offered { index, offset: current }, Event::Continue) => {
                self.phase = DummyPhase::Pausing { index, offset: current };
                let millis: u64 = if self.params.step_millis > 0 {
                    self.params.step_millis as u64
                } else {
                    0
                };
                Action::Sleep(millis)
            },
            (DummyPhase::Offered { .. }, Event::Stop) => {
                self.phase = DummyPhase::Idle;
                Action::Done
            },
            (DummyPhase::Pausing { index, offset: current }, Event::Completed) => {
                if index < self.params.step_count {
                    self.offer(index + 1, current)
                } else if self.continuous {
                    self.offer(0, offset)
                } else {
                    self.phase = DummyPhase::Idle;
                    Action::Done
                }
            },
            _ => {
                self.phase = DummyPhase::Idle;
                Action::Fail(Error::InvalidResponse)
            },
        }
    }
}

/// One round of a sweep whose consumer wants more: the consumer takes the
/// sample, the step time runs, and the backend says what comes next.
pub open spec fn spec_round(reached: (Dummy, ActionView), offset: i32) -> (Dummy, ActionView) {
    reached.0.spec_resume(Event::Continue, offset).0.spec_resume(Event::Completed, offset)
}

/// `n` rounds in a row.
pub open spec fn spec_rounds(reached: (Dummy, ActionView), n: nat, offset: i32) -> (
    Dummy,
    ActionView,
)
    decreases n,
{
    if n == 0 {
        reached
    } else {
        spec_round(spec_rounds(reached, (n - 1) as nat, offset), offset)
    }
}

impl Dummy {
    /// A pass gives its samples in order: while the consumer wants more, the
    /// sample that follows `i` rounds is that of step `i`, at the frequency
    /// of that step, with the reading that the offset of the pass gives it.
    pub proof fn lemma_pass_in_order(
        self,
        continuous: bool,
        params: SweepParams,
        offset: i32,
        later: i32,
        i: int,
    )
        requires
            0 <= i <= params.step_count,
        ensures
            spec_rounds(self.spec_start_sweep(continuous, params, offset), i as nat, later) == (
                Dummy {
                    phase: DummyPhase::Offered { index: i as i32, offset },
                    continuous,
                    params,
                },
                ActionView::Emit(dummy_sample(params, i as i32, offset)),
            ),
        decreases i,
    {
        if i > 0 {
            self.lemma_pass_in_order(continuous, params, offset, later, i - 1);
        }
    }

    /// A single pass ends well once its last step has been taken: a sweep of
    /// `step_count` steps beyond the first gives `step_count + 1` samples and
    /// no more.
    pub proof fn lemma_oneshot_ends_after_last_step(
        self,
        params: SweepParams,
        offset: i32,
        later: i32,
    )
        requires
            0 <= params.step_count,
        ensures
            spec_rounds(
                self.spec_start_sweep(false, params, offset),
                (params.step_count + 1) as nat,
                later,
            ) == (
                Dummy { phase: DummyPhase::Idle, continuous: false, params },
                ActionView::Done,
            ),
    {
        self.lemma_pass_in_order(false, params, offset, later, params.step_count as int);
    }

    /// A continuous sweep begins its next pass once the last step of a pass
    /// has been taken, with the offset drawn for that pass.
    pub proof fn lemma_continuous_starts_over(self, params: SweepParams, offset: i32, later: i32)
        requires
            0 <= params.step_count,
        ensures
            spec_rounds(
                self.spec_start_sweep(true, params, offset),
                (params.step_count + 1) as nat,
                later,
            ) == (
                Dummy {
                    phase: DummyPhase::Offered { index: 0, offset: later },
                    continuous: true,
                    params,
                },
                ActionView::Emit(dummy_sample(params, 0, later)),
            ),
    {
        self.lemma_pass_in_order(true, params, offset, later, params.step_count as int);
    }

    /// The consumer's wish to stop ends a sweep of either kind at once and
    /// well: no further sample follows.
    pub proof fn lemma_stop_ends_sweep(self, offset: i32)
        requires
            self.phase is Offered,
        ensures
            self.spec_resume(Event::Stop, offset) == (self.at(DummyPhase::Idle), ActionView::Done),
            self.at(DummyPhase::Idle).spec_resume(Event::Continue, offset).1 == ActionView::Fail(
                Error::InvalidResponse,
            ),
    {
    }
}

impl SWRAnalyzer for Dummy {
    open spec fn version_opens(self, next: Self, action: ActionView) -> bool {
        next == self.at(DummyPhase::Idle) && action == ActionView::Version(dummy_version())
    }

    open spec fn led_opens(self, state: LedState, next: Self, action: ActionView) -> bool {
        next == self.at(DummyPhase::LedPause) && action == ActionView::Sleep(LED_MILLIS)
    }

    /// Each pass has its readings a random amount above their step numbers.
    open spec fn sweep_opens(
        self,
        continuous: bool,
        params: SweepParams,
        next: Self,
        action: ActionView,
    ) -> bool {
        exists|offset: i32|
            0 <= offset < OFFSET_LIMIT && (next, action) == #[trigger] self.spec_start_sweep(
                continuous,
                params,
                offset,
            )
    }

    /// Where a new pass begins, its readings lie a random amount above their
    /// step numbers.
    open spec fn resumes(self, event: Event, next: Self, action: ActionView) -> bool {
        exists|offset: i32|
            0 <= offset < OFFSET_LIMIT && (next, action) == #[trigger] self.spec_resume(
                event,
                offset,
            )
    }

    open spec fn steps_left(self) -> nat {
        match self.phase {
            DummyPhase::Idle => 0,
            DummyPhase::LedPause => 1,
            DummyPhase::Offered { .. } => 1,
            DummyPhase::Pausing { .. } => 2,
        }
    }

    proof fn lemma_steps_run_out(self, event: Event, next: Self, action: ActionView) {
    }

    fn version(&mut self) -> (action: Action)
    {
        self.phase = DummyPhase::Idle;
        Action::Version("Dummy device".to_string())
    }

    fn set_led_blink(&mut self, state: LedState) -> (action: Action)
    {
        self.phase = DummyPhase::LedPause;
        Action::Sleep(LED_MILLIS)
    }

    fn start_sweep(&mut self, continuous: bool, params: SweepParams) -> (action: Action)
    {
        let offset = draw_below(OFFSET_LIMIT);
        let action = self.start_sweep_with(continuous, params, offset);
        assert((*self, action@) == old(self).spec_start_sweep(continuous, params, offset));
        action
    }

    fn resume(&mut self, event: Event) -> (action: Action)
    {
        let offset: i32 = if self.opens_pass_on(&event) {
            draw_below(OFFSET_LIMIT)
        } else {
            0
        };
        let action = self.resume_with(event, offset);
        assert((*self, action@) == old(self).spec_resume(event, offset));
        action
    }
}

} // verus!
