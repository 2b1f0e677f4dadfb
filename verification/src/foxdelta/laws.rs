//! What holds of every exchange with the hardware backend, whatever the
//! transport and the consumer do.
//!
//! The laws speak of runs: sequences of outcomes reported to the backend, and
//! the actions it asks for in answer.

use vstd::prelude::*;
use crate::analyzer::{leads, reaches, SWRAnalyzer};
use crate::codec::{
    cmd_frame, cmd_param_frame, continuation_frame, is_ack_frame, lemma_cmd_frame_code,
    lemma_cmd_param_frame_code, lemma_continuation_frame_bytes, param_in_range, sample_count,
    sample_frame_ok, sample_values,
};
use crate::commands::CommandOp;
use crate::error::Error;
use crate::exchange::{pause_millis, ActionView, Event, Sample, SweepParams};
use crate::foxdelta::{frame_verdict, opening_step, FoxDeltaAnalyzer, Phase, Verdict};

verus! {

/// `n` completed writes or waits in a row.
pub open spec fn completions(n: nat) -> Seq<Event> {
    Seq::new(n, |i: int| Event::Completed)
}

/// The eight frames that open a sweep, in the order they are written.
pub open spec fn opening_frames(continuous: bool, params: SweepParams) -> Seq<Seq<u8>> {
    seq![
        cmd_frame(CommandOp::LedBlink.spec_code()),
        cmd_param_frame(CommandOp::NoiseFilter.spec_code(), params.noise_filter as int),
        cmd_param_frame(CommandOp::SetRFGen.spec_code(), 0),
        cmd_param_frame(CommandOp::StartFrequency.spec_code(), params.start_freq as int),
        cmd_param_frame(CommandOp::StepFrequency.spec_code(), params.step_freq as int),
        cmd_param_frame(CommandOp::StepCount.spec_code(), params.step_count as int),
        cmd_param_frame(CommandOp::StepTimeMillis.spec_code(), params.step_millis as int),
        cmd_frame(
            if continuous {
                CommandOp::SweepEnable.spec_code()
            } else {
                CommandOp::SweepOneshot.spec_code()
            },
        ),
    ]
}

/// Whether every setting of a sweep fits the parameter field of a frame.
pub open spec fn params_fit(params: SweepParams) -> bool {
    &&& param_in_range(params.noise_filter as int)
    &&& param_in_range(params.start_freq as int)
    &&& param_in_range(params.step_freq as int)
    &&& param_in_range(params.step_count as int)
    &&& param_in_range(params.step_millis as int)
}

impl FoxDeltaAnalyzer {
    /// Where a run of outcomes leaves the backend, and the actions it asked
    /// for on the way, in order.
    pub open spec fn spec_run(self, events: Seq<Event>) -> (FoxDeltaAnalyzer, Seq<ActionView>)
        decreases events.len(),
    {
        if events.len() == 0 {
            (self, Seq::empty())
        } else {
            let (before, actions) = self.spec_run(events.drop_last());
            let (after, action) = before.spec_resume(events.last());
            (after, actions.push(action))
        }
    }

    /// A run that goes on by one outcome asks for one more action.
    pub proof fn lemma_run_step(self, events: Seq<Event>, event: Event)
        ensures
            self.spec_run(events.push(event)) == (
                self.spec_run(events).0.spec_resume(event).0,
                self.spec_run(events).1.push(self.spec_run(events).0.spec_resume(event).1),
            ),
    {
        assert(events.push(event).drop_last() =~= events);
    }

    /// The opening of a sweep goes step by step: while the transport
    /// completes each write, step `j` is written as the `j`-th action, and
    /// the first step that has no frame, because its parameter does not fit,
    /// ends the exchange with `OutOfRange` in place of a write.
    pub proof fn lemma_opening_in_order(self, continuous: bool, params: SweepParams, k: int)
        requires
            0 <= k <= 7,
            forall|j: int| 0 <= j < k ==> (#[trigger] opening_step(continuous, params, j)) is Ok,
        ensures
            ({
                let (started, first) = self.spec_start_sweep(continuous, params);
                let (reached, actions) = started.spec_run(completions(k as nat));
                let trace = seq![first] + actions;
                &&& trace.len() == k + 1
                &&& reached.continuous == continuous
                &&& reached.params == params
                &&& forall|j: int|
                    0 <= j < k ==> trace[j] == ActionView::Write(
                        (#[trigger] opening_step(continuous, params, j))->Ok_0,
                    )
                &&& match opening_step(continuous, params, k) {
                    Ok(frame) => trace[k] == ActionView::Write(frame) && reached.phase
                        == (Phase::Pushing { next: (k + 1) as u8, sweep: true }),
                    Err(e) => trace[k] == ActionView::Fail(e) && reached.phase == Phase::Idle,
                }
            }),
        decreases k,
    {
        let (started, first) = self.spec_start_sweep(continuous, params);
        if k == 0 {
            assert(completions(0) =~= Seq::<Event>::empty());
        } else {
            self.lemma_opening_in_order(continuous, params, k - 1);
            assert(opening_step(continuous, params, k - 1) is Ok);
            let shorter = completions((k - 1) as nat);
            assert(completions(k as nat) =~= shorter.push(Event::Completed));
            started.lemma_run_step(shorter, Event::Completed);
            let (before, earlier) = started.spec_run(shorter);
            let (reached, actions) = started.spec_run(completions(k as nat));
            let trace = seq![first] + actions;
            let old_trace = seq![first] + earlier;
            assert(trace =~= old_trace.push(before.spec_resume(Event::Completed).1));
            assert forall|j: int| 0 <= j < k implies trace[j] == ActionView::Write(
                (#[trigger] opening_step(continuous, params, j))->Ok_0,
            ) by {
                assert(trace[j] == old_trace[j]);
            }
        }
    }

    /// With settings that fit, a sweep begins by writing the LED command, the
    /// six parameters in their fixed order, and only then the sweep command:
    /// these are its first eight actions, after which it reads its first
    /// sample.
    pub proof fn lemma_sweep_writes_parameters_first(
        self,
        continuous: bool,
        params: SweepParams,
    )
        requires
            params_fit(params),
        ensures
            ({
                let (started, first) = self.spec_start_sweep(continuous, params);
                let (reached, actions) = started.spec_run(completions(7));
                let frames = opening_frames(continuous, params);
                &&& seq![first] + actions == Seq::new(8, |j: int| ActionView::Write(frames[j]))
                &&& reached.spec_resume(Event::Completed) == (
                    reached.at(Phase::SampleAwaited),
                    ActionView::Read,
                )
            }),
    {
        self.lemma_opening_in_order(continuous, params, 7);
        let (started, first) = self.spec_start_sweep(continuous, params);
        let (reached, actions) = started.spec_run(completions(7));
        let frames = opening_frames(continuous, params);
        let trace = seq![first] + actions;
        assert forall|j: int| 0 <= j < 8 implies trace[j] == ActionView::Write(frames[j]) by {
            assert(opening_step(continuous, params, j) is Ok);
        }
        assert(trace =~= Seq::new(8, |j: int| ActionView::Write(frames[j])));
    }

    /// A command that wants an acknowledgement is written three times and no
    /// more: when none of the three replies acknowledges it, the exchange
    /// ends with `InvalidResponse`.
    pub proof fn lemma_ack_gives_up_after_three(
        self,
        op: CommandOp,
        first: [u8; 32],
        second: [u8; 32],
        third: [u8; 32],
    )
        requires
            !is_ack_frame(first@),
            !is_ack_frame(second@),
            !is_ack_frame(third@),
        ensures
            ({
                let (started, action) = self.spec_send_ack(op);
                let (reached, actions) = started.spec_run(
                    seq![
                        Event::Completed,
                        Event::Frame(first),
                        Event::Completed,
                        Event::Frame(second),
                        Event::Completed,
                        Event::Frame(third),
                    ],
                );
                let write = ActionView::Write(cmd_frame(op.spec_code()));
                &&& seq![action] + actions == seq![
                    write,
                    ActionView::Read,
                    write,
                    ActionView::Read,
                    write,
                    ActionView::Read,
                    ActionView::Fail(Error::InvalidResponse),
                ]
                &&& reached.phase == Phase::Idle
            }),
    {
        let (started, action) = self.spec_send_ack(op);
        let e0 = Seq::<Event>::empty();
        let e1 = e0.push(Event::Completed);
        let e2 = e1.push(Event::Frame(first));
        let e3 = e2.push(Event::Completed);
        let e4 = e3.push(Event::Frame(second));
        let e5 = e4.push(Event::Completed);
        let e6 = e5.push(Event::Frame(third));
        started.lemma_run_step(e0, Event::Completed);
        started.lemma_run_step(e1, Event::Frame(first));
        started.lemma_run_step(e2, Event::Completed);
        started.lemma_run_step(e3, Event::Frame(second));
        started.lemma_run_step(e4, Event::Completed);
        started.lemma_run_step(e5, Event::Frame(third));
        assert(e6 =~= seq![
            Event::Completed,
            Event::Frame(first),
            Event::Completed,
            Event::Frame(second),
            Event::Completed,
            Event::Frame(third),
        ]);
        let write = ActionView::Write(cmd_frame(op.spec_code()));
        assert(seq![action] + started.spec_run(e6).1 =~= seq![
            write,
            ActionView::Read,
            write,
            ActionView::Read,
            write,
            ActionView::Read,
            ActionView::Fail(Error::InvalidResponse),
        ]);
    }

    /// A reply that acknowledges the command ends the exchange well, at
    /// whichever of the three attempts it comes.
    pub proof fn lemma_ack_ends_handshake(self, op: CommandOp, attempt: u8, reply: [u8; 32])
        requires
            self.phase == (Phase::AckAwaited { op, attempt }),
            is_ack_frame(reply@),
        ensures
            self.spec_resume(Event::Frame(reply)) == (self.at(Phase::Idle), ActionView::Done),
    {
    }

    /// A well-formed frame without values is the end of the sweep: the
    /// request that follows every frame is written, then the sweep is
    /// switched off, the LED is switched off, and the exchange ends well.
    pub proof fn lemma_empty_frame_completes_sweep(self, frame: [u8; 32])
        requires
            self.phase == Phase::SampleAwaited,
            sample_frame_ok(frame@),
            sample_count(frame@) == 0,
        ensures
            self.spec_run(
                seq![Event::Frame(frame), Event::Completed, Event::Completed, Event::Completed],
            ) == (
                self.at(Phase::Idle),
                seq![
                    ActionView::Write(continuation_frame()),
                    ActionView::Write(cmd_frame(CommandOp::SweepDisable.spec_code())),
                    ActionView::Write(cmd_frame(CommandOp::LedOff.spec_code())),
                    ActionView::Done,
                ],
            ),
    {
        let e0 = Seq::<Event>::empty();
        let e1 = e0.push(Event::Frame(frame));
        let e2 = e1.push(Event::Completed);
        let e3 = e2.push(Event::Completed);
        let e4 = e3.push(Event::Completed);
        assert(sample_values(frame@).len() == 0);
        assert(frame_verdict(self.params, frame@) == Verdict::Complete);
        self.lemma_run_step(e0, Event::Frame(frame));
        self.lemma_run_step(e1, Event::Completed);
        self.lemma_run_step(e2, Event::Completed);
        self.lemma_run_step(e3, Event::Completed);
        assert(e4 =~= seq![
            Event::Frame(frame),
            Event::Completed,
            Event::Completed,
            Event::Completed,
        ]);
        assert(self.spec_run(e4).1 =~= seq![
            ActionView::Write(continuation_frame()),
            ActionView::Write(cmd_frame(CommandOp::SweepDisable.spec_code())),
            ActionView::Write(cmd_frame(CommandOp::LedOff.spec_code())),
            ActionView::Done,
        ]);
    }

    /// One round of the sample loop: a frame with a reading is answered with
    /// the request for the next frame, its sample goes to the consumer, and
    /// when the consumer wants more the settle delay runs and the next frame
    /// is read.
    pub proof fn lemma_sample_round(self, frame: [u8; 32], sample: Sample)
        requires
            self.phase == Phase::SampleAwaited,
            frame_verdict(self.params, frame@) == Verdict::Reading(sample),
        ensures
            self.spec_run(
                seq![Event::Frame(frame), Event::Completed, Event::Continue, Event::Completed],
            ) == (
                self,
                seq![
                    ActionView::Write(continuation_frame()),
                    ActionView::Emit(sample),
                    ActionView::Sleep(pause_millis(self.params.step_millis, 2)),
                    ActionView::Read,
                ],
            ),
    {
        let e0 = Seq::<Event>::empty();
        let e1 = e0.push(Event::Frame(frame));
        let e2 = e1.push(Event::Completed);
        let e3 = e2.push(Event::Continue);
        let e4 = e3.push(Event::Completed);
        self.lemma_run_step(e0, Event::Frame(frame));
        self.lemma_run_step(e1, Event::Completed);
        self.lemma_run_step(e2, Event::Continue);
        self.lemma_run_step(e3, Event::Completed);
        assert(e4 =~= seq![
            Event::Frame(frame),
            Event::Completed,
            Event::Continue,
            Event::Completed,
        ]);
        assert(self.spec_run(e4).1 =~= seq![
            ActionView::Write(continuation_frame()),
            ActionView::Emit(sample),
            ActionView::Sleep(pause_millis(self.params.step_millis, 2)),
            ActionView::Read,
        ]);
        assert(self.spec_run(e4).0 == self);
    }

    /// When the consumer wants to stop, the sweep is switched off at once,
    /// but the backend goes on reading: it is done only when the device has
    /// sent the frame that ends the sweep.
    pub proof fn lemma_stop_keeps_draining(self, frame: [u8; 32], sample: Sample)
        requires
            self.phase == Phase::SampleAwaited,
            frame_verdict(self.params, frame@) == Verdict::Reading(sample),
        ensures
            self.spec_run(
                seq![
                    Event::Frame(frame),
                    Event::Completed,
                    Event::Stop,
                    Event::Completed,
                    Event::Completed,
                ],
            ) == (
                self,
                seq![
                    ActionView::Write(continuation_frame()),
                    ActionView::Emit(sample),
                    ActionView::Write(cmd_frame(CommandOp::SweepDisable.spec_code())),
                    ActionView::Sleep(pause_millis(self.params.step_millis, 2)),
                    ActionView::Read,
                ],
            ),
    {
        let e0 = Seq::<Event>::empty();
        let e1 = e0.push(Event::Frame(frame));
        let e2 = e1.push(Event::Completed);
        let e3 = e2.push(Event::Stop);
        let e4 = e3.push(Event::Completed);
        let e5 = e4.push(Event::Completed);
        self.lemma_run_step(e0, Event::Frame(frame));
        self.lemma_run_step(e1, Event::Completed);
        self.lemma_run_step(e2, Event::Stop);
        self.lemma_run_step(e3, Event::Completed);
        self.lemma_run_step(e4, Event::Completed);
        assert(e5 =~= seq![
            Event::Frame(frame),
            Event::Completed,
            Event::Stop,
            Event::Completed,
            Event::Completed,
        ]);
        assert(self.spec_run(e5).1 =~= seq![
            ActionView::Write(continuation_frame()),
            ActionView::Emit(sample),
            ActionView::Write(cmd_frame(CommandOp::SweepDisable.spec_code())),
            ActionView::Sleep(pause_millis(self.params.step_millis, 2)),
            ActionView::Read,
        ]);
        assert(self.spec_run(e5).0 == self);
    }

    /// A frame that is no sample frame, or holds an index without a reading,
    /// ends the sweep with `InvalidResponse`, after the request for the next
    /// frame that follows every read.
    pub proof fn lemma_bad_frame_aborts_sweep(self, frame: [u8; 32])
        requires
            self.phase == Phase::SampleAwaited,
            frame_verdict(self.params, frame@) == Verdict::Invalid,
        ensures
            self.spec_run(seq![Event::Frame(frame), Event::Completed]) == (
                self.at(Phase::Idle),
                seq![
                    ActionView::Write(continuation_frame()),
                    ActionView::Fail(Error::InvalidResponse),
                ],
            ),
    {
        let e0 = Seq::<Event>::empty();
        let e1 = e0.push(Event::Frame(frame));
        let e2 = e1.push(Event::Completed);
        self.lemma_run_step(e0, Event::Frame(frame));
        self.lemma_run_step(e1, Event::Completed);
        assert(e2 =~= seq![Event::Frame(frame), Event::Completed]);
        assert(self.spec_run(e2).1 =~= seq![
            ActionView::Write(continuation_frame()),
            ActionView::Fail(Error::InvalidResponse),
        ]);
    }

    /// A failure of the transport ends whatever exchange is in progress, with
    /// that failure, and nothing more is written.
    pub proof fn lemma_failure_ends_exchange(self, e: Error)
        requires
            self.phase != Phase::Idle,
        ensures
            self.spec_resume(Event::Failed(e)) == (self.at(Phase::Idle), ActionView::Fail(e)),
    {
    }

    /// While no exchange is in progress no outcome makes the backend write,
    /// read or emit anything.
    pub proof fn lemma_idle_asks_nothing(self, event: Event)
        requires
            self.phase == Phase::Idle,
        ensures
            self.spec_resume(event) == (self, ActionView::Fail(Error::InvalidResponse)),
    {
    }
}

/// Whether an action writes the command that sets a sweep going.
pub open spec fn starts_sweep(action: ActionView) -> bool {
    action == ActionView::Write(cmd_frame(CommandOp::SweepEnable.spec_code())) || action
        == ActionView::Write(cmd_frame(CommandOp::SweepOneshot.spec_code()))
}

/// Whether the backend is past the opening of a sweep and before its end.
pub open spec fn sampling(phase: Phase) -> bool {
    phase is SampleAwaited || phase is ContinuationSent || phase is SampleOffered
        || phase is DisableSent || phase is Settling || phase is ClosingDisable
        || phase is ClosingLed
}

/// What holds of a sweep at any moment: of the backend it has `reached` and
/// of the actions asked for so far, the first of them included.
///
/// The first eight actions are writes only as far as they are the opening
/// steps in their order, nothing after them sets a sweep going, and the
/// backend knows how far the sweep has come.
pub open spec fn sweep_invariant(
    continuous: bool,
    params: SweepParams,
    reached: FoxDeltaAnalyzer,
    trace: Seq<ActionView>,
) -> bool {
    &&& reached.continuous == continuous
    &&& reached.params == params
    &&& trace.len() >= 1
    &&& forall|j: int|
        0 <= j < trace.len() && j < 8 && (#[trigger] trace[j]) is Write ==> step_written(
            continuous,
            params,
            trace,
            j,
        )
    &&& forall|j: int| 8 <= j < trace.len() ==> !starts_sweep(#[trigger] trace[j])
    &&& match reached.phase {
        Phase::Idle => true,
        Phase::Pushing { next, sweep } => {
            &&& sweep
            &&& next == trace.len()
            &&& next <= 8
            &&& forall|j: int| 0 <= j < trace.len() ==> (#[trigger] trace[j]) is Write
        },
        _ => sampling(reached.phase) && trace.len() >= 9,
    }
}

/// Whether the opening steps up to step `j` have frames and these are what
/// the first actions of `trace` write, in order.
pub open spec fn step_written(
    continuous: bool,
    params: SweepParams,
    trace: Seq<ActionView>,
    j: int,
) -> bool {
    forall|k: int|
        0 <= k <= j ==> (#[trigger] opening_step(continuous, params, k)) is Ok && trace[k]
            == ActionView::Write(opening_step(continuous, params, k)->Ok_0)
}

impl FoxDeltaAnalyzer {
    /// The actions of a sweep, the first included, over a run of outcomes.
    pub open spec fn sweep_trace(
        self,
        continuous: bool,
        params: SweepParams,
        events: Seq<Event>,
    ) -> Seq<ActionView> {
        seq![self.spec_start_sweep(continuous, params).1] + self.spec_start_sweep(
            continuous,
            params,
        ).0.spec_run(events).1
    }

    /// None of the frames that a sweep writes after its opening sets a sweep
    /// going, and neither does any opening step before the last.
    proof fn lemma_only_last_step_starts_sweep(continuous: bool, params: SweepParams)
        ensures
            !starts_sweep(ActionView::Write(continuation_frame())),
            !starts_sweep(ActionView::Write(cmd_frame(CommandOp::SweepDisable.spec_code()))),
            !starts_sweep(ActionView::Write(cmd_frame(CommandOp::LedOff.spec_code()))),
            forall|k: int|
                0 <= k <= 6 && (#[trigger] opening_step(continuous, params, k)) is Ok
                    ==> !starts_sweep(
                    ActionView::Write(opening_step(continuous, params, k)->Ok_0),
                ),
    {
        lemma_cmd_frame_code(CommandOp::SweepEnable.spec_code());
        lemma_cmd_frame_code(CommandOp::SweepOneshot.spec_code());
        lemma_cmd_frame_code(CommandOp::SweepDisable.spec_code());
        lemma_cmd_frame_code(CommandOp::LedOff.spec_code());
        lemma_cmd_frame_code(CommandOp::LedBlink.spec_code());
        lemma_continuation_frame_bytes();
        let enable = cmd_frame(CommandOp::SweepEnable.spec_code());
        let oneshot = cmd_frame(CommandOp::SweepOneshot.spec_code());
        assert(enable[1] == 48 && oneshot[1] == 48);
        assert(enable[2] == 49 && oneshot[2] == 51);
        assert(continuation_frame()[1] == 13);
        assert(cmd_frame(CommandOp::SweepDisable.spec_code())[2] == 50);
        assert(cmd_frame(CommandOp::LedOff.spec_code())[1] == 57);
        assert forall|k: int|
            0 <= k <= 6 && (#[trigger] opening_step(continuous, params, k)) is Ok
                implies !starts_sweep(
            ActionView::Write(opening_step(continuous, params, k)->Ok_0),
        ) by {
            let frame = opening_step(continuous, params, k)->Ok_0;
            if k == 0 {
                assert(frame[1] == 57);
            } else if k == 1 {
                lemma_cmd_param_frame_code(
                    CommandOp::NoiseFilter.spec_code(),
                    params.noise_filter as int,
                );
                assert(frame[1] == 51);
            } else if k == 2 {
                lemma_cmd_param_frame_code(CommandOp::SetRFGen.spec_code(), 0);
                assert(frame[1] == 49);
            } else if k == 3 {
                lemma_cmd_param_frame_code(
                    CommandOp::StartFrequency.spec_code(),
                    params.start_freq as int,
                );
                assert(frame[1] == 49);
            } else if k == 4 {
                lemma_cmd_param_frame_code(
                    CommandOp::StepFrequency.spec_code(),
                    params.step_freq as int,
                );
                assert(frame[1] == 49);
            } else if k == 5 {
                lemma_cmd_param_frame_code(
                    CommandOp::StepCount.spec_code(),
                    params.step_count as int,
                );
                assert(frame[1] == 49);
            } else {
                lemma_cmd_param_frame_code(
                    CommandOp::StepTimeMillis.spec_code(),
                    params.step_millis as int,
                );
                assert(frame[1] == 49);
            }
        }
    }

    /// One more outcome keeps what holds of a sweep.
    proof fn lemma_sweep_invariant_step(
        self,
        continuous: bool,
        params: SweepParams,
        trace: Seq<ActionView>,
        event: Event,
    )
        requires
            sweep_invariant(continuous, params, self, trace),
        ensures
            sweep_invariant(
                continuous,
                params,
                self.spec_resume(event).0,
                trace.push(self.spec_resume(event).1),
            ),
    {
        Self::lemma_only_last_step_starts_sweep(continuous, params);
        let (next, action) = self.spec_resume(event);
        let longer = trace.push(action);
        let n = trace.len() as int;
        assert forall|j: int| 0 <= j < n implies longer[j] == trace[j] by {}
        assert(longer[n] == action);
        assert forall|j: int|
            0 <= j < longer.len() && j < 8 && (#[trigger] longer[j]) is Write implies step_written(
            continuous,
            params,
            longer,
            j,
        ) by {
            if j < n {
                assert(trace[j] is Write);
                assert(step_written(continuous, params, trace, j));
                assert forall|k: int| 0 <= k <= j implies (#[trigger] opening_step(
                    continuous,
                    params,
                    k,
                )) is Ok && longer[k] == ActionView::Write(
                    opening_step(continuous, params, k)->Ok_0,
                ) by {
                    assert(longer[k] == trace[k]);
                }
            } else {
                assert(j == n);
                assert(self.phase == (Phase::Pushing { next: n as u8, sweep: true }));
                if n >= 1 {
                    assert(trace[n - 1] is Write);
                    assert(step_written(continuous, params, trace, n - 1));
                }
                assert forall|k: int| 0 <= k <= j implies (#[trigger] opening_step(
                    continuous,
                    params,
                    k,
                )) is Ok && longer[k] == ActionView::Write(
                    opening_step(continuous, params, k)->Ok_0,
                ) by {
                    if k < n {
                        assert(longer[k] == trace[k]);
                    }
                }
            }
        }
        assert forall|j: int| 8 <= j < longer.len() implies !starts_sweep(
            #[trigger] longer[j],
        ) by {
            if j < n {
                assert(longer[j] == trace[j]);
            }
        }
        if next.phase is Pushing {
            assert forall|j: int| 0 <= j < longer.len() implies (#[trigger] longer[j]) is Write by {
                if j < n {
                    assert(longer[j] == trace[j]);
                }
            }
        }
    }

    /// What holds of a sweep holds after any run of outcomes.
    pub proof fn lemma_sweep_invariant(
        self,
        continuous: bool,
        params: SweepParams,
        events: Seq<Event>,
    )
        ensures
            sweep_invariant(
                continuous,
                params,
                self.spec_start_sweep(continuous, params).0.spec_run(events).0,
                self.sweep_trace(continuous, params, events),
            ),
        decreases events.len(),
    {
        let (started, first) = self.spec_start_sweep(continuous, params);
        lemma_cmd_frame_code(CommandOp::LedBlink.spec_code());
        if events.len() == 0 {
            let trace = self.sweep_trace(continuous, params, events);
            assert(trace =~= seq![first]);
            assert(opening_step(continuous, params, 0) is Ok);
            assert(step_written(continuous, params, trace, 0));
        } else {
            let shorter = events.drop_last();
            self.lemma_sweep_invariant(continuous, params, shorter);
            let (before, earlier) = started.spec_run(shorter);
            let trace = self.sweep_trace(continuous, params, shorter);
            before.lemma_sweep_invariant_step(continuous, params, trace, events.last());
            assert(self.sweep_trace(continuous, params, events) =~= trace.push(
                before.spec_resume(events.last()).1,
            ));
        }
    }

    /// Whatever the transport and the consumer do, a sweep never writes the
    /// command that sets it going before it has written the LED command and
    /// the six parameters in their fixed order: where that command shows
    /// among the actions of a sweep, it is the eighth, the seven before it
    /// are those writes, and every setting fits its field.
    pub proof fn lemma_parameters_precede_sweep_command(
        self,
        continuous: bool,
        params: SweepParams,
        events: Seq<Event>,
        i: int,
    )
        requires
            0 <= i < self.sweep_trace(continuous, params, events).len(),
            starts_sweep(self.sweep_trace(continuous, params, events)[i]),
        ensures
            i == 7,
            params_fit(params),
            forall|j: int|
                0 <= j < 8 ==> self.sweep_trace(continuous, params, events)[j]
                    == ActionView::Write(#[trigger] opening_frames(continuous, params)[j]),
    {
        self.lemma_sweep_invariant(continuous, params, events);
        Self::lemma_only_last_step_starts_sweep(continuous, params);
        let trace = self.sweep_trace(continuous, params, events);
        assert(i < 8);
        assert(trace[i] is Write);
        assert(step_written(continuous, params, trace, i));
        assert(opening_step(continuous, params, i) is Ok);
        assert(i == 7);
        assert forall|j: int| 0 <= j < 8 implies trace[j] == ActionView::Write(
            #[trigger] opening_frames(continuous, params)[j],
        ) by {
            assert(opening_step(continuous, params, j) is Ok);
        }
        assert(opening_step(continuous, params, 1) is Ok);
        assert(opening_step(continuous, params, 3) is Ok);
        assert(opening_step(continuous, params, 4) is Ok);
        assert(opening_step(continuous, params, 5) is Ok);
        assert(opening_step(continuous, params, 6) is Ok);
    }
}

impl FoxDeltaAnalyzer {
    /// Where a run of outcomes leads from a backend that has just asked for
    /// `first`: the backend it leaves, and the action that is asked for last.
    pub open spec fn spec_follow(self, first: ActionView, events: Seq<Event>) -> (
        FoxDeltaAnalyzer,
        ActionView,
    ) {
        if events.len() == 0 {
            (self, first)
        } else {
            (self.spec_run(events).0, self.spec_run(events).1.last())
        }
    }

    /// The hardware backend leaves nothing to chance: where a run of outcomes
    /// can lead it is where that run does lead it.
    pub proof fn lemma_reaches_is_run(
        self,
        first: ActionView,
        events: Seq<Event>,
        to: FoxDeltaAnalyzer,
        last: ActionView,
        samples: Seq<Sample>,
    )
        requires
            reaches(self, first, events, to, last, samples),
        ensures
            (to, last) == self.spec_follow(first, events),
        decreases events.len(),
    {
        if events.len() > 0 {
            let shorter = events.drop_last();
            let (mid, asked, earlier) = choose|
                mid: FoxDeltaAnalyzer,
                asked: ActionView,
                earlier: Seq<Sample>,
            |
                reaches(self, first, shorter, mid, asked, earlier) && #[trigger] leads(
                    mid,
                    asked,
                    earlier,
                    events.last(),
                    to,
                    last,
                    samples,
                );
            self.lemma_reaches_is_run(first, shorter, mid, asked, earlier);
            self.lemma_run_step(shorter, events.last());
            assert(shorter.push(events.last()) =~= events);
            if shorter.len() == 0 {
                assert(self.spec_run(shorter).1 =~= Seq::<ActionView>::empty());
            }
        }
    }
}

} // verus!
