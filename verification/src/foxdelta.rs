//! The hardware backend: the command sequences of the FoxDelta analyzer.

use vstd::prelude::*;
use crate::analyzer::SWRAnalyzer;
use crate::commands::{CommandOp, LedState};
use crate::error::Error;
use crate::exchange::{
    freq_at, pause_millis, step_freq_at, Action, ActionView, Event, Sample, SweepParams,
};
use crate::codec::{
    cmd_frame, cmd_param_result, continuation_frame, decode_sample, encode_cmd, encode_cmd_param,
    encode_continuation, encode_version_request, frame_bytes, is_ack, is_ack_frame, parse_version,
    sample_frame_ok, sample_values, version_request, version_result,
};

pub mod laws;

verus! {

/// How often a command that wants an acknowledgement is sent before the
/// device is given up on.
pub const ACK_ATTEMPTS: u8 = 3;

/// The number of writes that open a sweep: LED, six parameters, sweep command.
pub const OPENING_STEPS: u8 = 8;

/// The first of the opening steps that a bare parameter push makes.
pub const FIRST_PARAM_STEP: u8 = 1;

/// The step after the last parameter.
pub const PAST_PARAM_STEPS: u8 = 7;

/// Where an exchange with the device stands: what was asked of the driver
/// last, and so what outcome is expected.
#[derive(Copy, Clone, Debug, PartialEq, Eq)]
pub enum Phase {
    /// No exchange is in progress.
    Idle,
    /// The version request is being written.
    VersionSent,
    /// The version reply is being read.
    VersionAwaited,
    /// A command without a reply is being written.
    CommandSent,
    /// A command that wants an acknowledgement is being written, for the
    /// `attempt`-th time.
    AckSent { op: CommandOp, attempt: u8 },
    /// The reply to the `attempt`-th sending is being read.
    AckAwaited { op: CommandOp, attempt: u8 },
    /// Opening step `next - 1` is being written. With `sweep` unset only the
    /// parameters are pushed.
    Pushing { next: u8, sweep: bool },
    /// A sample frame is being read.
    SampleAwaited,
    /// `frame` was read and the request for the next one is being written.
    ContinuationSent { frame: [u8; 32] },
    /// A sample is with the consumer.
    SampleOffered,
    /// The consumer asked to stop and the sweep is being switched off, while
    /// the frames still under way are waited for.
    DisableSent,
    /// The settle delay between two frames is running.
    Settling,
    /// The sweep is over and is being switched off.
    ClosingDisable,
    /// The LED is being switched off at the end of a sweep.
    ClosingLed,
}

impl Phase {
    /// A bound on the transfers and samples that follow one another from
    /// this phase on before the backend asks for a wait or ends the exchange.
    pub open spec fn steps_left(self) -> nat {
        match self {
            Phase::Idle => 0,
            Phase::VersionSent => 2,
            Phase::VersionAwaited => 1,
            Phase::CommandSent => 1,
            Phase::AckSent { attempt, .. } => if attempt <= 3 {
                (2 * (4 - attempt)) as nat
            } else {
                2
            },
            Phase::AckAwaited { attempt, .. } => if attempt <= 3 {
                (2 * (4 - attempt) - 1) as nat
            } else {
                1
            },
            Phase::Pushing { next, sweep } => if sweep {
                if next <= 8 {
                    (13 - next) as nat
                } else {
                    5
                }
            } else {
                if next <= 7 {
                    (8 - next) as nat
                } else {
                    1
                }
            },
            Phase::SampleAwaited => 4,
            Phase::ContinuationSent { .. } => 3,
            Phase::SampleOffered => 2,
            Phase::DisableSent => 1,
            Phase::Settling => 5,
            Phase::ClosingDisable => 2,
            Phase::ClosingLed => 1,
        }
    }
}

/// What a frame read during a sweep means.
#[derive(Copy, Clone, Debug, PartialEq, Eq, Structural)]
pub enum Verdict {
    /// The frame is malformed, or holds an index without a reading.
    Invalid,
    /// The frame holds no value: the sweep is complete.
    Complete,
    /// The frame holds this sample.
    Reading(Sample),
}

/// What a frame read during a sweep with `params` means: its first value is
/// the index of the step, its second the reading.
pub open spec fn frame_verdict(params: SweepParams, frame: Seq<u8>) -> Verdict {
    if !sample_frame_ok(frame) {
        Verdict::Invalid
    } else if sample_values(frame).len() == 0 {
        Verdict::Complete
    } else if sample_values(frame).len() < 2 {
        Verdict::Invalid
    } else {
        Verdict::Reading(
            Sample {
                index: sample_values(frame)[0] as i32,
                freq: step_freq_at(params, sample_values(frame)[0] as int) as i64,
                value: sample_values(frame)[1] as i64,
            },
        )
    }
}

/// Says what a frame read during a sweep with `params` means.
pub fn interpret(params: &SweepParams, frame: [u8; 32]) -> (verdict: Verdict)
    ensures
        verdict == frame_verdict(*params, frame@),
{
    match decode_sample(frame) {
        Err(_) => Verdict::Invalid,
        Ok(values) => {
            if values.len() == 0 {
                Verdict::Complete
            } else if values.len() < 2 {
                Verdict::Invalid
            } else {
                let index: i32 = values[0] as i32;
                Verdict::Reading(
                    Sample { index, freq: freq_at(params, index), value: values[1] as i64 },
                )
            }
        },
    }
}

/// What opening step `k` of a sweep writes: the LED is set blinking, the
/// parameters follow in the order the firmware consumes them, the sweep
/// command comes last. A parameter that does not fit its field gives
/// `OutOfRange` in place of a frame.
pub open spec fn opening_step(continuous: bool, params: SweepParams, k: int) -> Result<
    Seq<u8>,
    Error,
> {
    if k == 0 {
        Ok(cmd_frame(CommandOp::LedBlink.spec_code()))
    } else if k == 1 {
        cmd_param_result(CommandOp::NoiseFilter, params.noise_filter as int)
    } else if k == 2 {
        cmd_param_result(CommandOp::SetRFGen, 0)
    } else if k == 3 {
        cmd_param_result(CommandOp::StartFrequency, params.start_freq as int)
    } else if k == 4 {
        cmd_param_result(CommandOp::StepFrequency, params.step_freq as int)
    } else if k == 5 {
        cmd_param_result(CommandOp::StepCount, params.step_count as int)
    } else if k == 6 {
        cmd_param_result(CommandOp::StepTimeMillis, params.step_millis as int)
    } else if continuous {
        Ok(cmd_frame(CommandOp::SweepEnable.spec_code()))
    } else {
        Ok(cmd_frame(CommandOp::SweepOneshot.spec_code()))
    }
}

/// The protocol state of the hardware backend.
#[derive(Copy, Clone, Debug, PartialEq, Eq)]
pub struct FoxDeltaAnalyzer {
    pub phase: Phase,
    /// Whether the sweep in progress is a continuous one.
    pub continuous: bool,
    /// The settings of the sweep or parameter push in progress.
    pub params: SweepParams,
}

impl FoxDeltaAnalyzer {
    /// This backend in another phase.
    pub open spec fn at(self, phase: Phase) -> FoxDeltaAnalyzer {
        FoxDeltaAnalyzer { phase, continuous: self.continuous, params: self.params }
    }

    /// This backend set up for a sweep or a parameter push.
    pub open spec fn set_up(self, continuous: bool, params: SweepParams) -> FoxDeltaAnalyzer {
        FoxDeltaAnalyzer { phase: Phase::Idle, continuous, params }
    }

    /// Opening step `k`: its frame is written, or the exchange fails where the
    /// step has none.
    pub open spec fn spec_push(self, k: u8, sweep: bool) -> (FoxDeltaAnalyzer, ActionView) {
        match opening_step(self.continuous, self.params, k as int) {
            Ok(frame) => (
                self.at(Phase::Pushing { next: (k + 1) as u8, sweep }),
                ActionView::Write(frame),
            ),
            Err(e) => (self.at(Phase::Idle), ActionView::Fail(e)),
        }
    }

    /// The exchange that asks for the version.
    pub open spec fn spec_version(self) -> (FoxDeltaAnalyzer, ActionView) {
        (self.at(Phase::VersionSent), ActionView::Write(version_request()))
    }

    /// The exchange that sends one command and waits for no reply.
    pub open spec fn spec_send_cmd(self, op: CommandOp) -> (FoxDeltaAnalyzer, ActionView) {
        (self.at(Phase::CommandSent), ActionView::Write(cmd_frame(op.spec_code())))
    }

    /// The exchange that sends a command until the device acknowledges it.
    pub open spec fn spec_send_ack(self, op: CommandOp) -> (FoxDeltaAnalyzer, ActionView) {
        (
            self.at(Phase::AckSent { op, attempt: 1 }),
            ActionView::Write(cmd_frame(op.spec_code())),
        )
    }

    /// The exchange that pushes the six parameters of a sweep.
    pub open spec fn spec_set_params(self, params: SweepParams) -> (
        FoxDeltaAnalyzer,
        ActionView,
    ) {
        self.set_up(false, params).spec_push(1, false)
    }

    /// The exchange that runs a sweep.
    pub open spec fn spec_start_sweep(self, continuous: bool, params: SweepParams) -> (
        FoxDeltaAnalyzer,
        ActionView,
    ) {
        self.set_up(continuous, params).spec_push(0, true)
    }

    /// What the reply to a version request comes to.
    pub open spec fn version_reply(frame: Seq<u8>) -> ActionView {
        match version_result(frame) {
            Ok(text) => ActionView::Version(text),
            Err(e) => ActionView::Fail(e),
        }
    }

    /// The next phase and action, given the outcome of the last action.
    ///
    /// A failure of the transport ends the exchange with that failure. An
    /// outcome that does not answer the last action ends it with
    /// `InvalidResponse`, and so does any outcome while no exchange is in
    /// progress.
    pub open spec fn spec_resume(self, event: Event) -> (FoxDeltaAnalyzer, ActionView) {
        let idle = self.at(Phase::Idle);
        let stray = (idle, ActionView::Fail(Error::InvalidResponse));
        match (self.phase, event) {
            (Phase::Idle, _) => stray,
            (_, Event::Failed(e)) => (idle, ActionView::Fail(e)),
            (Phase::VersionSent, Event::Completed) => (
                self.at(Phase::VersionAwaited),
                ActionView::Read,
            ),
            (Phase::VersionAwaited, Event::Frame(frame)) => (idle, Self::version_reply(frame@)),
            (Phase::CommandSent, Event::Completed) => (idle, ActionView::Done),
            (Phase::AckSent { op, attempt }, Event::Completed) => (
                self.at(Phase::AckAwaited { op, attempt }),
                ActionView::Read,
            ),
            (Phase::AckAwaited { op, attempt }, Event::Frame(frame)) => {
                if is_ack_frame(frame@) {
                    (idle, ActionView::Done)
                } else if attempt < ACK_ATTEMPTS {
                    (
                        self.at(Phase::AckSent { op, attempt: (attempt + 1) as u8 }),
                        ActionView::Write(cmd_frame(op.spec_code())),
                    )
                } else {
                    stray
                }
            },
            (Phase::Pushing { next, sweep }, Event::Completed) => {
                if sweep && next >= OPENING_STEPS {
                    (self.at(Phase::SampleAwaited), ActionView::Read)
                } else if !sweep && next >= PAST_PARAM_STEPS {
                    (idle, ActionView::Done)
                } else {
                    self.spec_push(next, sweep)
                }
            },
            (Phase::SampleAwaited, Event::Frame(frame)) => (
                self.at(Phase::ContinuationSent { frame }),
                ActionView::Write(continuation_frame()),
            ),
            (Phase::ContinuationSent { frame }, Event::Completed) => {
                match frame_verdict(self.params, frame@) {
                    Verdict::Invalid => stray,
                    Verdict::Complete => (
                        self.at(Phase::ClosingDisable),
                        ActionView::Write(cmd_frame(CommandOp::SweepDisable.spec_code())),
                    ),
                    Verdict::Reading(sample) => (
                        self.at(Phase::SampleOffered),
                        ActionView::Emit(sample),
                    ),
                }
            },
            (Phase::SampleOffered, Event::Continue) => (
                self.at(Phase::Settling),
                ActionView::Sleep(pause_millis(self.params.step_millis, 2)),
            ),
            (Phase::SampleOffered, Event::Stop) => (
                self.at(Phase::DisableSent),
                ActionView::Write(cmd_frame(CommandOp::SweepDisable.spec_code())),
            ),
            (Phase::DisableSent, Event::Completed) => (
                self.at(Phase::Settling),
                ActionView::Sleep(pause_millis(self.params.step_millis, 2)),
            ),
            (Phase::Settling, Event::Completed) => (
                self.at(Phase::SampleAwaited),
                ActionView::Read,
            ),
            (Phase::ClosingDisable, Event::Completed) => (
                self.at(Phase::ClosingLed),
                ActionView::Write(cmd_frame(CommandOp::LedOff.spec_code())),
            ),
            (Phase::ClosingLed, Event::Completed) => (idle, ActionView::Done),
            _ => stray,
        }
    }

    /// A backend with no exchange in progress.
    pub open spec fn spec_new() -> FoxDeltaAnalyzer {
        FoxDeltaAnalyzer {
            phase: Phase::Idle,
            continuous: false,
            params: SweepParams {
                noise_filter: 0,
                start_freq: 0,
                step_freq: 0,
                step_count: 0,
                step_millis: 0,
            },
        }
    }

    /// A backend with no exchange in progress.
    pub fn new() -> (backend: FoxDeltaAnalyzer)
        ensures
            backend == Self::spec_new(),
    {
        FoxDeltaAnalyzer {
            phase: Phase::Idle,
            continuous: false,
            params: SweepParams {
                noise_filter: 0,
                start_freq: 0,
                step_freq: 0,
                step_count: 0,
                step_millis: 0,
            },
        }
    }

    /// Ends the exchange with `error`.
    fn fail(&mut self, error: Error) -> (action: Action)
        ensures
            *final(self) == old(self).at(Phase::Idle),
            action@ == ActionView::Fail(error),
    {
        self.phase = Phase::Idle;
        Action::Fail(error)
    }

    /// Writes the frame of `op` and goes on to `phase`.
    fn write_cmd(&mut self, op: CommandOp, phase: Phase) -> (action: Action)
        ensures
            *final(self) == old(self).at(phase),
            action@ == ActionView::Write(cmd_frame(op.spec_code())),
    {
        self.phase = phase;
        let frame = encode_cmd(op);
        Action::Write(frame_bytes(&frame))
    }

    /// The settle delay between two frames: half the step time.
    fn settle(&mut self) -> (action: Action)
        ensures
            *final(self) == old(self).at(Phase::Settling),
            action@ == ActionView::Sleep(pause_millis(old(self).params.step_millis, 2)),
    {
        self.phase = Phase::Settling;
        let millis: u64 = if self.params.step_millis > 0 {
            (self.params.step_millis / 2) as u64
        } else {
            0
        };
        Action::Sleep(millis)
    }

    /// Takes opening step `k`.
    fn push(&mut self, k: u8, sweep: bool) -> (action: Action)
        requires
            k < 8,
        ensures
            (*final(self), action@) == old(self).spec_push(k, sweep),
    {
        let encoded: Result<[u8; 32], Error> = if k == 0 {
            Ok(encode_cmd(CommandOp::LedBlink))
        } else if k == 1 {
            encode_cmd_param(CommandOp::NoiseFilter, self.params.noise_filter)
        } else if k == 2 {
            encode_cmd_param(CommandOp::SetRFGen, 0)
        } else if k == 3 {
            encode_cmd_param(CommandOp::StartFrequency, self.params.start_freq)
        } else if k == 4 {
            encode_cmd_param(CommandOp::StepFrequency, self.params.step_freq)
        } else if k == 5 {
            encode_cmd_param(CommandOp::StepCount, self.params.step_count)
        } else if k == 6 {
            encode_cmd_param(CommandOp::StepTimeMillis, self.params.step_millis)
        } else if self.continuous {
            Ok(encode_cmd(CommandOp::SweepEnable))
        } else {
            Ok(encode_cmd(CommandOp::SweepOneshot))
        };
        match encoded {
            Ok(frame) => {
                self.phase = Phase::Pushing { next: k + 1, sweep };
                Action::Write(frame_bytes(&frame))
            },
            Err(e) => self.fail(e),
        }
    }

    /// Sends one command and waits for no reply.
    pub fn send_cmd(&mut self, op: CommandOp) -> (action: Action)
        ensures
            (*final(self), action@) == old(self).spec_send_cmd(op),
    {
        self.write_cmd(op, Phase::CommandSent)
    }

    /// Sends a command and reads the reply, up to three times, until a reply
    /// acknowledges it.
    pub fn send_ack(&mut self, op: CommandOp) -> (action: Action)
        ensures
            (*final(self), action@) == old(self).spec_send_ack(op),
    {
        self.write_cmd(op, Phase::AckSent { op, attempt: 1 })
    }

    /// Pushes the parameters of a sweep, in the order the firmware consumes
    /// them: noise filter, RF generator off, start frequency, step frequency,
    /// step count, step time.
    pub fn set_params(&mut self, params: SweepParams) -> (action: Action)
        ensures
            (*final(self), action@) == old(self).spec_set_params(params),
    {
        self.phase = Phase::Idle;
        self.continuous = false;
        self.params = params;
        self.push(FIRST_PARAM_STEP, false)
    }
}

impl SWRAnalyzer for FoxDeltaAnalyzer {
    open spec fn version_opens(self, next: Self, action: ActionView) -> bool {
        (next, action) == self.spec_version()
    }

    open spec fn led_opens(self, state: LedState, next: Self, action: ActionView) -> bool {
        (next, action) == self.spec_send_cmd(state.spec_command())
    }

    open spec fn sweep_opens(
        self,
        continuous: bool,
        params: SweepParams,
        next: Self,
        action: ActionView,
    ) -> bool {
        (next, action) == self.spec_start_sweep(continuous, params)
    }

    open spec fn resumes(self, event: Event, next: Self, action: ActionView) -> bool {
        (next, action) == self.spec_resume(event)
    }

    open spec fn steps_left(self) -> nat {
        self.phase.steps_left()
    }

    proof fn lemma_steps_run_out(self, event: Event, next: Self, action: ActionView) {
    }

    fn version(&mut self) -> (action: Action)
    {
        self.phase = Phase::VersionSent;
        Action::Write(encode_version_request())
    }

    fn set_led_blink(&mut self, state: LedState) -> (action: Action)
    {
        self.write_cmd(state.command(), Phase::CommandSent)
    }

    fn start_sweep(&mut self, continuous: bool, params: SweepParams) -> (action: Action)
    {
        self.phase = Phase::Idle;
        self.continuous = continuous;
        self.params = params;
        self.push(0, true)
    }

    fn resume(&mut self, event: Event) -> (action: Action)
    {
        let phase = self.phase;
        match (phase, event) {
            (Phase::Idle, _) => self.fail(Error::InvalidResponse),
            (_, Event::Failed(e)) => self.fail(e),
            (Phase::VersionSent, Event::Completed) => {
                self.phase = Phase::VersionAwaited;
                Action::Read
            },
            (Phase::VersionAwaited, Event::Frame(frame)) => {
                self.phase = Phase::Idle;
                match parse_version(&frame) {
                    Ok(text) => Action::Version(text),
                    Err(e) => Action::Fail(e),
                }
            },
            (Phase::CommandSent, Event::Completed) => {
                self.phase = Phase::Idle;
                Action::Done
            },
            (Phase::AckSent { op, attempt }, Event::Completed) => {
                self.phase = Phase::AckAwaited { op, attempt };
                Action::Read
            },
            (Phase::AckAwaited { op, attempt }, Event::Frame(frame)) => {
                if is_ack(&frame) {
                    self.phase = Phase::Idle;
                    Action::Done
                } else if attempt < ACK_ATTEMPTS {
                    self.write_cmd(op, Phase::AckSent { op, attempt: attempt + 1 })
                } else {
                    self.fail(Error::InvalidResponse)
                }
            },
            (Phase::Pushing { next, sweep }, Event::Completed) => {
                if sweep && next >= OPENING_STEPS {
                    self.phase = Phase::SampleAwaited;
                    Action::Read
                } else if !sweep && next >= PAST_PARAM_STEPS {
                    self.phase = Phase::Idle;
                    Action::Done
                } else {
                    self.push(next, sweep)
                }
            },
            (Phase::SampleAwaited, Event::Frame(frame)) => {
                self.phase = Phase::ContinuationSent { frame };
                let request = encode_continuation();
                Action::Write(frame_bytes(&request))
            },
            (Phase::ContinuationSent { frame }, Event::Completed) => {
                match interpret(&self.params, frame) {
                    Verdict::Invalid => self.fail(Error::InvalidResponse),
                    Verdict::Complete => self.write_cmd(
                        CommandOp::SweepDisable,
                        Phase::ClosingDisable,
                    ),
                    Verdict::Reading(sample) => {
                        self.phase = Phase::SampleOffered;
                        Action::Emit(sample)
                    },
                }
            },
            (Phase::SampleOffered, Event::Continue) => self.settle(),
            (Phase::SampleOffered, Event::Stop) => self.write_cmd(
                CommandOp::SweepDisable,
                Phase::DisableSent,
            ),
            (Phase::DisableSent, Event::Completed) => self.settle(),
            (Phase::Settling, Event::Completed) => {
                self.phase = Phase::SampleAwaited;
                Action::Read
            },
            (Phase::ClosingDisable, Event::Completed) => self.write_cmd(
                CommandOp::LedOff,
                Phase::ClosingLed,
            ),
            (Phase::ClosingLed, Event::Completed) => {
                self.phase = Phase::Idle;
                Action::Done
            },
            _ => self.fail(Error::InvalidResponse),
        }
    }
}

} // verus!
