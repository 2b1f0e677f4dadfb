use swr_analyzer::analyzer::{start_continuous, SWRAnalyzer};
use swr_analyzer::backend::{get_analyzer, Backend};
use swr_analyzer::commands::{CommandOp, LedState};
use swr_analyzer::error::Error;
use swr_analyzer::exchange::{Action, Event, Sample, SweepParams};
use swr_analyzer::foxdelta::{interpret, FoxDeltaAnalyzer, Phase, Verdict};

/// A transport and a consumer that follow a script and keep a record.
struct Bench {
    replies: Vec<Result<[u8; 32], Error>>,
    fail_write: Option<usize>,
    stop_at: Option<usize>,
    writes: Vec<Vec<u8>>,
    samples: Vec<Sample>,
    sleeps: Vec<u64>,
    reads: usize,
}

impl Bench {
    fn new(replies: Vec<Result<[u8; 32], Error>>) -> Bench {
        Bench {
            replies,
            fail_write: None,
            stop_at: None,
            writes: Vec::new(),
            samples: Vec::new(),
            sleeps: Vec::new(),
            reads: 0,
        }
    }

    fn run<A: SWRAnalyzer>(&mut self, backend: &mut A, first: Action) -> Action {
        let mut action = first;
        for _ in 0..10_000 {
            let event = match action {
                Action::Write(bytes) => {
                    self.writes.push(bytes);
                    if self.fail_write == Some(self.writes.len() - 1) {
                        Event::Failed(Error::Io)
                    } else {
                        Event::Completed
                    }
                }
                Action::Read => {
                    let reply = if self.reads < self.replies.len() {
                        self.replies[self.reads]
                    } else {
                        Err(Error::Io)
                    };
                    self.reads += 1;
                    match reply {
                        Ok(frame) => Event::Frame(frame),
                        Err(e) => Event::Failed(e),
                    }
                }
                Action::Emit(sample) => {
                    self.samples.push(sample);
                    if self.stop_at == Some(self.samples.len()) {
                        Event::Stop
                    } else {
                        Event::Continue
                    }
                }
                Action::Sleep(millis) => {
                    self.sleeps.push(millis);
                    Event::Completed
                }
                closing => return closing,
            };
            action = backend.resume(event);
        }
        panic!("the exchange did not end");
    }
}

fn text(bytes: &[u8]) -> Vec<u8> {
    let mut frame = vec![0u8; 32];
    frame[..bytes.len()].copy_from_slice(bytes);
    frame
}

fn reply(bytes: &[u8]) -> Result<[u8; 32], Error> {
    let mut frame = [0u8; 32];
    frame[..bytes.len()].copy_from_slice(bytes);
    Ok(frame)
}

fn reading(index: u16, value: u16) -> [u8; 32] {
    let mut frame = [0u8; 32];
    frame[0] = b':';
    frame[2] = 2;
    frame[4..6].copy_from_slice(&index.to_le_bytes());
    frame[6..8].copy_from_slice(&value.to_le_bytes());
    frame[10] = b'\r';
    frame
}

fn sentinel() -> [u8; 32] {
    let mut frame = [0u8; 32];
    frame[0] = b':';
    frame[10] = b'\r';
    frame
}

fn params() -> SweepParams {
    SweepParams {
        noise_filter: 600,
        start_freq: 1_000_000,
        step_freq: 250_000,
        step_count: 2,
        step_millis: 10,
    }
}

fn opening(sweep: &[u8]) -> Vec<Vec<u8>> {
    vec![
        text(b":942\r"),
        text(b":32000000600\r"),
        text(b":10000000000\r"),
        text(b":11001000000\r"),
        text(b":13000250000\r"),
        text(b":14000000002\r"),
        text(b":15000000010\r"),
        text(sweep),
    ]
}

#[test]
fn oneshot_sweep_runs_its_fixed_sequence() {
    let mut bench = Bench::new(vec![
        Ok(reading(0, 300)),
        Ok(reading(1, 310)),
        Ok(reading(2, 320)),
        Ok(sentinel()),
    ]);
    let mut backend = FoxDeltaAnalyzer::new();
    let first = backend.start_sweep(false, params());
    let end = bench.run(&mut backend, first);
    assert_eq!(end, Action::Done);
    let mut expected = opening(b":03\r");
    expected.extend(vec![text(b":\r"); 4]);
    expected.push(text(b":02\r"));
    expected.push(text(b":945\r"));
    assert_eq!(bench.writes, expected);
    assert_eq!(
        bench.samples,
        vec![
            Sample { index: 0, freq: 1_000_000, value: 300 },
            Sample { index: 1, freq: 1_250_000, value: 310 },
            Sample { index: 2, freq: 1_500_000, value: 320 },
        ]
    );
    assert_eq!(bench.sleeps, vec![5, 5, 5]);
    assert_eq!(bench.reads, 4);
    assert_eq!(backend.phase, Phase::Idle);
}

#[test]
fn continuous_sweep_sends_sweep_enable() {
    let mut bench = Bench::new(vec![Ok(sentinel())]);
    let mut backend = FoxDeltaAnalyzer::new();
    let first = backend.start_sweep(true, params());
    assert_eq!(bench.run(&mut backend, first), Action::Done);
    assert_eq!(bench.writes[..8], opening(b":01\r")[..]);
}

#[test]
fn start_continuous_is_a_continuous_sweep() {
    let mut bench = Bench::new(vec![Ok(sentinel())]);
    let mut backend = FoxDeltaAnalyzer::new();
    let first = start_continuous(&mut backend, params());
    assert_eq!(bench.run(&mut backend, first), Action::Done);
    assert_eq!(bench.writes[7], text(b":01\r"));
}

#[test]
fn parameters_precede_the_sweep_command() {
    let mut bench = Bench::new(vec![Ok(sentinel())]);
    let mut backend = FoxDeltaAnalyzer::new();
    let first = backend.start_sweep(false, params());
    bench.run(&mut backend, first);
    let at = |frame: &[u8]| bench.writes.iter().position(|w| *w == text(frame)).unwrap();
    let order = [
        at(b":32000000600\r"),
        at(b":10000000000\r"),
        at(b":11001000000\r"),
        at(b":13000250000\r"),
        at(b":14000000002\r"),
        at(b":15000000010\r"),
        at(b":03\r"),
    ];
    assert_eq!(order, [1, 2, 3, 4, 5, 6, 7]);
}

#[test]
fn unfit_parameter_stops_the_opening_without_a_write() {
    let mut bench = Bench::new(vec![Ok(sentinel())]);
    let mut backend = FoxDeltaAnalyzer::new();
    let first = backend.start_sweep(
        false,
        SweepParams { step_freq: 1_000_000_000, ..params() },
    );
    assert_eq!(bench.run(&mut backend, first), Action::Fail(Error::OutOfRange));
    assert_eq!(bench.writes, opening(b":03\r")[..4].to_vec());
    assert_eq!(bench.reads, 0);
    assert_eq!(backend.phase, Phase::Idle);
}

#[test]
fn unfit_noise_filter_is_found_after_the_led_command() {
    let mut bench = Bench::new(vec![]);
    let mut backend = FoxDeltaAnalyzer::new();
    let first = backend.start_sweep(
        true,
        SweepParams { noise_filter: -100_000_000, ..params() },
    );
    assert_eq!(bench.run(&mut backend, first), Action::Fail(Error::OutOfRange));
    assert_eq!(bench.writes, vec![text(b":942\r")]);
}

#[test]
fn negative_step_frequency_is_swept_downwards() {
    let mut bench = Bench::new(vec![Ok(reading(3, 9)), Ok(sentinel())]);
    let mut backend = FoxDeltaAnalyzer::new();
    let first = backend.start_sweep(
        false,
        SweepParams { step_freq: -1000, ..params() },
    );
    assert_eq!(bench.run(&mut backend, first), Action::Done);
    assert_eq!(bench.writes[4], text(b":13-00001000\r"));
    assert_eq!(bench.samples, vec![Sample { index: 3, freq: 997_000, value: 9 }]);
}

#[test]
fn frequency_does_not_overflow() {
    let wide = SweepParams {
        noise_filter: 0,
        start_freq: 999_999_999,
        step_freq: 999_999_999,
        step_count: 65_535,
        step_millis: 0,
    };
    let mut bench = Bench::new(vec![Ok(reading(65_535, 65_535)), Ok(sentinel())]);
    let mut backend = FoxDeltaAnalyzer::new();
    let first = backend.start_sweep(false, wide);
    assert_eq!(bench.run(&mut backend, first), Action::Done);
    assert_eq!(
        bench.samples,
        vec![Sample { index: 65_535, freq: 999_999_999 + 999_999_999 * 65_535, value: 65_535 }]
    );
    assert_eq!(bench.sleeps, vec![0]);
}

#[test]
fn settle_delay_is_half_the_step_time() {
    for (step_millis, delay) in [(0, 0u64), (1, 0), (2, 1), (11, 5), (999_999_999, 499_999_999)] {
        let mut bench = Bench::new(vec![Ok(reading(0, 1)), Ok(sentinel())]);
        let mut backend = FoxDeltaAnalyzer::new();
        let first = backend.start_sweep(false, SweepParams { step_millis, ..params() });
        assert_eq!(bench.run(&mut backend, first), Action::Done);
        assert_eq!(bench.sleeps, vec![delay]);
    }
}

#[test]
fn negative_step_time_asks_for_no_delay() {
    let mut bench = Bench::new(vec![Ok(reading(0, 1)), Ok(sentinel())]);
    let mut backend = FoxDeltaAnalyzer::new();
    let first = backend.start_sweep(false, SweepParams { step_millis: -10, ..params() });
    assert_eq!(bench.run(&mut backend, first), Action::Done);
    assert_eq!(bench.writes[6], text(b":15-00000010\r"));
    assert_eq!(bench.sleeps, vec![0]);
}

#[test]
fn stop_switches_the_sweep_off_and_drains() {
    let mut bench = Bench::new(vec![
        Ok(reading(0, 300)),
        Ok(reading(1, 310)),
        Ok(reading(2, 320)),
        Ok(sentinel()),
    ]);
    bench.stop_at = Some(2);
    let mut backend = FoxDeltaAnalyzer::new();
    let first = backend.start_sweep(true, params());
    assert_eq!(bench.run(&mut backend, first), Action::Done);
    let mut expected = opening(b":01\r");
    expected.push(text(b":\r"));
    expected.push(text(b":\r"));
    expected.push(text(b":02\r"));
    expected.push(text(b":\r"));
    expected.push(text(b":\r"));
    expected.push(text(b":02\r"));
    expected.push(text(b":945\r"));
    assert_eq!(bench.writes, expected);
    assert_eq!(bench.reads, 4);
    assert_eq!(bench.samples.len(), 3);
    assert_eq!(bench.sleeps, vec![5, 5, 5]);
}

#[test]
fn empty_frame_ends_the_sweep_at_once() {
    let mut bench = Bench::new(vec![Ok(sentinel()), Ok(reading(0, 1))]);
    let mut backend = FoxDeltaAnalyzer::new();
    let first = backend.start_sweep(false, params());
    assert_eq!(bench.run(&mut backend, first), Action::Done);
    assert!(bench.samples.is_empty());
    assert!(bench.sleeps.is_empty());
    assert_eq!(bench.reads, 1);
    assert_eq!(bench.writes[8..], [text(b":\r"), text(b":02\r"), text(b":945\r")]);
}

#[test]
fn malformed_frame_aborts_after_the_continuation() {
    let mut broken = reading(0, 1);
    broken[0] = b'!';
    let mut bench = Bench::new(vec![Ok(reading(0, 1)), Ok(broken), Ok(sentinel())]);
    let mut backend = FoxDeltaAnalyzer::new();
    let first = backend.start_sweep(false, params());
    assert_eq!(bench.run(&mut backend, first), Action::Fail(Error::InvalidResponse));
    assert_eq!(bench.samples.len(), 1);
    assert_eq!(bench.reads, 2);
    assert_eq!(bench.writes.len(), 10);
    assert_eq!(bench.writes[9], text(b":\r"));
    assert_eq!(backend.phase, Phase::Idle);
}

#[test]
fn frame_with_an_index_and_no_reading_is_invalid() {
    let mut lone = reading(4, 0);
    lone[2] = 1;
    let mut bench = Bench::new(vec![Ok(lone)]);
    let mut backend = FoxDeltaAnalyzer::new();
    let first = backend.start_sweep(false, params());
    assert_eq!(bench.run(&mut backend, first), Action::Fail(Error::InvalidResponse));
    assert!(bench.samples.is_empty());
}

#[test]
fn failed_read_aborts_the_sweep() {
    let mut bench = Bench::new(vec![Ok(reading(0, 1)), Err(Error::LibUsb)]);
    let mut backend = FoxDeltaAnalyzer::new();
    let first = backend.start_sweep(false, params());
    assert_eq!(bench.run(&mut backend, first), Action::Fail(Error::LibUsb));
    assert_eq!(bench.samples.len(), 1);
    assert_eq!(bench.writes.len(), 9);
}

#[test]
fn failed_write_aborts_the_opening() {
    let mut bench = Bench::new(vec![Ok(sentinel())]);
    bench.fail_write = Some(2);
    let mut backend = FoxDeltaAnalyzer::new();
    let first = backend.start_sweep(false, params());
    assert_eq!(bench.run(&mut backend, first), Action::Fail(Error::Io));
    assert_eq!(bench.writes, opening(b":03\r")[..3].to_vec());
    assert_eq!(bench.reads, 0);
}

#[test]
fn set_params_pushes_the_six_parameters() {
    let mut bench = Bench::new(vec![]);
    let mut backend = FoxDeltaAnalyzer::new();
    let first = backend.set_params(params());
    assert_eq!(bench.run(&mut backend, first), Action::Done);
    assert_eq!(bench.writes, opening(b":03\r")[1..7].to_vec());
    assert_eq!(bench.reads, 0);
}

#[test]
fn set_params_refuses_what_does_not_fit() {
    let mut bench = Bench::new(vec![]);
    let mut backend = FoxDeltaAnalyzer::new();
    let first = backend.set_params(SweepParams { step_millis: i32::MAX, ..params() });
    assert_eq!(bench.run(&mut backend, first), Action::Fail(Error::OutOfRange));
    assert_eq!(bench.writes, opening(b":03\r")[1..6].to_vec());
}

#[test]
fn send_cmd_writes_one_frame() {
    let mut bench = Bench::new(vec![]);
    let mut backend = FoxDeltaAnalyzer::new();
    let first = backend.send_cmd(CommandOp::SweepDisable);
    assert_eq!(bench.run(&mut backend, first), Action::Done);
    assert_eq!(bench.writes, vec![text(b":02\r")]);
    assert_eq!(bench.reads, 0);
}

#[test]
fn led_commands_wait_for_no_reply() {
    let mut bench = Bench::new(vec![]);
    let mut backend = FoxDeltaAnalyzer::new();
    let first = backend.set_led_blink(LedState::Blink);
    assert_eq!(bench.run(&mut backend, first), Action::Done);
    let first = backend.set_led_blink(LedState::Off);
    assert_eq!(bench.run(&mut backend, first), Action::Done);
    assert_eq!(bench.writes, vec![text(b":942\r"), text(b":945\r")]);
    assert_eq!(bench.reads, 0);
}

#[test]
fn ack_is_given_up_after_three_attempts() {
    let mut bench = Bench::new(vec![
        reply(b":NAK \r"),
        reply(b""),
        reply(b" :ACK "),
        reply(b":ACK 96\r"),
    ]);
    let mut backend = FoxDeltaAnalyzer::new();
    let first = backend.send_ack(CommandOp::Exit);
    assert_eq!(bench.run(&mut backend, first), Action::Fail(Error::InvalidResponse));
    assert_eq!(bench.writes, vec![text(b":96\r"); 3]);
    assert_eq!(bench.reads, 3);
    assert_eq!(backend.phase, Phase::Idle);
}

#[test]
fn ack_at_the_first_attempt_ends_the_handshake() {
    let mut bench = Bench::new(vec![reply(b":ACK 96\r")]);
    let mut backend = FoxDeltaAnalyzer::new();
    let first = backend.send_ack(CommandOp::Exit);
    assert_eq!(bench.run(&mut backend, first), Action::Done);
    assert_eq!(bench.writes, vec![text(b":96\r")]);
    assert_eq!(bench.reads, 1);
}

#[test]
fn ack_at_the_third_attempt_still_counts() {
    let mut bench = Bench::new(vec![reply(b"?"), reply(b"?"), reply(b":ACK ")]);
    let mut backend = FoxDeltaAnalyzer::new();
    let first = backend.send_ack(CommandOp::SweepDisable);
    assert_eq!(bench.run(&mut backend, first), Action::Done);
    assert_eq!(bench.writes, vec![text(b":02\r"); 3]);
    assert_eq!(bench.reads, 3);
}

#[test]
fn ack_handshake_passes_a_transport_failure_on() {
    let mut bench = Bench::new(vec![reply(b"?"), Err(Error::Io)]);
    let mut backend = FoxDeltaAnalyzer::new();
    let first = backend.send_ack(CommandOp::Exit);
    assert_eq!(bench.run(&mut backend, first), Action::Fail(Error::Io));
    assert_eq!(bench.writes.len(), 2);
}

#[test]
fn version_exchange_writes_the_request_and_reads_the_text() {
    let mut bench = Bench::new(vec![reply(b":99FoxDelta SWR 2.1\r")]);
    let mut backend = FoxDeltaAnalyzer::new();
    let first = backend.version();
    assert_eq!(first, Action::Write(b":99\r".to_vec()));
    assert_eq!(
        bench.run(&mut backend, first),
        Action::Version("FoxDelta SWR 2.1".to_string())
    );
    assert_eq!(bench.writes, vec![b":99\r".to_vec()]);
    assert_eq!(bench.reads, 1);
}

#[test]
fn version_exchange_reports_a_bad_reply() {
    let mut bench = Bench::new(vec![reply(b":98nope\r")]);
    let mut backend = FoxDeltaAnalyzer::new();
    let first = backend.version();
    assert_eq!(bench.run(&mut backend, first), Action::Fail(Error::InvalidResponse));
    let mut bench = Bench::new(vec![reply(b":99\xfe\r")]);
    let first = backend.version();
    assert_eq!(bench.run(&mut backend, first), Action::Fail(Error::Encoding));
}

#[test]
fn outcome_without_an_exchange_is_an_invalid_response() {
    let mut backend = FoxDeltaAnalyzer::new();
    assert_eq!(backend.resume(Event::Completed), Action::Fail(Error::InvalidResponse));
    assert_eq!(backend.resume(Event::Failed(Error::Io)), Action::Fail(Error::InvalidResponse));
    assert_eq!(backend.resume(Event::Stop), Action::Fail(Error::InvalidResponse));
}

#[test]
fn outcome_that_answers_nothing_ends_the_exchange() {
    let mut backend = FoxDeltaAnalyzer::new();
    backend.start_sweep(false, params());
    assert_eq!(backend.resume(Event::Continue), Action::Fail(Error::InvalidResponse));
    assert_eq!(backend.phase, Phase::Idle);
    backend.version();
    assert_eq!(backend.resume(Event::Frame(sentinel())), Action::Fail(Error::InvalidResponse));
    assert_eq!(backend.phase, Phase::Idle);
}

#[test]
fn opening_an_exchange_abandons_the_one_in_progress() {
    let mut bench = Bench::new(vec![reply(b":99ok\r")]);
    let mut backend = FoxDeltaAnalyzer::new();
    backend.start_sweep(false, params());
    backend.resume(Event::Completed);
    let first = backend.version();
    assert_eq!(bench.run(&mut backend, first), Action::Version("ok".to_string()));
}

#[test]
fn interpret_tells_the_three_kinds_of_frame() {
    let p = params();
    assert_eq!(interpret(&p, sentinel()), Verdict::Complete);
    assert_eq!(interpret(&p, [0u8; 32]), Verdict::Invalid);
    assert_eq!(
        interpret(&p, reading(2, 77)),
        Verdict::Reading(Sample { index: 2, freq: 1_500_000, value: 77 })
    );
    let mut lone = reading(2, 77);
    lone[2] = 1;
    assert_eq!(interpret(&p, lone), Verdict::Invalid);
}

#[test]
fn closing_actions_are_told_apart() {
    assert!(Action::Done.closes());
    assert!(Action::Version(String::new()).closes());
    assert!(Action::Fail(Error::Io).closes());
    assert!(!Action::Read.closes());
    assert!(!Action::Write(vec![]).closes());
    assert!(!Action::Sleep(0).closes());
    assert!(!Action::Emit(Sample { index: 0, freq: 0, value: 0 }).closes());
}

#[test]
fn hardware_backend_is_probed_with_a_version_request() {
    let (mut backend, first) = get_analyzer(false);
    assert!(matches!(backend, Backend::Hardware(_)));
    assert_eq!(first, Action::Write(b":99\r".to_vec()));
    let mut bench = Bench::new(vec![reply(b":99v\r")]);
    assert_eq!(bench.run(&mut backend, first), Action::Version("v".to_string()));
}

#[test]
fn chosen_backend_runs_a_hardware_sweep() {
    let (mut backend, _) = get_analyzer(false);
    let mut bench = Bench::new(vec![Ok(reading(0, 5)), Ok(sentinel())]);
    let first = backend.start_sweep(false, params());
    assert_eq!(bench.run(&mut backend, first), Action::Done);
    assert_eq!(bench.samples, vec![Sample { index: 0, freq: 1_000_000, value: 5 }]);
    let first = backend.set_led_blink(LedState::Off);
    assert_eq!(bench.run(&mut backend, first), Action::Done);
}
