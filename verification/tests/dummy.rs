use swr_analyzer::analyzer::SWRAnalyzer;
use swr_analyzer::backend::{get_analyzer, Backend};
use swr_analyzer::commands::LedState;
use swr_analyzer::dummy::{Dummy, DummyPhase};
use swr_analyzer::error::Error;
use swr_analyzer::exchange::{Action, Event, Sample, SweepParams};

struct Record {
    samples: Vec<Sample>,
    sleeps: Vec<u64>,
    end: Action,
}

fn consume<A: SWRAnalyzer>(backend: &mut A, first: Action, stop_at: Option<usize>) -> Record {
    let mut record = Record { samples: Vec::new(), sleeps: Vec::new(), end: Action::Read };
    let mut action = first;
    for _ in 0..100_000 {
        let event = match action {
            Action::Emit(sample) => {
                record.samples.push(sample);
                if stop_at == Some(record.samples.len()) {
                    Event::Stop
                } else {
                    Event::Continue
                }
            }
            Action::Sleep(millis) => {
                record.sleeps.push(millis);
                Event::Completed
            }
            Action::Write(_) | Action::Read => panic!("the simulated device has no transport"),
            closing => {
                record.end = closing;
                return record;
            }
        };
        action = backend.resume(event);
    }
    panic!("the exchange did not end");
}

fn ten_steps() -> SweepParams {
    SweepParams {
        noise_filter: 600,
        start_freq: 1_000_000,
        step_freq: 1_000_000,
        step_count: 10,
        step_millis: 10,
    }
}

#[test]
fn simulated_oneshot_gives_eleven_samples() {
    let mut backend = Dummy::new();
    let first = backend.start_sweep(false, ten_steps());
    let record = consume(&mut backend, first, None);
    assert_eq!(record.end, Action::Done);
    assert_eq!(record.samples.len(), 11);
    for (i, sample) in record.samples.iter().enumerate() {
        assert_eq!(sample.index, i as i32);
        assert_eq!(sample.freq, 1_000_000 + 1_000_000 * i as i64);
    }
    assert_eq!(record.sleeps, vec![10; 11]);
    assert_eq!(backend.phase, DummyPhase::Idle);
}

#[test]
fn simulated_readings_lie_one_offset_above_their_steps() {
    let mut backend = Dummy::new();
    let first = backend.start_sweep(false, ten_steps());
    let record = consume(&mut backend, first, None);
    let offset = record.samples[0].value;
    assert!((0..1000).contains(&offset));
    for sample in &record.samples {
        assert_eq!(sample.value, sample.index as i64 + offset);
    }
}

#[test]
fn simulated_continuous_sweep_ends_when_stopped() {
    let mut backend = Dummy::new();
    let first = backend.start_sweep(true, ten_steps());
    let record = consume(&mut backend, first, Some(3));
    assert_eq!(record.end, Action::Done);
    assert_eq!(record.samples.len(), 3);
    assert_eq!(record.sleeps.len(), 2);
    assert_eq!(backend.phase, DummyPhase::Idle);
    assert_eq!(backend.resume(Event::Continue), Action::Fail(Error::InvalidResponse));
}

#[test]
fn simulated_continuous_sweep_starts_over_after_each_pass() {
    let mut backend = Dummy::new();
    let first = backend.start_sweep(true, SweepParams { step_count: 2, ..ten_steps() });
    let record = consume(&mut backend, first, Some(8));
    let indices: Vec<i32> = record.samples.iter().map(|s| s.index).collect();
    assert_eq!(indices, vec![0, 1, 2, 0, 1, 2, 0, 1]);
    for pass in record.samples.chunks(3) {
        let offset = pass[0].value;
        assert!((0..1000).contains(&offset));
        for sample in pass {
            assert_eq!(sample.value, sample.index as i64 + offset);
        }
    }
}

#[test]
fn simulated_oneshot_can_be_stopped_early() {
    let mut backend = Dummy::new();
    let first = backend.start_sweep(false, ten_steps());
    let record = consume(&mut backend, first, Some(1));
    assert_eq!(record.end, Action::Done);
    assert_eq!(record.samples.len(), 1);
    assert!(record.sleeps.is_empty());
}

#[test]
fn simulated_sweep_of_one_step() {
    let mut backend = Dummy::new();
    let first = backend.start_sweep(false, SweepParams { step_count: 0, ..ten_steps() });
    let record = consume(&mut backend, first, None);
    assert_eq!(record.end, Action::Done);
    assert_eq!(record.samples.len(), 1);
    assert_eq!(record.samples[0].index, 0);
    assert_eq!(record.samples[0].freq, 1_000_000);
}

#[test]
fn simulated_sweep_without_steps_is_over_at_once() {
    let mut backend = Dummy::new();
    assert_eq!(
        backend.start_sweep(false, SweepParams { step_count: -1, ..ten_steps() }),
        Action::Done
    );
    assert_eq!(
        backend.start_sweep(true, SweepParams { step_count: -1, ..ten_steps() }),
        Action::Done
    );
    assert_eq!(backend.phase, DummyPhase::Idle);
}

#[test]
fn simulated_pass_with_a_given_offset() {
    let mut backend = Dummy::new();
    let p = SweepParams { step_count: 1, step_freq: -7, ..ten_steps() };
    assert_eq!(
        backend.start_sweep_with(false, p, 42),
        Action::Emit(Sample { index: 0, freq: 1_000_000, value: 42 })
    );
    assert!(!backend.opens_pass_on(&Event::Continue));
    assert_eq!(backend.resume_with(Event::Continue, 7), Action::Sleep(10));
    assert!(!backend.opens_pass_on(&Event::Completed));
    assert_eq!(
        backend.resume_with(Event::Completed, 7),
        Action::Emit(Sample { index: 1, freq: 999_993, value: 43 })
    );
    assert_eq!(backend.resume_with(Event::Continue, 7), Action::Sleep(10));
    assert!(!backend.opens_pass_on(&Event::Completed));
    assert_eq!(backend.resume_with(Event::Completed, 7), Action::Done);
}

#[test]
fn simulated_new_pass_takes_the_offset_given() {
    let mut backend = Dummy::new();
    let p = SweepParams { step_count: 0, ..ten_steps() };
    backend.start_sweep_with(true, p, 1);
    backend.resume_with(Event::Continue, 2);
    assert!(backend.opens_pass_on(&Event::Completed));
    assert!(!backend.opens_pass_on(&Event::Stop));
    assert_eq!(
        backend.resume_with(Event::Completed, 999),
        Action::Emit(Sample { index: 0, freq: 1_000_000, value: 999 })
    );
}

#[test]
fn simulated_values_do_not_overflow() {
    let mut backend = Dummy::new();
    let p = SweepParams {
        noise_filter: 0,
        start_freq: i32::MAX,
        step_freq: i32::MAX,
        step_count: i32::MAX,
        step_millis: i32::MIN,
    };
    backend.start_sweep_with(false, p, 999);
    backend.phase = DummyPhase::Pausing { index: i32::MAX - 1, offset: 999 };
    let max = i32::MAX as i64;
    assert_eq!(
        backend.resume_with(Event::Completed, 0),
        Action::Emit(Sample { index: i32::MAX, freq: max + max * max, value: max + 999 })
    );
    assert_eq!(backend.resume_with(Event::Continue, 0), Action::Sleep(0));
    assert_eq!(backend.resume_with(Event::Completed, 0), Action::Done);
}

#[test]
fn simulated_version_needs_no_exchange() {
    let mut backend = Dummy::new();
    assert_eq!(backend.version(), Action::Version("Dummy device".to_string()));
    assert_eq!(backend.phase, DummyPhase::Idle);
}

#[test]
fn simulated_led_command_takes_a_second() {
    let mut backend = Dummy::new();
    let first = backend.set_led_blink(LedState::Blink);
    assert_eq!(first, Action::Sleep(1000));
    let record = consume(&mut backend, first, None);
    assert_eq!(record.end, Action::Done);
    assert_eq!(record.sleeps, vec![1000]);
}

#[test]
fn simulated_backend_rejects_what_answers_nothing() {
    let mut backend = Dummy::new();
    assert_eq!(backend.resume(Event::Completed), Action::Fail(Error::InvalidResponse));
    backend.start_sweep(false, ten_steps());
    assert_eq!(backend.resume(Event::Completed), Action::Fail(Error::InvalidResponse));
    assert_eq!(backend.phase, DummyPhase::Idle);
    backend.start_sweep(false, ten_steps());
    assert_eq!(backend.resume(Event::Failed(Error::Io)), Action::Fail(Error::InvalidResponse));
    backend.start_sweep(false, ten_steps());
    assert_eq!(backend.resume(Event::Frame([0u8; 32])), Action::Fail(Error::InvalidResponse));
}

#[test]
fn simulated_backend_is_probed_without_a_transport() {
    let (backend, first) = get_analyzer(true);
    assert!(matches!(backend, Backend::Simulated(_)));
    assert_eq!(first, Action::Version("Dummy device".to_string()));
}

#[test]
fn chosen_backend_runs_a_simulated_sweep() {
    let (mut backend, _) = get_analyzer(true);
    let first = backend.start_sweep(false, ten_steps());
    let record = consume(&mut backend, first, None);
    assert_eq!(record.end, Action::Done);
    assert_eq!(record.samples.len(), 11);
    let first = backend.set_led_blink(LedState::Off);
    assert_eq!(consume(&mut backend, first, None).sleeps, vec![1000]);
    assert_eq!(backend.version(), Action::Version("Dummy device".to_string()));
}
