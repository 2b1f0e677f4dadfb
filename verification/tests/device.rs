use swr_analyzer::backend::Backend;
use swr_analyzer::bridge::{AsyncSWRAnalyzer, State};
use swr_analyzer::device::Device;
use swr_analyzer::error::Error;
use swr_analyzer::exchange::{Action, Sample, SweepParams};
use swr_analyzer::stream::ScanStream;
use swr_analyzer::transport::{SerialDevice, Unplugged};

/// A transport that answers the reads with the frames it was given, in order,
/// and keeps what is written to it.
struct Tape {
    replies: Vec<[u8; 32]>,
    sent: Vec<Vec<u8>>,
    reads: usize,
}

impl SerialDevice for Tape {
    fn send(&mut self, bytes: &[u8]) -> Result<(), Error> {
        self.sent.push(bytes.to_vec());
        Ok(())
    }

    fn receive(&mut self) -> Result<[u8; 32], Error> {
        self.reads += 1;
        self.replies.get(self.reads - 1).copied().ok_or(Error::Io)
    }
}

fn tape(replies: &[&[u8]]) -> Tape {
    let replies = replies
        .iter()
        .map(|text| {
            let mut frame = [0u8; 32];
            frame[..text.len()].copy_from_slice(text);
            frame
        })
        .collect();
    Tape { replies, sent: Vec::new(), reads: 0 }
}

fn reading(index: u16, value: u16) -> Vec<u8> {
    let mut frame = vec![0u8; 11];
    frame[0] = b':';
    frame[2] = 2;
    frame[4..6].copy_from_slice(&index.to_le_bytes());
    frame[6..8].copy_from_slice(&value.to_le_bytes());
    frame[10] = b'\r';
    frame
}

const SENTINEL: &[u8] = b":\0\0\0\0\0\0\0\0\0\r";

fn params() -> SweepParams {
    SweepParams {
        noise_filter: 600,
        start_freq: 1_000_000,
        step_freq: 1_000_000,
        step_count: 10,
        step_millis: 10,
    }
}

fn run<L: SerialDevice>(
    bridge: &mut AsyncSWRAnalyzer<Device<L>>,
    continuous: bool,
    cancel_after: Option<usize>,
) -> (Action, Vec<Sample>, ScanStream) {
    let (mut job, stream) = bridge.start(continuous, params()).ok().unwrap();
    let mut samples = Vec::new();
    let mut action = job.begin();
    for _ in 0..1000 {
        while let Ok(sample) = stream.samples().try_recv() {
            samples.push(sample);
        }
        if cancel_after.is_some_and(|n| samples.len() + 1 >= n) {
            bridge.cancel().unwrap();
        }
        match action {
            Action::Sleep(_) => action = job.proceed(),
            _ => break,
        }
    }
    let mut stream = stream;
    drop(job.sink);
    while let Ok(sample) = stream.samples().try_recv() {
        samples.push(sample);
    }
    bridge.complete(&mut stream, Some(job.device)).unwrap();
    (action, samples, stream)
}

#[test]
fn simulated_device_opens_without_a_transport() {
    let (device, version) = Device::open(true, Unplugged).ok().unwrap();
    assert_eq!(version, "Dummy device");
    assert!(matches!(device.backend, Backend::Simulated(_)));
    let (_, left) = device.close();
    assert_eq!(left, Ok(()));
}

#[test]
fn hardware_device_opens_with_its_version() {
    let (device, version) = Device::open(false, tape(&[b":99FoxDelta\r"])).ok().unwrap();
    assert_eq!(version, "FoxDelta");
    assert!(matches!(device.backend, Backend::Hardware(_)));
    assert_eq!(device.line.sent, vec![b":99\r".to_vec()]);
    assert_eq!(device.line.reads, 1);
}

#[test]
fn hardware_device_does_not_open_without_its_version() {
    assert_eq!(Device::open(false, tape(&[b":98x\r"])).err(), Some(Error::InvalidResponse));
    assert_eq!(Device::open(false, tape(&[])).err(), Some(Error::Io));
    assert_eq!(Device::open(false, Unplugged).err(), Some(Error::DeviceNotFound));
    assert_eq!(Device::open(false, tape(&[b":99\xff\r"])).err(), Some(Error::Encoding));
}

#[test]
fn hardware_device_is_told_of_the_exit() {
    let (device, _) = Device::open(false, tape(&[b":99v\r", b"?", b":ACK 96\r"])).ok().unwrap();
    let (line, left) = device.close();
    assert_eq!(left, Ok(()));
    assert_eq!(line.sent.len(), 3);
    assert_eq!(&line.sent[1][..4], b":96\r");
    assert_eq!(&line.sent[2][..4], b":96\r");
    assert_eq!(line.reads, 3);
}

#[test]
fn exit_without_acknowledgement_is_reported() {
    let (device, _) = Device::open(false, tape(&[b":99v\r", b"?", b"?", b"?", b":ACK "]))
        .ok()
        .unwrap();
    let (line, left) = device.close();
    assert_eq!(left, Err(Error::InvalidResponse));
    assert_eq!(line.sent.len(), 4);
    assert_eq!(line.reads, 4);
    let (device, _) = Device::open(false, tape(&[b":99v\r"])).ok().unwrap();
    assert_eq!(device.close().1, Err(Error::Io));
}

#[test]
fn attach_probes_and_holds_the_device() {
    let mut bridge = AsyncSWRAnalyzer::disconnected();
    assert_eq!(bridge.attach(true, Unplugged), Ok("Dummy device".to_string()));
    assert_eq!(bridge.state(), State::Idle);
    let mut bridge = AsyncSWRAnalyzer::disconnected();
    assert_eq!(bridge.attach(false, tape(&[b":99v3\r"])), Ok("v3".to_string()));
    assert_eq!(bridge.state(), State::Idle);
}

#[test]
fn attach_with_a_failed_probe_stays_disconnected() {
    let mut unplugged = AsyncSWRAnalyzer::disconnected();
    assert_eq!(unplugged.attach(false, Unplugged), Err(Error::DeviceNotFound));
    assert_eq!(unplugged.state(), State::Disconnected);
    let mut bridge = AsyncSWRAnalyzer::disconnected();
    assert_eq!(bridge.attach(false, tape(&[])), Err(Error::Io));
    assert_eq!(bridge.state(), State::Disconnected);
    assert_eq!(bridge.attach(false, tape(&[b"junk"])), Err(Error::InvalidResponse));
    assert_eq!(bridge.state(), State::Disconnected);
    assert_eq!(bridge.attach(true, tape(&[])), Ok("Dummy device".to_string()));
    assert_eq!(bridge.state(), State::Idle);
}

#[test]
fn attach_is_refused_while_a_device_is_held() {
    let mut bridge = AsyncSWRAnalyzer::disconnected();
    bridge.attach(true, tape(&[])).unwrap();
    let spare = tape(&[b":99v\r"]);
    assert_eq!(bridge.attach(false, spare), Err(Error::Busy));
    assert_eq!(bridge.state(), State::Idle);
    let (_, mut stream) = bridge.start(false, params()).ok().unwrap();
    assert_eq!(bridge.attach(true, tape(&[])), Err(Error::Busy));
    assert_eq!(bridge.state(), State::Busy);
    assert_eq!(bridge.complete(&mut stream, None), Err(Error::Thread));
    assert_eq!(bridge.attach(true, tape(&[])), Err(Error::Previous));
    assert_eq!(bridge.state(), State::Error);
}

#[test]
fn detach_takes_leave_and_hands_out_the_transport() {
    let mut bridge = AsyncSWRAnalyzer::disconnected();
    bridge.attach(false, tape(&[b":99v\r", b":ACK 96\r"])).unwrap();
    let (line, left) = bridge.detach().ok().unwrap();
    assert_eq!(left, Ok(()));
    assert_eq!(&line.sent[1][..4], b":96\r");
    assert_eq!(bridge.state(), State::Disconnected);
    assert_eq!(bridge.detach().err(), Some(Error::Busy));
}

#[test]
fn detach_is_refused_while_a_sweep_runs() {
    let mut bridge = AsyncSWRAnalyzer::disconnected();
    bridge.attach(true, Unplugged).unwrap();
    let (job, mut stream) = bridge.start(true, params()).ok().unwrap();
    assert_eq!(bridge.detach().err(), Some(Error::Busy));
    assert_eq!(bridge.state(), State::Busy);
    bridge.complete(&mut stream, Some(job.device)).unwrap();
    assert!(bridge.detach().is_ok());
}

#[test]
fn simulated_oneshot_from_attach_to_idle() {
    let mut bridge = AsyncSWRAnalyzer::disconnected();
    bridge.attach(true, Unplugged).unwrap();
    let (end, samples, stream) = run(&mut bridge, false, None);
    assert_eq!(end, Action::Done);
    assert_eq!(samples.len(), 11);
    for (i, sample) in samples.iter().enumerate() {
        assert_eq!(sample.index, i as i32);
        assert_eq!(sample.freq, 1_000_000 + 1_000_000 * i as i64);
    }
    assert_eq!(bridge.state(), State::Idle);
    assert!(stream.is_terminated());
    stream.discard();
}

#[test]
fn simulated_continuous_sweep_from_attach_to_cancel() {
    let mut bridge = AsyncSWRAnalyzer::disconnected();
    bridge.attach(true, Unplugged).unwrap();
    let (end, samples, stream) = run(&mut bridge, true, Some(3));
    assert_eq!(end, Action::Done);
    assert_eq!(samples.iter().map(|s| s.index).collect::<Vec<i32>>(), vec![0, 1, 2]);
    assert_eq!(bridge.state(), State::Idle);
    assert!(stream.samples().try_recv().is_err());
    stream.discard();
    let (end, samples, _) = run(&mut bridge, false, None);
    assert_eq!(end, Action::Done);
    assert_eq!(samples.len(), 11);
}

#[test]
fn hardware_sweep_from_attach_to_idle() {
    let version: &[u8] = b":99v\r";
    let first = reading(0, 40);
    let second = reading(1, 41);
    let mut bridge = AsyncSWRAnalyzer::disconnected();
    bridge.attach(false, tape(&[version, &first, &second, SENTINEL])).unwrap();
    let (end, samples, _) = run(&mut bridge, false, None);
    assert_eq!(end, Action::Done);
    assert_eq!(
        samples,
        vec![
            Sample { index: 0, freq: 1_000_000, value: 40 },
            Sample { index: 1, freq: 2_000_000, value: 41 },
        ]
    );
    let (line, _) = bridge.detach().ok().unwrap();
    let frames: Vec<&[u8]> = line.sent.iter().map(|w| &w[..4]).collect();
    assert_eq!(
        frames[..9],
        [
            &b":99\r"[..],
            b":942",
            b":320",
            b":100",
            b":110",
            b":130",
            b":140",
            b":150",
            b":03\r",
        ]
    );
}

#[test]
fn hardware_sweep_that_fails_gives_the_device_back() {
    let mut bridge = AsyncSWRAnalyzer::disconnected();
    bridge.attach(false, tape(&[b":99v\r", b"garbage"])).unwrap();
    let (end, samples, _) = run(&mut bridge, false, None);
    assert_eq!(end, Action::Fail(Error::InvalidResponse));
    assert!(samples.is_empty());
    assert_eq!(bridge.state(), State::Idle);
}
