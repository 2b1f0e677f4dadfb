//! A device as the bridge holds it: a backend together with the transport it
//! talks over, and what is done with the two at once.

use vstd::prelude::*;
use crate::analyzer::{reaches, SWRAnalyzer};
use crate::backend::{fresh_backend, get_analyzer, probe_verdict, probed, Backend};
use crate::bridge::{AsyncSWRAnalyzer, Job, State};
use crate::commands::CommandOp;
use crate::driver::advance;
use crate::dummy::dummy_version;
use crate::error::Error;
use crate::exchange::{Action, ActionView, Event, Sample, SweepParams};
use crate::foxdelta::FoxDeltaAnalyzer;
use crate::stream::SampleSink;
use crate::token::CancelToken;
use crate::transport::SerialDevice;

verus! {

/// A backend and its transport. The simulated backend asks nothing of its
/// transport, so any will do for it.
pub struct Device<L> {
    pub backend: Backend,
    pub line: L,
}

/// Whether a backend that was `from` can be `to` and ask for `last` after its
/// version was asked for and some outcomes of what it asked for were told
/// to it.
pub open spec fn probe_runs_to(from: Backend, to: Backend, last: ActionView) -> bool {
    exists|mid: Backend, asked: ActionView, events: Seq<Event>, samples: Seq<Sample>|
        from.version_opens(mid, asked) && #[trigger] reaches(
            mid,
            asked,
            events,
            to,
            last,
            samples,
        )
}

/// Whether a backend that was `from` can be `to` and ask for `last` after a
/// sweep was started on it and some outcomes of what it asked for were told
/// to it, with `samples` the samples it gave on the way, in their order.
pub open spec fn sweep_runs_to(
    from: Backend,
    continuous: bool,
    params: SweepParams,
    to: Backend,
    last: ActionView,
    samples: Seq<Sample>,
) -> bool {
    exists|mid: Backend, asked: ActionView, events: Seq<Event>|
        from.sweep_opens(continuous, params, mid, asked) && #[trigger] reaches(
            mid,
            asked,
            events,
            to,
            last,
            samples,
        )
}

/// Whether a backend that was `from` can be `to` and ask for `last` after it
/// was told `event` and then some outcomes of what it asked for, with
/// `samples` the samples it gave on the way, in their order.
pub open spec fn resumes_to(
    from: Backend,
    event: Event,
    to: Backend,
    last: ActionView,
    samples: Seq<Sample>,
) -> bool {
    exists|mid: Backend, asked: ActionView, events: Seq<Event>|
        from.resumes(event, mid, asked) && #[trigger] reaches(
            mid,
            asked,
            events,
            to,
            last,
            samples,
        )
}

/// Whether the hardware backend that was `from` can be `to` and ask for
/// `last` after the exit command was sent on it and some outcomes of what it
/// asked for were told to it.
pub open spec fn leave_runs_to(
    from: FoxDeltaAnalyzer,
    to: FoxDeltaAnalyzer,
    last: ActionView,
) -> bool {
    exists|events: Seq<Event>, samples: Seq<Sample>|
        #[trigger] reaches(
            from.spec_send_ack(CommandOp::Exit).0,
            from.spec_send_ack(CommandOp::Exit).1,
            events,
            to,
            last,
            samples,
        )
}

/// How taking leave went, given the action that ended it.
pub open spec fn leave_verdict(closing: ActionView) -> Result<(), Error> {
    match closing {
        ActionView::Fail(e) => Err(e),
        _ => Ok(()),
    }
}

impl<L: SerialDevice> Device<L> {
    /// A sink for exchanges that give no samples.
    fn unheard() -> (sink: SampleSink)
        ensures
            sink.offered() == Seq::<Sample>::empty(),
    {
        SampleSink::open(CancelToken::new()).0
    }

    /// Picks the backend and probes it over `line`: the device counts as
    /// there once it has given its version, which is handed out with it.
    /// Otherwise the error of the probe comes back, and `line` is let go.
    pub fn open(use_dummy: bool, line: L) -> (r: Result<(Device<L>, String), Error>)
        ensures
            exists|reached: Backend, closing: ActionView|
                {
                    &&& #[trigger] probe_runs_to(fresh_backend(use_dummy), reached, closing)
                    &&& match r {
                        Ok(opened) => opened.0.backend == reached && probe_verdict(closing) == Ok::<
                            Seq<char>,
                            Error,
                        >(opened.1@),
                        Err(e) => probe_verdict(closing) == Err::<Seq<char>, Error>(e),
                    }
                },
            use_dummy ==> (r matches Ok(opened) && opened.0.backend == fresh_backend(true)
                && opened.1@ == dummy_version()),
    {
        let (backend, probe) = get_analyzer(use_dummy);
        let mut device = Device { backend, line };
        let mut sink = Self::unheard();
        let closing = advance(&mut device.backend, &mut device.line, &mut sink, probe);
        proof {
            assert(probe_runs_to(fresh_backend(use_dummy), device.backend, closing@));
        }
        match probed(closing) {
            Ok(text) => Ok((device, text)),
            Err(e) => Err(e),
        }
    }

    /// Takes leave of the device: the hardware is sent the exit command, up
    /// to three times, until it acknowledges. Hands out the transport and
    /// how the leave went. The simulated device has nothing to be told.
    pub fn close(self) -> (r: (L, Result<(), Error>))
        ensures
            self.backend is Simulated ==> r.1 is Ok,
            self.backend matches Backend::Hardware(analyzer) ==> exists|
                reached: FoxDeltaAnalyzer,
                closing: ActionView,
            |
                {
                    &&& #[trigger] leave_runs_to(analyzer, reached, closing)
                    &&& r.1 == leave_verdict(closing)
                },
    {
        let Device { mut backend, mut line } = self;
        match backend {
            Backend::Hardware(mut analyzer) => {
                let ghost before = analyzer;
                let first = analyzer.send_ack(CommandOp::Exit);
                let ghost mid = analyzer;
                let ghost asked = first@;
                let mut sink = Self::unheard();
                let closing = advance(&mut analyzer, &mut line, &mut sink, first);
                proof {
                    let (events, samples) = choose|events: Seq<Event>, samples: Seq<Sample>|
                        reaches(mid, asked, events, analyzer, closing@, samples);
                    assert(reaches(
                        before.spec_send_ack(CommandOp::Exit).0,
                        before.spec_send_ack(CommandOp::Exit).1,
                        events,
                        analyzer,
                        closing@,
                        samples,
                    ));
                    assert(leave_runs_to(before, analyzer, closing@));
                }
                match closing {
                    Action::Fail(e) => (line, Err(e)),
                    _ => (line, Ok(())),
                }
            },
            Backend::Simulated(_) => (line, Ok(())),
        }
    }
}

impl<L: SerialDevice> Job<Device<L>> {
    /// Starts the sweep of this job and runs it up to its first wait, or to
    /// its end if it has no wait: the action that comes back is that wait, or
    /// what ended the sweep.
    pub fn begin(&mut self) -> (next: Action)
        ensures
            next@ is Sleep || next@.closes(),
            exists|samples: Seq<Sample>|
                {
                    &&& #[trigger] sweep_runs_to(
                        old(self).device.backend,
                        old(self).continuous,
                        old(self).params,
                        final(self).device.backend,
                        next@,
                        samples,
                    )
                    &&& final(self).sink.offered() == old(self).sink.offered() + samples
                },
            final(self).continuous == old(self).continuous,
            final(self).params == old(self).params,
            final(self).sink.token() == old(self).sink.token(),
    {
        let first = self.device.backend.start_sweep(self.continuous, self.params);
        let ghost mid = self.device.backend;
        let ghost asked = first@;
        let next = advance(&mut self.device.backend, &mut self.device.line, &mut self.sink, first);
        proof {
            let (events, samples) = choose|events: Seq<Event>, samples: Seq<Sample>|
                #![trigger reaches(mid, asked, events, self.device.backend, next@, samples)]
                reaches(mid, asked, events, self.device.backend, next@, samples)
                    && self.sink.offered() == old(self).sink.offered() + samples;
            assert(sweep_runs_to(
                old(self).device.backend,
                old(self).continuous,
                old(self).params,
                self.device.backend,
                next@,
                samples,
            ));
        }
        next
    }

    /// Goes on with the sweep after a wait, up to its next wait or to its
    /// end.
    pub fn proceed(&mut self) -> (next: Action)
        ensures
            next@ is Sleep || next@.closes(),
            exists|samples: Seq<Sample>|
                {
                    &&& #[trigger] resumes_to(
                        old(self).device.backend,
                        Event::Completed,
                        final(self).device.backend,
                        next@,
                        samples,
                    )
                    &&& final(self).sink.offered() == old(self).sink.offered() + samples
                },
            final(self).continuous == old(self).continuous,
            final(self).params == old(self).params,
            final(self).sink.token() == old(self).sink.token(),
    {
        let first = self.device.backend.resume(Event::Completed);
        let ghost mid = self.device.backend;
        let ghost asked = first@;
        let next = advance(&mut self.device.backend, &mut self.device.line, &mut self.sink, first);
        proof {
            let (events, samples) = choose|events: Seq<Event>, samples: Seq<Sample>|
                #![trigger reaches(mid, asked, events, self.device.backend, next@, samples)]
                reaches(mid, asked, events, self.device.backend, next@, samples)
                    && self.sink.offered() == old(self).sink.offered() + samples;
            assert(resumes_to(
                old(self).device.backend,
                Event::Completed,
                self.device.backend,
                next@,
                samples,
            ));
        }
        next
    }
}

impl<L: SerialDevice> AsyncSWRAnalyzer<Device<L>> {
    /// Attaches the analyzer on `line`, or the simulated one, where none is
    /// attached yet: the backend is picked and probed, and with its version
    /// given the bridge is idle. With a failed probe the bridge stays
    /// disconnected and the error of the probe comes back. A bridge that has
    /// a device, or had one and lost it, leaves `line` alone.
    pub fn attach(&mut self, use_dummy: bool, line: L) -> (r: Result<String, Error>)
        ensures
            !(old(self)@ is Disconnected) ==> r == Err::<String, Error>(old(self)@.refusal())
                && final(self)@ == old(self)@,
            old(self)@ is Disconnected ==> match r {
                Ok(text) => final(self)@ is Idle && exists|closing: ActionView|
                    {
                        &&& #[trigger] probe_runs_to(
                            fresh_backend(use_dummy),
                            final(self)@->Idle_0.backend,
                            closing,
                        )
                        &&& probe_verdict(closing) == Ok::<Seq<char>, Error>(text@)
                    },
                Err(e) => final(self)@ is Disconnected && exists|
                    reached: Backend,
                    closing: ActionView,
                |
                    {
                        &&& #[trigger] probe_runs_to(fresh_backend(use_dummy), reached, closing)
                        &&& probe_verdict(closing) == Err::<Seq<char>, Error>(e)
                    },
            },
            old(self)@ is Disconnected && use_dummy ==> (r matches Ok(text) && text@
                == dummy_version() && final(self)@ is Idle && final(self)@->Idle_0.backend
                == fresh_backend(true)),
    {
        match self.state() {
            State::Disconnected => {},
            State::Error => {
                return Err(Error::Previous);
            },
            _ => {
                return Err(Error::Busy);
            },
        }
        match Device::open(use_dummy, line) {
            Ok((device, text)) => {
                let _ = self.connect(Ok(device));
                Ok(text)
            },
            Err(e) => Err(e),
        }
    }

    /// Releases the device, where it is here and free: the hardware is sent
    /// the exit command, and the transport is handed out, to be given back
    /// to the system, with the outcome of that command.
    pub fn detach(&mut self) -> (r: Result<(L, Result<(), Error>), Error>)
        ensures
            r is Ok <==> old(self)@ is Idle,
            r is Ok ==> final(self)@ is Disconnected,
            r matches Err(e) ==> e == old(self)@.refusal() && final(self)@ == old(self)@,
    {
        match self.disconnect() {
            Ok(device) => Ok(device.close()),
            Err(e) => Err(e),
        }
    }
}

} // verus!
