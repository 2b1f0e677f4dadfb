//! The choice between the two backends, made when a device is attached.

use vstd::prelude::*;
use crate::analyzer::SWRAnalyzer;
use crate::commands::LedState;
use crate::dummy::Dummy;
use crate::error::Error;
use crate::exchange::{Action, ActionView, Event, SweepParams};
use crate::foxdelta::FoxDeltaAnalyzer;

verus! {

/// An analyzer backend of either kind.
#[derive(Copy, Clone, Debug, PartialEq, Eq)]
pub enum Backend {
    /// The analyzer on the USB transport.
    Hardware(FoxDeltaAnalyzer),
    /// The simulated analyzer.
    Simulated(Dummy),
}

impl SWRAnalyzer for Backend {
    open spec fn version_opens(self, next: Self, action: ActionView) -> bool {
        match (self, next) {
            (Backend::Hardware(from), Backend::Hardware(to)) => from.version_opens(to, action),
            (Backend::Simulated(from), Backend::Simulated(to)) => from.version_opens(to, action),
            _ => false,
        }
    }

    open spec fn led_opens(self, state: LedState, next: Self, action: ActionView) -> bool {
        match (self, next) {
            (Backend::Hardware(from), Backend::Hardware(to)) => from.led_opens(state, to, action),
            (Backend::Simulated(from), Backend::Simulated(to)) => from.led_opens(
                state,
                to,
                action,
            ),
            _ => false,
        }
    }

    open spec fn sweep_opens(
        self,
        continuous: bool,
        params: SweepParams,
        next: Self,
        action: ActionView,
    ) -> bool {
        match (self, next) {
            (Backend::Hardware(from), Backend::Hardware(to)) => from.sweep_opens(
                continuous,
                params,
                to,
                action,
            ),
            (Backend::Simulated(from), Backend::Simulated(to)) => from.sweep_opens(
                continuous,
                params,
                to,
                action,
            ),
            _ => false,
        }
    }

    open spec fn resumes(self, event: Event, next: Self, action: ActionView) -> bool {
        match (self, next) {
            (Backend::Hardware(from), Backend::Hardware(to)) => from.resumes(event, to, action),
            (Backend::Simulated(from), Backend::Simulated(to)) => from.resumes(event, to, action),
            _ => false,
        }
    }

    open spec fn steps_left(self) -> nat {
        match self {
            Backend::Hardware(analyzer) => analyzer.steps_left(),
            Backend::Simulated(analyzer) => analyzer.steps_left(),
        }
    }

    proof fn lemma_steps_run_out(self, event: Event, next: Self, action: ActionView) {
        match (self, next) {
            (Backend::Hardware(from), Backend::Hardware(to)) => {
                from.lemma_steps_run_out(event, to, action);
            },
            (Backend::Simulated(from), Backend::Simulated(to)) => {
                from.lemma_steps_run_out(event, to, action);
            },
            _ => {},
        }
    }

    fn version(&mut self) -> (action: Action) {
        match self {
            Backend::Hardware(analyzer) => analyzer.version(),
            Backend::Simulated(analyzer) => analyzer.version(),
        }
    }

    fn set_led_blink(&mut self, state: LedState) -> (action: Action) {
        match self {
            Backend::Hardware(analyzer) => analyzer.set_led_blink(state),
            Backend::Simulated(analyzer) => analyzer.set_led_blink(state),
        }
    }

    fn start_sweep(&mut self, continuous: bool, params: SweepParams) -> (action: Action) {
        match self {
            Backend::Hardware(analyzer) => analyzer.start_sweep(continuous, params),
            Backend::Simulated(analyzer) => analyzer.start_sweep(continuous, params),
        }
    }

    fn resume(&mut self, event: Event) -> (action: Action) {
        match self {
            Backend::Hardware(analyzer) => analyzer.resume(event),
            Backend::Simulated(analyzer) => analyzer.resume(event),
        }
    }
}

/// The backend of the kind asked for, before any exchange.
pub open spec fn fresh_backend(use_dummy: bool) -> Backend {
    if use_dummy {
        Backend::Simulated(Dummy::spec_new())
    } else {
        Backend::Hardware(FoxDeltaAnalyzer::spec_new())
    }
}

/// Picks the backend and opens the exchange that probes it: a device counts
/// as attached once it has given its version.
pub fn get_analyzer(use_dummy: bool) -> (probe: (Backend, Action))
    ensures
        fresh_backend(use_dummy).version_opens(probe.0, probe.1@),
{
    let mut backend = if use_dummy {
        Backend::Simulated(Dummy::new())
    } else {
        Backend::Hardware(FoxDeltaAnalyzer::new())
    };
    let action = backend.version();
    (backend, action)
}

/// What the end of the probe says about the device: it is there where the
/// probe ended with a version text, and the probe's error tells why it is
/// not. An action that ends no exchange is no answer.
pub open spec fn probe_verdict(closing: ActionView) -> Result<Seq<char>, Error> {
    match closing {
        ActionView::Version(text) => Ok(text),
        ActionView::Fail(e) => Err(e),
        _ => Err(Error::InvalidResponse),
    }
}

/// Says whether the probed device may be attached, given the action that
/// ended the probe, and hands out its version text if so.
pub fn probed(closing: Action) -> (r: Result<String, Error>)
    ensures
        match r {
            Ok(text) => probe_verdict(closing@) == Ok::<Seq<char>, Error>(text@),
            Err(e) => probe_verdict(closing@) == Err::<Seq<char>, Error>(e),
        },
{
    match closing {
        Action::Version(text) => Ok(text),
        Action::Fail(e) => Err(e),
        _ => Err(Error::InvalidResponse),
    }
}

} // verus!
