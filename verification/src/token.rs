//! The flag by which a running sweep is asked to stop.

use vstd::prelude::*;
use std::sync::atomic::AtomicBool;
use std::sync::atomic::Ordering;
use std::sync::Arc;

verus! {

/// A flag shared between the party that asks a sweep to stop and the sweep
/// itself. Once raised it stays raised.
///
/// The flag lives outside the reach of contracts: another thread may raise it
/// at any moment, so nothing is promised about what `is_cancelled` returns.
pub struct CancelToken {
    flag: Arc<AtomicBool>,
}

impl CancelToken {
    /// A token of its own that has not been raised.
    pub fn new() -> CancelToken {
        CancelToken { flag: Arc::new(AtomicBool::new(false)) }
    }

    /// `Arc::clone`: another handle to the same flag.
    #[verifier::external_body]
    pub(crate) fn share(&self) -> (other: CancelToken)
        ensures
            other == *self,
    {
        CancelToken { flag: Arc::clone(&self.flag) }
    }

    /// Raises the flag.
    pub fn cancel(&self) {
        self.flag.store(true, Ordering::Relaxed);
    }

    /// Whether the flag was raised, as far as this thread can tell.
    pub fn is_cancelled(&self) -> bool {
        self.flag.load(Ordering::Relaxed)
    }
}

} // verus!
