//! The shared on/off switch of a running clicker.

use std::sync::Arc;
use std::sync::atomic::AtomicBool;
use std::sync::atomic::Ordering;
use vstd::prelude::*;

verus! {

/// A cancellable handle shared with whatever toggles the clicker on/off.
/// Clones share one flag. Other threads may set or clear it at any time, so
/// no contract here says what a read returns.
#[derive(Clone)]
pub struct StopFlag(Arc<AtomicBool>);

impl StopFlag {
    /// A fresh, cleared flag.
    pub fn new() -> Self {
        StopFlag(Arc::new(AtomicBool::new(false)))
    }

    /// Ask every holder of the flag to stop.
    pub fn stop(&self) {
        self.0.store(true, Ordering::Relaxed);
    }

    /// Whether a stop has been asked for (and not reset since).
    pub fn is_stopped(&self) -> bool {
        self.0.load(Ordering::Relaxed)
    }

    /// Clear the flag.
    pub fn reset(&self) {
        self.0.store(false, Ordering::Relaxed);
    }
}

} // verus!
