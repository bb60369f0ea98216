//! A flag shared between the connection task and the synchronous side, raised
//! when a new incoming stream is waiting.
use std::sync::atomic::AtomicBool;
use std::sync::atomic::Ordering;
use vstd::prelude::*;

verus! {

/// A boolean shared between threads. Other threads may change it at any time,
/// so reading it tells only what it held at that moment.
#[derive(Debug)]
pub struct StreamFlag(AtomicBool);

impl StreamFlag {
    pub fn new(value: bool) -> Self {
        Self(AtomicBool::new(value))
    }

    /// The value the flag holds now.
    pub fn get(&self) -> bool {
        self.0.load(Ordering::Acquire)
    }

    /// Raises the flag.
    pub fn set_true(&self) {
        self.0.store(true, Ordering::Release)
    }

    /// Lowers the flag.
    pub fn set_false(&self) {
        self.0.store(false, Ordering::Release)
    }

    /// Stores `value` and returns the value held just before.
    pub fn swap(&self, value: bool) -> bool {
        self.0.swap(value, Ordering::AcqRel)
    }
}

} // verus!
