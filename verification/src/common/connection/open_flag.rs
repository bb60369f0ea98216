//! A flag shared between a connection's handle and its task, lowered when the
//! connection closes.
use std::sync::atomic::AtomicBool;
use std::sync::atomic::Ordering;
use std::sync::Arc;
use vstd::prelude::*;

verus! {

/// `Arc::clone`: a new handle to the same shared flag.
#[verifier::external_body]
fn share_flag(flag: &Arc<AtomicBool>) -> (r: Arc<AtomicBool>)
    ensures
        r == *flag,
{
    Arc::clone(flag)
}

/// Whether a connection is open, shared between threads. Clones share the same
/// flag, and another thread may lower it at any time.
#[derive(Debug)]
pub struct OpenFlag(Arc<AtomicBool>);

impl Clone for OpenFlag {
    /// Another handle on the same flag.
    fn clone(&self) -> (r: Self)
        ensures
            r == *self,
    {
        OpenFlag(share_flag(&self.0))
    }
}

impl OpenFlag {
    pub fn new(open: bool) -> Self {
        OpenFlag(Arc::new(AtomicBool::new(open)))
    }

    /// Whether the connection is open now.
    pub fn get(&self) -> bool {
        self.0.load(Ordering::Acquire)
    }

    /// Marks the connection as closed.
    pub fn set_closed(&self) {
        self.0.store(false, Ordering::Release)
    }
}

} // verus!
