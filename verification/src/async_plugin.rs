//! Configuration of the asynchronous runtime used by the QUIC tasks.
use vstd::prelude::*;

verus! {

/// Settings for the runtime that runs the asynchronous QUIC work. By default
/// the number of worker threads is derived from the available parallelism.
#[derive(Debug, PartialEq, Eq, Structural, Clone, Copy)]
pub struct QuicAsyncPlugin {
    worker_threads: Option<usize>,
}

impl Default for QuicAsyncPlugin {
    fn default() -> (r: Self)
        ensures
            r.spec_worker_threads() is None,
    {
        QuicAsyncPlugin { worker_threads: None }
    }
}

impl QuicAsyncPlugin {
    /// The number of worker threads asked for, if one was given.
    pub closed spec fn spec_worker_threads(self) -> Option<usize> {
        self.worker_threads
    }

    /// Used if you want to specify the number of worker threads
    /// to be used when handling the async work of the Quic tasks.
    pub fn new_with_threads(worker_threads: usize) -> (r: Self)
        ensures
            r.spec_worker_threads() == Some(worker_threads),
    {
        Self { worker_threads: Some(worker_threads) }
    }

    /// The number of worker threads asked for; `None` means the default count.
    pub fn worker_threads(&self) -> (r: Option<usize>)
        ensures
            r == self.spec_worker_threads(),
    {
        self.worker_threads
    }
}

} // verus!
