//! The means by which new tasks are handed to the orchestrator.
use crate::common::channel::{clone_handle, clone_sender, try_send, Offer, SendRefusal};
use crate::common::orchestrator::QuicTask;
use tokio::runtime::Handle;
use tokio::sync::mpsc::Sender;
use vstd::prelude::*;

verus! {

/// Hands tasks to the orchestrator's shared incoming channel.
#[verifier::reject_recursive_types(C)]
#[verifier::reject_recursive_types(S)]
#[verifier::reject_recursive_types(R)]
pub struct OrchestratorHandle<C, S, R> {
    runtime: Handle,
    sender: Sender<QuicTask<C, S, R>>,
}

impl<C, S, R> Clone for OrchestratorHandle<C, S, R> {
    /// Another handle on the same runtime and the same shared channel.
    fn clone(&self) -> (r: Self)
        ensures
            r.spec_runtime() == self.spec_runtime(),
            r.spec_sender() == self.spec_sender(),
    {
        OrchestratorHandle { runtime: clone_handle(&self.runtime), sender: clone_sender(&self.sender) }
    }
}

impl<C, S, R> OrchestratorHandle<C, S, R> {
    pub fn new(sender: Sender<QuicTask<C, S, R>>, runtime: Handle) -> (r: Self)
        ensures
            r.spec_runtime() == runtime,
            r.spec_sender() == sender,
    {
        Self { sender, runtime }
    }

    /// Hands a connection task to the orchestrator by offering it to the shared
    /// channel; the record of that offer comes back with the answer. When the
    /// channel refuses it, whether full or closed, the task is handed back as
    /// `Full`.
    pub fn push_connection(&self, conn_task: C) -> (r: (Result<(), SendRefusal<C>>, Offer<QuicTask<C, S, R>>))
        ensures
            r.1.spec_value() == QuicTask::<C, S, R>::Connection(conn_task),
            r.1.spec_channel() == self.spec_sender(),
            r.0 is Ok <==> r.1.spec_accepted(),
            r.0 matches Err(e) ==> e == SendRefusal::Full(conn_task),
    {
        let (answer, offer) = try_send(&self.sender, QuicTask::Connection(conn_task));
        let r = match answer {
            Ok(()) => Ok(()),
            Err(SendRefusal::Full(QuicTask::Connection(task)))
            | Err(SendRefusal::Closed(QuicTask::Connection(task))) => Err(SendRefusal::Full(task)),
            Err(_) => {
                // The refused value is the one offered, which is a connection task.
                proof {
                    assert(false);
                }
                Ok(())
            },
        };
        (r, offer)
    }


    /// Hands a receive task to the orchestrator by offering it to the shared
    /// channel; the record of that offer comes back with the answer. When the
    /// channel refuses it, whether full or closed, the task is handed back as
    /// `Full`.
    pub fn push_receive(&self, task: R) -> (r: (Result<(), SendRefusal<R>>, Offer<QuicTask<C, S, R>>))
        ensures
            r.1.spec_value() == QuicTask::<C, S, R>::Receive(task),
            r.1.spec_channel() == self.spec_sender(),
            r.0 is Ok <==> r.1.spec_accepted(),
            r.0 matches Err(e) ==> e == SendRefusal::Full(task),
    {
        let (answer, offer) = try_send(&self.sender, QuicTask::Receive(task));
        let r = match answer {
            Ok(()) => Ok(()),
            Err(SendRefusal::Full(QuicTask::Receive(task)))
            | Err(SendRefusal::Closed(QuicTask::Receive(task))) => Err(SendRefusal::Full(task)),
            Err(_) => {
                // The refused value is the one offered, which is a receive task.
                proof {
                    assert(false);
                }
                Ok(())
            },
        };
        (r, offer)
    }


    /// Hands a send task to the orchestrator by offering it to the shared
    /// channel; the record of that offer comes back with the answer. When the
    /// channel refuses it, whether full or closed, the task is handed back as
    /// `Full`.
    pub fn push_send(&self, task: S) -> (r: (Result<(), SendRefusal<S>>, Offer<QuicTask<C, S, R>>))
        ensures
            r.1.spec_value() == QuicTask::<C, S, R>::Send(task),
            r.1.spec_channel() == self.spec_sender(),
            r.0 is Ok <==> r.1.spec_accepted(),
            r.0 matches Err(e) ==> e == SendRefusal::Full(task),
    {
        let (answer, offer) = try_send(&self.sender, QuicTask::Send(task));
        let r = match answer {
            Ok(()) => Ok(()),
            Err(SendRefusal::Full(QuicTask::Send(task)))
            | Err(SendRefusal::Closed(QuicTask::Send(task))) => Err(SendRefusal::Full(task)),
            Err(_) => {
                // The refused value is the one offered, which is a send task.
                proof {
                    assert(false);
                }
                Ok(())
            },
        };
        (r, offer)
    }


    /// The shared channel to the orchestrator.
    pub closed spec fn spec_sender(self) -> Sender<QuicTask<C, S, R>> {
        self.sender
    }

    /// The runtime handle the orchestrator was created with.
    pub closed spec fn spec_runtime(self) -> Handle {
        self.runtime
    }

    /// Returns a handle to the Tokio runtime used for running async tasks.
    pub fn tokio_handle(&self) -> (r: &Handle)
        ensures
            *r == self.spec_runtime(),
    {
        &self.runtime
    }
}

} // verus!
