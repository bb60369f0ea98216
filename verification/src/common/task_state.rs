//! How the synchronous side learns whether an asynchronous task has ended,
//! and why.
use crate::common::disconnect::DisconnectCause;
use std::sync::{Arc, OnceLock};
use vstd::prelude::*;

verus! {

/// A cell that can be written once and read from several threads.
#[verifier::external_type_specification]
#[verifier::external_body]
#[verifier::reject_recursive_types(T)]
pub struct ExOnceLock<T>(OnceLock<T>);

/// `OnceLock::new`: an empty cell. What it holds later depends on other
/// threads, so nothing is stated of it.
pub assume_specification<T>[ OnceLock::<T>::new ]() -> OnceLock<T>;

/// The record of one attempt to write a once-cell: which value, to which cell,
/// and whether the cell took it. Only [`write_once`] makes one, so holding one
/// shows that the write was attempted.
#[verifier::reject_recursive_types(T)]
pub struct CellWrite<T> {
    value: Ghost<T>,
    cell: Ghost<OnceLock<T>>,
    stored: bool,
}

impl<T> CellWrite<T> {
    /// The value handed to the cell.
    pub closed spec fn spec_value(self) -> T {
        self.value@
    }

    /// The cell written.
    pub closed spec fn spec_cell(self) -> OnceLock<T> {
        self.cell@
    }

    /// Whether the cell took the value.
    pub closed spec fn spec_stored(self) -> bool {
        self.stored
    }

    /// Whether the cell took the value.
    pub fn stored(&self) -> (r: bool)
        ensures
            r == self.spec_stored(),
    {
        self.stored
    }
}

/// `OnceLock::set`: stores `value` if the cell was empty; if it was already
/// written, hands `value` back unchanged in the error. Whether the cell was
/// empty depends on the other holders of the cell; the record that comes with
/// the answer names the value, the cell and whether the value was stored.
#[verifier::external_body]
fn write_once<T>(lock: &OnceLock<T>, value: T) -> (r: (Result<(), T>, CellWrite<T>))
    ensures
        r.0 matches Err(v) ==> v == value,
        r.1.spec_value() == value,
        r.1.spec_cell() == *lock,
        r.1.spec_stored() == r.0 is Ok,
{
    let (offered, cell) = (Ghost(value), Ghost(*lock));
    let answer = lock.set(value);
    let stored = answer.is_ok();
    (answer, CellWrite { value: offered, cell, stored })
}

/// `OnceLock::get`: the stored value, if any. Whether one is stored depends on
/// the other threads that share the cell, so nothing is stated of the result.
pub assume_specification<T>[ OnceLock::<T>::get ](lock: &OnceLock<T>) -> Option<&T>;

/// `Arc::clone`: a new handle to the same shared cell.
#[verifier::external_body]
fn share_lock<T>(lock: &Arc<OnceLock<T>>) -> (r: Arc<OnceLock<T>>)
    ensures
        r == *lock,
{
    Arc::clone(lock)
}

/// Whether the task behind a state has ended, and the reason it ended.
pub trait TaskState<T> {
    fn is_finished(&self) -> bool;

    fn get_disconnect_reason(&mut self) -> Option<T>;
}

/// The end of a task, published once by the task itself through a shared cell.
#[derive(Debug)]
#[verifier::reject_recursive_types(T)]
pub struct OnceLockState<T> {
    lock: Arc<OnceLock<T>>,
}

impl<T> Clone for OnceLockState<T> {
    /// Another handle on the same shared cell.
    fn clone(&self) -> (r: Self)
        ensures
            r == *self,
    {
        OnceLockState { lock: share_lock(&self.lock) }
    }
}

impl<T: DisconnectCause> OnceLockState<T> {
    pub fn new() -> Self {
        Self { lock: Arc::new(OnceLock::new()) }
    }

    /// The shared cell.
    pub closed spec fn spec_cell(self) -> OnceLock<T> {
        *self.lock
    }

    /// Sets the internal state for the cell. Returns `Err(value)`, with the
    /// value given, in the event the cell has already been set. The record of
    /// the write comes with the answer: `value`, handed to this state's cell,
    /// stored exactly when the answer is `Ok`.
    pub fn set(&mut self, value: T) -> (r: (Result<(), T>, CellWrite<T>))
        ensures
            r.0 matches Err(v) ==> v == value,
            r.1.spec_value() == value,
            r.1.spec_cell() == old(self).spec_cell(),
            r.1.spec_stored() == r.0 is Ok,
            *final(self) == *old(self),
    {
        write_once(&*self.lock, value)
    }
}

impl<T: DisconnectCause> TaskState<T> for OnceLockState<T> {
    /// Whether the reason has been published.
    fn is_finished(&self) -> (r: bool) {
        self.lock.get().is_some()
    }

    /// A copy of the published reason, if there is one.
    fn get_disconnect_reason(&mut self) -> (r: Option<T>)
        ensures
            *final(self) == *old(self),
    {
        match self.lock.get() {
            Some(reason) => Some(reason.duplicate()),
            None => None,
        }
    }
}

/// A running task whose completion can be checked without blocking, and whose
/// outcome can be collected once it has completed.
pub trait FinishableTask<T> {
    /// Whether the task has completed.
    fn is_finished(&self) -> bool;

    /// Waits for the task and returns what it produced, or the description of
    /// why it could not produce anything.
    fn join(&mut self) -> Result<T, String>;
}

/// The end of a task that is learnt by joining it: while the task runs it is
/// held, and once it has completed its reason is kept instead. A state is always
/// one of the two, so a reason is at hand whenever no task is.
pub struct JoinHandleState<T, J> {
    phase: JoinPhase<T, J>,
}

enum JoinPhase<T, J> {
    Running(J),
    Ended(T),
}

impl<T: DisconnectCause, J: FinishableTask<T>> JoinHandleState<T, J> {
    /// Whether the task is still held, that is, not yet seen to have completed.
    pub closed spec fn spec_running(self) -> bool {
        self.phase is Running
    }

    /// The reason recorded once the task was seen to complete.
    pub closed spec fn spec_reason(self) -> Option<T> {
        match self.phase {
            JoinPhase::Running(_) => None,
            JoinPhase::Ended(r) => Some(r),
        }
    }

    /// Holds a running task.
    pub fn new(task: J) -> (r: Self)
        ensures
            r.spec_running(),
            r.spec_reason() is None,
    {
        Self { phase: JoinPhase::Running(task) }
    }
}

impl<T: DisconnectCause, J: FinishableTask<T>> TaskState<T> for JoinHandleState<T, J> {
    /// Whether the task has completed; always true once it was seen to complete.
    fn is_finished(&self) -> (r: bool)
        ensures
            !self.spec_running() ==> r,
    {
        match &self.phase {
            JoinPhase::Running(join) => join.is_finished(),
            JoinPhase::Ended(_) => true,
        }
    }

    /// `None` while the task runs, leaving the state as it is. Once it has
    /// completed, the reason [`reason_from_join`] gives for what joining it
    /// produced: the reason it returned, or an internal error describing why it
    /// could not be joined. That reason is kept and every later call returns it
    /// again without joining. What joining produces comes from the task, so the
    /// contract says only that the reason returned is the one kept.
    fn get_disconnect_reason(&mut self) -> (r: Option<T>)
        ensures
            !old(self).spec_running() ==> r == old(self).spec_reason() && *final(self) == *old(self),
            (r is None) == final(self).spec_running(),
            r is None ==> *final(self) == *old(self),
            r is Some ==> final(self).spec_reason() == r,
    {
        let joined = match &mut self.phase {
            JoinPhase::Running(join) => {
                if !join.is_finished() {
                    return None;
                }
                join.join()
            },
            JoinPhase::Ended(reason) => {
                return Some(reason.duplicate());
            },
        };
        let reason = reason_from_join(joined);
        let copy = reason.duplicate();
        self.phase = JoinPhase::Ended(reason);
        Some(copy)
    }
}

/// Whether `reason` is what the outcome of joining a task gives: the reason the
/// task returned, or an internal error with the description of the failure.
pub open spec fn spec_join_gives<T: DisconnectCause>(joined: Result<T, String>, reason: T) -> bool {
    match joined {
        Ok(r) => reason == r,
        Err(d) => reason.spec_is_internal_error(d@),
    }
}

/// The reason a joined task ended with: the one it returned, or an internal
/// error describing why it could not be joined.
pub fn reason_from_join<T: DisconnectCause>(joined: Result<T, String>) -> (r: T)
    ensures
        spec_join_gives(joined, r),
{
    match joined {
        Ok(reason) => reason,
        Err(description) => T::from_internal_error(description),
    }
}

} // verus!
