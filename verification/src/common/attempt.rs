//! Attempts: actions that run asynchronously and are polled from the
//! synchronous side until they yield a result, which is handed out once.
use crate::common::channel::{oneshot_is_empty, oneshot_try_recv, OneshotReceive};
use crate::common::connection::disconnect::ConnectionFailure;
use core::marker::PhantomData;
use std::time::SystemTime;
use tokio::sync::oneshot;
use vstd::prelude::*;

verus! {

/// A point in time as given by the system clock.
#[verifier::external_type_specification]
#[verifier::external_body]
pub struct ExSystemTime(SystemTime);

/// All the ways an asynchronous task can fail.
#[derive(Debug)]
pub enum TaskError {
    /// The connection failed.
    ConnectionFailed(ConnectionFailure),
    /// The task crashed; the description of the crash.
    TaskFailed(String),
}

impl Clone for TaskError {
    fn clone(&self) -> (r: Self)
        ensures
            r == *self,
    {
        match self {
            TaskError::ConnectionFailed(f) => TaskError::ConnectionFailed(f.clone()),
            TaskError::TaskFailed(d) => TaskError::TaskFailed(d.clone()),
        }
    }
}

impl From<ConnectionFailure> for TaskError {
    fn from(value: ConnectionFailure) -> (r: Self) {
        TaskError::ConnectionFailed(value)
    }
}

impl vstd::std_specs::convert::FromSpecImpl<ConnectionFailure> for TaskError {
    open spec fn obeys_from_spec() -> bool {
        true
    }

    open spec fn from_spec(v: ConnectionFailure) -> TaskError {
        TaskError::ConnectionFailed(v)
    }
}

/// All the ways a [`QuicActionAttempt`] can fail to hand out a result.
#[derive(Debug)]
pub enum QuicActionError {
    /// The task has not finished yet.
    Pending,
    /// The result was already handed out.
    Consumed,
    /// The connection failed.
    ConnectionFailed(ConnectionFailure),
    /// The task crashed; the description of the crash.
    Crashed(String),
}

impl Clone for QuicActionError {
    fn clone(&self) -> (r: Self)
        ensures
            r == *self,
    {
        match self {
            QuicActionError::Pending => QuicActionError::Pending,
            QuicActionError::Consumed => QuicActionError::Consumed,
            QuicActionError::ConnectionFailed(f) => QuicActionError::ConnectionFailed(f.clone()),
            QuicActionError::Crashed(d) => QuicActionError::Crashed(d.clone()),
        }
    }
}

/// A source of the result of an asynchronous task, polled without blocking.
///
/// `resolve_result` returns `None` while the task is still running, and the
/// task's outcome once it has finished.
pub trait TaskResult<T> {
    fn resolve_result(&mut self) -> Option<Result<T, TaskError>>;
}

/// What one poll of an asynchronous task's result found.
pub enum TaskPoll<V> {
    /// Nothing is available yet.
    Pending,
    /// The task delivered this value.
    Ready(V),
    /// The task, or the channel it reports through, failed; the description.
    Failed(String),
}

impl<T> TaskPoll<Result<T, TaskError>> {
    /// The resolution reported for this poll: nothing while pending, the
    /// delivered outcome when ready, and a crash when the task failed.
    pub open spec fn spec_resolution(self) -> Option<Result<T, TaskError>> {
        match self {
            TaskPoll::Pending => None,
            TaskPoll::Ready(v) => Some(v),
            TaskPoll::Failed(d) => Some(Err(TaskError::TaskFailed(d))),
        }
    }

    /// The resolution reported for this poll.
    pub fn into_resolution(self) -> (r: Option<Result<T, TaskError>>)
        ensures
            r == self.spec_resolution(),
    {
        match self {
            TaskPoll::Pending => None,
            TaskPoll::Ready(v) => Some(v),
            TaskPoll::Failed(d) => Some(Err(TaskError::TaskFailed(d))),
        }
    }
}

impl<T> TaskResult<T> for oneshot::Receiver<Result<T, TaskError>> {
    /// `None` while nothing is waiting on the channel (this includes a sender
    /// dropped without sending); the value once it was sent; and a crash when
    /// the channel turns out to be closed.
    fn resolve_result(&mut self) -> Option<Result<T, TaskError>> {
        if oneshot_is_empty(self) {
            return None;
        }
        let poll = match oneshot_try_recv(self) {
            OneshotReceive::Value(v) => TaskPoll::Ready(v),
            OneshotReceive::Empty => TaskPoll::Pending,
            OneshotReceive::Closed(description) => TaskPoll::Failed(description),
        };
        poll.into_resolution()
    }
}

/// The state an attempt records after a poll, and what that poll returns, given
/// the state before and what the task resolved to. Once a result was handed out
/// or a failure seen, the state no longer changes and the task is not consulted.
pub open spec fn spec_settle<T>(
    prior: Option<QuicActionError>,
    resolution: Option<Result<T, TaskError>>,
) -> (Option<QuicActionError>, Result<T, QuicActionError>) {
    match prior {
        Some(e) => (Some(e), Err(e)),
        None => match resolution {
            None => (None, Err(QuicActionError::Pending)),
            Some(Ok(v)) => (Some(QuicActionError::Consumed), Ok(v)),
            Some(Err(TaskError::ConnectionFailed(f))) => (
                Some(QuicActionError::ConnectionFailed(f)),
                Err(QuicActionError::ConnectionFailed(f)),
            ),
            Some(Err(TaskError::TaskFailed(d))) => (
                Some(QuicActionError::Crashed(d)),
                Err(QuicActionError::Crashed(d)),
            ),
        },
    }
}

/// The asynchronous task being attempted and waited upon via synchronous
/// polling with [`attempt_result`](QuicActionAttempt::attempt_result).
pub struct QuicActionAttempt<T, I: Copy, R: TaskResult<T>> {
    task_res: R,
    /// What later polls return once the result was handed out or a failure seen.
    returned_value: Option<QuicActionError>,
    id: I,
    result_type: PhantomData<T>,
}

impl<T, I: Copy, R: TaskResult<T>> QuicActionAttempt<T, I, R> {
    /// What polls return from now on, once a result was handed out or a failure seen.
    pub closed spec fn spec_returned(self) -> Option<QuicActionError> {
        self.returned_value
    }

    /// The identifier the attempt was created with.
    pub closed spec fn spec_id(self) -> I {
        self.id
    }

    pub fn new(task: R, id: I) -> (r: Self)
        ensures
            r.spec_returned() is None,
            r.spec_id() == id,
    {
        QuicActionAttempt { task_res: task, returned_value: None, id, result_type: PhantomData }
    }

    /// Records the outcome of one poll of the task, given what the task resolved
    /// to, and returns what the poll hands out.
    pub fn settle(&mut self, resolution: Option<Result<T, TaskError>>) -> (r: Result<T, QuicActionError>)
        ensures
            (final(self).spec_returned(), r) == spec_settle(old(self).spec_returned(), resolution),
            final(self).spec_id() == old(self).spec_id(),
    {
        if let Some(ret) = &self.returned_value {
            return Err(ret.clone());
        }
        match resolution {
            None => Err(QuicActionError::Pending),
            Some(Ok(value)) => {
                self.returned_value = Some(QuicActionError::Consumed);
                Ok(value)
            },
            Some(Err(TaskError::ConnectionFailed(err))) => {
                let e = QuicActionError::ConnectionFailed(err);
                let copy = e.clone();
                self.returned_value = Some(e);
                Err(copy)
            },
            Some(Err(TaskError::TaskFailed(err))) => {
                let e = QuicActionError::Crashed(err);
                let copy = e.clone();
                self.returned_value = Some(e);
                Err(copy)
            },
        }
    }

    /// Attempts to get the result. The result is handed out at most once:
    /// `Err(Pending)` while the task runs, then its value once, and
    /// `Err(Consumed)` on every later call; a failure is returned on this and
    /// every later call. The task is only consulted while nothing was handed out.
    pub fn attempt_result(&mut self) -> (r: Result<T, QuicActionError>)
        ensures
            exists|resolution: Option<Result<T, TaskError>>|
                (final(self).spec_returned(), r) == #[trigger] spec_settle(
                    old(self).spec_returned(),
                    resolution,
                ),
            final(self).spec_id() == old(self).spec_id(),
    {
        if let Some(ret) = &self.returned_value {
            let r = Err(ret.clone());
            assert(spec_settle::<T>(old(self).spec_returned(), None) == (final(self).spec_returned(), r));
            return r;
        }
        let value = self.task_res.resolve_result();
        let r = self.settle(value);
        r
    }

    pub fn id(&self) -> (r: I)
        ensures
            r == self.spec_id(),
    {
        self.id
    }
}

/// A poll that finds the task still running leaves the attempt unchanged.
pub proof fn lemma_pending_keeps_state<T>(prior: Option<QuicActionError>)
    ensures
        spec_settle::<T>(prior, None).0 == prior,
{
}

/// A value is handed out at most once: after a poll that returned `Ok`, every
/// later poll returns `Err(Consumed)`, whatever the task reports.
pub proof fn lemma_result_handed_out_once<T>(
    prior: Option<QuicActionError>,
    first: Option<Result<T, TaskError>>,
    later: Option<Result<T, TaskError>>,
)
    requires
        spec_settle(prior, first).1 is Ok,
    ensures
        spec_settle(spec_settle(prior, first).0, later) == (
            Some(QuicActionError::Consumed),
            Err::<T, QuicActionError>(QuicActionError::Consumed),
        ),
{
}

/// A failure is final: once a poll returned an error other than `Pending`,
/// every later poll returns the same error and the state stays as it is.
pub proof fn lemma_failure_is_final<T>(
    prior: Option<QuicActionError>,
    first: Option<Result<T, TaskError>>,
    later: Option<Result<T, TaskError>>,
    e: QuicActionError,
)
    requires
        spec_settle(prior, first).1 == Err::<T, QuicActionError>(e),
        !(e is Pending),
    ensures
        spec_settle(spec_settle(prior, first).0, later) == (Some(e), Err::<T, QuicActionError>(e)),
{
}

/// What the synchronous side does with the outcome of polling a connection attempt.
pub enum ConnectionAttemptStep<C> {
    /// The attempt is still pending: leave it as it is.
    Wait,
    /// The attempt failed or was already consumed: drop it, reporting the error.
    Discard(QuicActionError),
    /// The connection is established: replace the attempt with it.
    Establish(C),
}

/// What the synchronous side does with the outcome of polling a stream attempt.
pub enum StreamAttemptStep<S> {
    /// The attempt is still pending: leave it as it is.
    Wait,
    /// The attempt failed or was already consumed: drop it, reporting the error.
    Discard(QuicActionError),
    /// A stream arrived: replace the attempt with it.
    Spawn(S),
    /// No stream was pending: remove the attempt's entity.
    Despawn,
}

/// Decides what to do with the outcome of polling a connection attempt.
pub fn connection_attempt_step<C>(res: Result<C, QuicActionError>) -> (r: ConnectionAttemptStep<C>)
    ensures
        match res {
            Ok(c) => r == ConnectionAttemptStep::Establish(c),
            Err(QuicActionError::Pending) => r is Wait,
            Err(e) => r == ConnectionAttemptStep::<C>::Discard(e),
        },
{
    match res {
        Ok(c) => ConnectionAttemptStep::Establish(c),
        Err(QuicActionError::Pending) => ConnectionAttemptStep::Wait,
        Err(e) => ConnectionAttemptStep::Discard(e),
    }
}

/// Decides what to do with the outcome of polling a stream attempt.
pub fn stream_attempt_step<S>(res: Result<Option<S>, QuicActionError>) -> (r: StreamAttemptStep<S>)
    ensures
        match res {
            Ok(Some(s)) => r == StreamAttemptStep::Spawn(s),
            Ok(None) => r is Despawn,
            Err(QuicActionError::Pending) => r is Wait,
            Err(e) => r == StreamAttemptStep::<S>::Discard(e),
        },
{
    match res {
        Ok(Some(s)) => StreamAttemptStep::Spawn(s),
        Ok(None) => StreamAttemptStep::Despawn,
        Err(QuicActionError::Pending) => StreamAttemptStep::Wait,
        Err(e) => StreamAttemptStep::Discard(e),
    }
}

/// The error recorded on an entity when one of its attempts fails, with the
/// time at which the synchronous side received it.
#[derive(Debug)]
pub struct QuicActionErrorComponent {
    error: QuicActionError,
    timestamp: SystemTime,
}

impl Clone for QuicActionErrorComponent {
    fn clone(&self) -> (r: Self)
        ensures
            r == *self,
    {
        QuicActionErrorComponent { error: self.error.clone(), timestamp: self.timestamp }
    }
}

impl QuicActionErrorComponent {
    /// The recorded error.
    pub closed spec fn spec_error(self) -> QuicActionError {
        self.error
    }

    /// The recorded time.
    pub closed spec fn spec_timestamp(self) -> SystemTime {
        self.timestamp
    }

    pub fn new(error: QuicActionError, timestamp: SystemTime) -> (r: Self)
        ensures
            r.spec_error() == error,
            r.spec_timestamp() == timestamp,
    {
        Self { error, timestamp }
    }

    pub fn error(&self) -> (r: &QuicActionError)
        ensures
            *r == self.spec_error(),
    {
        &self.error
    }

    /// The time at which this error was received by the synchronous side.
    pub fn timestamp(&self) -> (r: &SystemTime)
        ensures
            *r == self.spec_timestamp(),
    {
        &self.timestamp
    }
}

} // verus!
