use bevy_s2n_quic::common::attempt::{
    connection_attempt_step, stream_attempt_step, ConnectionAttemptStep, QuicActionAttempt,
    QuicActionError, StreamAttemptStep, TaskError, TaskPoll, TaskResult,
};
use bevy_s2n_quic::common::connection::disconnect::{ConnectionErrorKind, ConnectionFailure};
use std::collections::VecDeque;

/// Hands out a scripted sequence of resolutions, then `None` forever.
struct Scripted {
    script: VecDeque<Option<Result<u32, TaskError>>>,
    calls: usize,
}

impl TaskResult<u32> for Scripted {
    fn resolve_result(&mut self) -> Option<Result<u32, TaskError>> {
        self.calls += 1;
        self.script.pop_front().unwrap_or(None)
    }
}

fn scripted(items: Vec<Option<Result<u32, TaskError>>>) -> Scripted {
    Scripted { script: items.into_iter().collect(), calls: 0 }
}

fn failure() -> ConnectionFailure {
    ConnectionFailure {
        kind: ConnectionErrorKind::IdleTimerExpired,
        description: "idle".to_string(),
    }
}

#[test]
fn pending_then_value_then_consumed() {
    let mut attempt = QuicActionAttempt::new(scripted(vec![None, Some(Ok(5)), Some(Ok(6))]), 9u8);
    assert!(matches!(attempt.attempt_result(), Err(QuicActionError::Pending)));
    assert_eq!(attempt.attempt_result().unwrap(), 5);
    assert!(matches!(attempt.attempt_result(), Err(QuicActionError::Consumed)));
    assert!(matches!(attempt.attempt_result(), Err(QuicActionError::Consumed)));
    assert_eq!(attempt.id(), 9);
}

#[test]
fn connection_failure_is_sticky() {
    let mut attempt = QuicActionAttempt::new(
        scripted(vec![Some(Err(TaskError::ConnectionFailed(failure()))), Some(Ok(1))]),
        0u8,
    );
    for _ in 0..3 {
        match attempt.attempt_result() {
            Err(QuicActionError::ConnectionFailed(f)) => {
                assert_eq!(f.kind, ConnectionErrorKind::IdleTimerExpired);
                assert_eq!(f.description, "idle");
            }
            _ => panic!("expected the connection failure"),
        }
    }
}

#[test]
fn crash_is_reported_and_task_not_consulted_again() {
    let mut attempt =
        QuicActionAttempt::new(scripted(vec![Some(Err(TaskError::TaskFailed("boom".into())))]), 0u8);
    assert!(matches!(attempt.attempt_result(), Err(QuicActionError::Crashed(ref d)) if d == "boom"));
    assert!(matches!(attempt.attempt_result(), Err(QuicActionError::Crashed(ref d)) if d == "boom"));
}

#[test]
fn settle_follows_the_resolution() {
    let mut attempt = QuicActionAttempt::new(scripted(vec![]), 0u8);
    assert!(matches!(attempt.settle(None), Err(QuicActionError::Pending)));
    assert_eq!(attempt.settle(Some(Ok(3))).unwrap(), 3);
    assert!(matches!(attempt.settle(Some(Ok(4))), Err(QuicActionError::Consumed)));
}

#[test]
fn task_poll_resolutions() {
    let p: TaskPoll<Result<u32, TaskError>> = TaskPoll::Pending;
    assert!(p.into_resolution().is_none());
    let r: TaskPoll<Result<u32, TaskError>> = TaskPoll::Ready(Ok(2));
    assert!(matches!(r.into_resolution(), Some(Ok(2))));
    let f: TaskPoll<Result<u32, TaskError>> = TaskPoll::Failed("channel closed".into());
    assert!(matches!(f.into_resolution(), Some(Err(TaskError::TaskFailed(ref d))) if d == "channel closed"));
}

#[test]
fn attempt_steps() {
    assert!(matches!(connection_attempt_step::<u8>(Err(QuicActionError::Pending)), ConnectionAttemptStep::Wait));
    assert!(matches!(
        connection_attempt_step::<u8>(Err(QuicActionError::Consumed)),
        ConnectionAttemptStep::Discard(QuicActionError::Consumed)
    ));
    assert!(matches!(connection_attempt_step(Ok(4u8)), ConnectionAttemptStep::Establish(4)));
    assert!(matches!(stream_attempt_step::<u8>(Ok(None)), StreamAttemptStep::Despawn));
    assert!(matches!(stream_attempt_step(Ok(Some(1u8))), StreamAttemptStep::Spawn(1)));
    assert!(matches!(stream_attempt_step::<u8>(Err(QuicActionError::Pending)), StreamAttemptStep::Wait));
    assert!(matches!(
        stream_attempt_step::<u8>(Err(QuicActionError::Crashed("x".into()))),
        StreamAttemptStep::Discard(QuicActionError::Crashed(_))
    ));
}

#[test]
fn oneshot_receiver_as_task_result() {
    let (tx, mut rx) = tokio::sync::oneshot::channel::<Result<u32, TaskError>>();
    assert!(rx.resolve_result().is_none());
    tx.send(Ok(11)).unwrap();
    assert!(matches!(rx.resolve_result(), Some(Ok(11))));
}

#[test]
fn oneshot_dropped_sender_stays_pending() {
    let (tx, mut rx) = tokio::sync::oneshot::channel::<Result<u32, TaskError>>();
    drop(tx);
    assert!(rx.resolve_result().is_none());
}

#[test]
fn task_error_from_connection_failure() {
    let e: TaskError = failure().into();
    assert!(matches!(e, TaskError::ConnectionFailed(ref f) if f.kind == ConnectionErrorKind::IdleTimerExpired));
}
