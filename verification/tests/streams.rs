use bevy_s2n_quic::common::attempt::{QuicActionError, TaskError};
use bevy_s2n_quic::common::channel::{OfferOutcome, SendRefusal};
use bevy_s2n_quic::common::connection::disconnect::ConnectionDisconnectReason;
use bevy_s2n_quic::common::connection::id::ConnectionId;
use bevy_s2n_quic::common::connection::open_flag::OpenFlag;
use bevy_s2n_quic::common::connection::stream_flag::StreamFlag;
use bevy_s2n_quic::common::connection::task::{ConnectionCommand, ConnectionCommandError, PeerStreamOf};
use bevy_s2n_quic::common::connection::{CloseOutcome, QuicConnection};
use bevy_s2n_quic::common::error_code::ApplicationErrorCode;
use bevy_s2n_quic::common::orchestrator::handle::OrchestratorHandle;
use bevy_s2n_quic::common::orchestrator::QuicTask;
use bevy_s2n_quic::common::stream::disconnect::StreamDisconnectReason;
use bevy_s2n_quic::common::stream::id::StreamId;
use bevy_s2n_quic::common::stream::receive::{QuicReceiveStream, RecControlMessage};
use bevy_s2n_quic::common::stream::send::{after_push, QuicSendStream, SendControlMessage};
use bevy_s2n_quic::common::stream::QuicPeerStream;
use bevy_s2n_quic::common::task_state::OnceLockState;
use bevy_s2n_quic::common::{QuicParentId, QuicParentType};
use bytes::Bytes;
use std::sync::Arc;
use tokio::sync::mpsc;

fn stream_id() -> StreamId {
    StreamId::new(ConnectionId::new(2, QuicParentId::new(1, QuicParentType::Client)), 4)
}

struct SendParts {
    stream: QuicSendStream,
    data_rx: mpsc::Receiver<Bytes>,
    control_rx: mpsc::Receiver<SendControlMessage>,
    errors_tx: mpsc::Sender<String>,
    state: OnceLockState<ConnectionDisconnectReason>,
    _rt: tokio::runtime::Runtime,
}

fn send_stream(capacity: usize, orchestrator_capacity: usize) -> (SendParts, Option<u16>) {
    let rt = tokio::runtime::Builder::new_current_thread().build().unwrap();
    let (orch_tx, orch_rx) = mpsc::channel::<QuicTask<u8, u16, u32>>(orchestrator_capacity);
    std::mem::forget(orch_rx);
    let orchestrator = OrchestratorHandle::new(orch_tx, rt.handle().clone());
    let (data_tx, data_rx) = mpsc::channel(capacity);
    let (control_tx, control_rx) = mpsc::channel(4);
    let (errors_tx, errors_rx) = mpsc::channel(4);
    let state = OnceLockState::new();
    let (stream, refused, offer) = QuicSendStream::new(
        &orchestrator,
        7u16,
        state.clone(),
        data_tx,
        control_tx,
        errors_rx,
        stream_id(),
    );
    assert_eq!(offer.outcome() == OfferOutcome::Accepted, refused.is_none());
    (SendParts { stream, data_rx, control_rx, errors_tx, state, _rt: rt }, refused)
}

#[test]
fn send_many_drain_sends_until_full() {
    let (mut parts, refused) = send_stream(2, 4);
    assert!(refused.is_none());
    let mut data: Vec<Bytes> = vec![Bytes::from_static(b"a"), Bytes::from_static(b"b"), Bytes::from_static(b"c"), Bytes::from_static(b"d")];
    let (answer, offers) = parts.stream.send_many_drain(&mut data);
    match answer {
        Err(SendRefusal::Full(b)) => assert_eq!(&b[..], b"c"),
        other => panic!("unexpected {other:?}"),
    }
    let outcomes: Vec<OfferOutcome> = offers.iter().map(|o| o.outcome()).collect();
    assert_eq!(outcomes, vec![OfferOutcome::Accepted, OfferOutcome::Accepted, OfferOutcome::Full]);
    assert_eq!(data, vec![Bytes::from_static(b"c"), Bytes::from_static(b"d")]);
    assert_eq!(&parts.data_rx.try_recv().unwrap()[..], b"a");
    assert_eq!(&parts.data_rx.try_recv().unwrap()[..], b"b");
    let (answer, offers) = parts.stream.send_many_drain(&mut data);
    assert!(answer.is_ok());
    assert_eq!(offers.len(), 2);
    assert!(data.is_empty());
    assert_eq!(&parts.data_rx.try_recv().unwrap()[..], b"c");
    assert_eq!(&parts.data_rx.try_recv().unwrap()[..], b"d");
}

#[test]
fn send_many_drain_empty_is_ok() {
    let (mut parts, _) = send_stream(2, 4);
    let mut data: Vec<Bytes> = vec![];
    let (answer, offers) = parts.stream.send_many_drain(&mut data);
    assert!(answer.is_ok());
    assert!(offers.is_empty());
}

#[test]
fn send_stream_operations() {
    let (mut parts, _) = send_stream(1, 4);
    assert!(parts.stream.is_open());
    let (answer, offer) = parts.stream.send(Bytes::from_static(b"x"));
    assert!(answer.is_ok());
    assert_eq!(offer.outcome(), OfferOutcome::Accepted);
    let (answer, offer) = parts.stream.send(Bytes::from_static(b"y"));
    match answer {
        Err(SendRefusal::Full(b)) => assert_eq!(&b[..], b"y"),
        other => panic!("unexpected {other:?}"),
    }
    assert_eq!(offer.outcome(), OfferOutcome::Full);
    assert_eq!(&parts.data_rx.try_recv().unwrap()[..], b"x");
    assert!(parts.stream.control_sender().try_send(SendControlMessage::Flush).is_ok());
    assert_eq!(parts.control_rx.try_recv().unwrap(), SendControlMessage::Flush);
    parts.errors_tx.try_send("broken pipe".into()).unwrap();
    assert_eq!(parts.stream.next_outstanding_error().as_deref(), Some("broken pipe"));
    assert!(parts.stream.next_outstanding_error().is_none());
    assert_eq!(parts.stream.id(), stream_id());
    assert_eq!(parts.stream.parent_id(), QuicParentId::new(1, QuicParentType::Client));
    assert!(parts.stream.get_disconnect_reason().is_none());
    parts.state.set(ConnectionDisconnectReason::UserClosed).0.unwrap();
    assert!(!parts.stream.is_open());
    assert!(matches!(parts.stream.get_disconnect_reason(), Some(ConnectionDisconnectReason::UserClosed)));
    drop(parts.control_rx);
    assert!(parts.stream.control_sender().try_send(SendControlMessage::CloseAndQuit).is_err());
}

#[test]
fn refused_send_task_is_handed_back() {
    let (mut parts, refused) = send_stream(1, 1);
    // The orchestrator channel had room for the task.
    assert!(refused.is_none());
    let (mut parts2, refused2, offer2) = {
        let rt = tokio::runtime::Builder::new_current_thread().build().unwrap();
        let (orch_tx, orch_rx) = mpsc::channel::<QuicTask<u8, u16, u32>>(1);
        drop(orch_rx);
        let orchestrator = OrchestratorHandle::new(orch_tx, rt.handle().clone());
        let (data_tx, _data_rx) = mpsc::channel(1);
        let (control_tx, _control_rx) = mpsc::channel(1);
        let (_errors_tx, errors_rx) = mpsc::channel(1);
        QuicSendStream::new(&orchestrator, 9u16, OnceLockState::new(), data_tx, control_tx, errors_rx, stream_id())
    };
    assert_eq!(refused2, Some(9));
    assert_eq!(offer2.outcome(), OfferOutcome::Closed);
    assert!(!parts2.is_open());
    assert!(matches!(parts2.get_disconnect_reason(), Some(ConnectionDisconnectReason::OrchestratorError)));
    assert!(parts.stream.is_open());
}

#[test]
fn receive_stream_operations() {
    let (in_tx, in_rx) = mpsc::channel(4);
    let (ctl_tx, mut ctl_rx) = mpsc::channel(4);
    let (err_tx, err_rx) = mpsc::channel(4);
    let mut state: OnceLockState<StreamDisconnectReason> = OnceLockState::new();
    let mut stream = QuicReceiveStream::new(state.clone(), in_rx, ctl_tx, err_rx, stream_id());
    assert!(stream.recv().is_none());
    for payload in [&b"p1"[..], b"p2", b"p3"] {
        in_tx
            .try_send(aeronet_io::packet::RecvPacket {
                recv_at: std::time::Instant::now(),
                payload: Bytes::copy_from_slice(payload),
            })
            .unwrap();
    }
    assert_eq!(&stream.recv().unwrap().payload[..], b"p1");
    assert_eq!(&stream.inbound_data_mut().try_recv().unwrap().payload[..], b"p2");
    assert_eq!(&stream.recv().unwrap().payload[..], b"p3");
    assert!(stream.recv().is_none());
    assert_eq!(stream.id(), stream_id());
    let code = ApplicationErrorCode::new(8).unwrap();
    assert!(stream.control_sender().try_send(RecControlMessage::StopSend(code)).is_ok());
    assert_eq!(ctl_rx.try_recv().unwrap(), RecControlMessage::StopSend(code));
    err_tx.try_send("reset".into()).unwrap();
    assert_eq!(stream.next_outstanding_error().as_deref(), Some("reset"));
    assert!(stream.is_open());
    state.set(StreamDisconnectReason::PeerClosed).0.unwrap();
    assert!(!stream.is_open());
    assert!(matches!(stream.get_disconnect_reason(), Some(StreamDisconnectReason::PeerClosed)));
    assert_eq!(stream.id(), stream_id());
    drop(ctl_rx);
    assert!(stream.control_sender().try_send(RecControlMessage::StopSend(code)).is_err());
}

#[test]
fn peer_stream_from_halves() {
    let (_in_tx, in_rx) = mpsc::channel(1);
    let (ctl_tx, _ctl_rx) = mpsc::channel(1);
    let (_err_tx, err_rx) = mpsc::channel(1);
    let rec = QuicReceiveStream::new(OnceLockState::new(), in_rx, ctl_tx, err_rx, stream_id());
    assert!(matches!(QuicPeerStream::new(PeerStreamOf::Receive(rec)), QuicPeerStream::Receive(_)));
}

#[test]
fn connection_accept_and_close() {
    let rt = tokio::runtime::Builder::new_current_thread().build().unwrap();
    let (cmd_tx, mut cmd_rx) = mpsc::channel(1);
    let pending = Arc::new(StreamFlag::new(true));
    let conn_id = ConnectionId::new(5, QuicParentId::new(1, QuicParentType::Server));
    let mut state: OnceLockState<ConnectionDisconnectReason> = OnceLockState::new();
    let mut conn = QuicConnection::new(
        rt.handle().clone(),
        (),
        (),
        state.clone(),
        cmd_tx,
        OpenFlag::new(true),
        conn_id,
        pending.clone(),
    );
    assert!(conn.is_open());
    assert!(conn.should_poll_accept());
    let (answer, offer) = conn.accept_stream();
    let mut attempt = answer.ok().unwrap();
    assert_eq!(offer.outcome(), OfferOutcome::Accepted);
    assert!(!pending.get());
    assert!(!conn.should_poll_accept());
    assert_eq!(attempt.0.id(), conn_id);
    assert!(matches!(attempt.0.attempt_result(), Err(QuicActionError::Pending)));
    // The channel holds one command: the next accept is refused as full.
    let (answer, offer) = conn.accept_receive_stream();
    assert!(matches!(answer.err(), Some(ConnectionCommandError::Full)));
    assert_eq!(offer.outcome(), OfferOutcome::Full);
    match cmd_rx.try_recv().unwrap() {
        ConnectionCommand::Accept { respond_to } => {
            respond_to.send(Ok(None)).ok().unwrap();
        }
        _ => panic!("expected an accept"),
    }
    assert!(matches!(attempt.0.attempt_result(), Ok(None)));
    assert!(matches!(attempt.0.attempt_result(), Err(QuicActionError::Consumed)));

    let code = ApplicationErrorCode::new(9).unwrap();
    let (outcome, offer) = conn.offer_close(code);
    assert_eq!(outcome, CloseOutcome::Requested);
    assert_eq!(offer.unwrap().outcome(), OfferOutcome::Accepted);
    assert!(matches!(cmd_rx.try_recv().unwrap(), ConnectionCommand::Close(c) if c == code));
    let _ = conn.accept_bidirectional_stream().0.ok().unwrap();
    let (outcome, offer) = conn.offer_close(code);
    assert_eq!(outcome, CloseOutcome::ForcedChannelFull);
    assert!(outcome.forces_close());
    assert_eq!(offer.unwrap().outcome(), OfferOutcome::Full);
    drop(cmd_rx);
    let (answer, offer) = conn.accept_stream();
    assert!(matches!(answer.err(), Some(ConnectionCommandError::Closed)));
    assert_eq!(offer.outcome(), OfferOutcome::Closed);
    assert_eq!(conn.offer_close(code).0, CloseOutcome::ForcedChannelClosed);
    conn.open_flag().set_closed();
    assert!(!conn.is_open());
    let (outcome, offer) = conn.offer_close(code);
    assert_eq!(outcome, CloseOutcome::NotOpen);
    assert!(offer.is_none());
    state.set(ConnectionDisconnectReason::PeerClosed).0.unwrap();
    assert!(matches!(conn.get_disconnect_reason(), Some(ConnectionDisconnectReason::PeerClosed)));
    assert_eq!(conn.id(), conn_id);
    assert_eq!(conn.parent_id(), conn_id.parent_id());
}

#[test]
fn accept_answered_with_failure() {
    let (cmd_tx, mut cmd_rx) = mpsc::channel(2);
    let rt = tokio::runtime::Builder::new_current_thread().build().unwrap();
    let mut conn = QuicConnection::new(
        rt.handle().clone(),
        (),
        (),
        OnceLockState::new(),
        cmd_tx,
        OpenFlag::new(true),
        ConnectionId::new(1, QuicParentId::new(1, QuicParentType::Client)),
        Arc::new(StreamFlag::new(false)),
    );
    let mut attempt = conn.accept_receive_stream().0.ok().unwrap();
    match cmd_rx.try_recv().unwrap() {
        ConnectionCommand::AcceptReceive { respond_to } => {
            respond_to.send(Err(TaskError::TaskFailed("gone".into()))).ok().unwrap();
        }
        _ => panic!("expected a receive accept"),
    }
    assert!(matches!(attempt.0.attempt_result(), Err(QuicActionError::Crashed(ref d)) if d == "gone"));
    assert!(matches!(attempt.0.attempt_result(), Err(QuicActionError::Crashed(_))));
}

#[test]
fn close_outcome_from_channel_answer() {
    let ok: Result<(), SendRefusal<u8>> = Ok(());
    assert_eq!(CloseOutcome::from_send(&ok), CloseOutcome::Requested);
    assert!(!CloseOutcome::from_send(&ok).forces_close());
    let full: Result<(), SendRefusal<u8>> = Err(SendRefusal::Full(1));
    assert_eq!(CloseOutcome::from_send(&full), CloseOutcome::ForcedChannelFull);
    assert!(CloseOutcome::from_send(&full).forces_close());
    let closed: Result<(), SendRefusal<u8>> = Err(SendRefusal::Closed(1));
    assert_eq!(CloseOutcome::from_send(&closed), CloseOutcome::ForcedChannelClosed);
    assert!(CloseOutcome::from_send(&closed).forces_close());
    assert!(!CloseOutcome::NotOpen.forces_close());
}

#[test]
fn after_push_steps() {
    let (task, reason) = after_push::<u8>(Ok(()));
    assert!(task.is_none() && reason.is_none());
    let (task, reason) = after_push(Err(SendRefusal::Full(5u8)));
    assert_eq!(task, Some(5));
    assert!(matches!(reason, Some(ConnectionDisconnectReason::OrchestratorError)));
    let (task, _) = after_push(Err(SendRefusal::Closed(6u8)));
    assert_eq!(task, Some(6));
}
