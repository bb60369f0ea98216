use bevy_s2n_quic::common::channel::OfferOutcome;
use bevy_s2n_quic::common::attempt::TaskError;
use bevy_s2n_quic::common::connection::disconnect::{
    ConnectionDisconnectReason, ConnectionErrorKind, ConnectionFailure,
};
use bevy_s2n_quic::common::connection::task::{
    CommandAction, ConnectionCommand, ConnectionTaskCore, IncomingOutcome, IncomingReply,
    PeerStreamOf, PollPlan, ProbeOutcome,
};
use bevy_s2n_quic::common::error_code::ApplicationErrorCode;
use bevy_s2n_quic::common::stream::disconnect::{StreamDisconnectReason, StreamErrorKind, StreamFailure};
use bevy_s2n_quic::common::stream::receive::{RecControlMessage, RecTaskCore, TransferOutcome};
use bevy_s2n_quic::common::stream::send::{SendControlAction, SendControlMessage, SendTaskCore};

type Cmd = ConnectionCommand<u8, u16, u32>;

fn failure(kind: ConnectionErrorKind) -> ConnectionFailure {
    ConnectionFailure { kind, description: "f".into() }
}

#[test]
fn buffered_stream_is_handed_to_accept() {
    let mut core: ConnectionTaskCore<&str, (i32, i32)> = ConnectionTaskCore::new();
    assert_eq!(core.poll_plan(), PollPlan::AwaitCommandOrStream);
    let reply = core.on_incoming(IncomingOutcome::Stream(PeerStreamOf::Receive("r")));
    assert_eq!(reply, IncomingReply { raise_pending_flag: true, mark_closed: false });
    assert_eq!(core.poll_plan(), PollPlan::AwaitCommand);
    match core.on_command(Cmd::Accept { respond_to: 1 }) {
        CommandAction::DeliverPeer { respond_to: 1, stream: PeerStreamOf::Receive("r") } => {}
        _ => panic!("expected the buffered stream"),
    }
    assert_eq!(core.poll_plan(), PollPlan::AwaitCommandOrStream);
    assert!(matches!(core.on_command(Cmd::Accept { respond_to: 2 }), CommandAction::DeliverNoPeer { respond_to: 2 }));
}

#[test]
fn wrong_kind_stays_buffered_and_right_kind_is_delivered() {
    let mut core: ConnectionTaskCore<&str, (i32, i32)> = ConnectionTaskCore::new();
    core.on_incoming(IncomingOutcome::Stream(PeerStreamOf::Bidirectional((1, 2))));
    assert!(matches!(core.on_command(Cmd::AcceptReceive { respond_to: 5 }), CommandAction::ProbeReceive { respond_to: 5 }));
    assert_eq!(core.poll_plan(), PollPlan::AwaitCommand);
    match core.on_command(Cmd::AcceptBidirectional { respond_to: 6 }) {
        CommandAction::DeliverBidirectional { respond_to: 6, stream: (1, 2) } => {}
        _ => panic!("expected the bidirectional stream"),
    }
    assert!(matches!(core.on_command(Cmd::AcceptBidirectional { respond_to: 7 }), CommandAction::ProbeBidirectional { respond_to: 7 }));
    let code = ApplicationErrorCode::new(3).unwrap();
    assert!(matches!(core.on_command(Cmd::Close(code)), CommandAction::CloseConnection(c) if c == code));
}

#[test]
fn probe_outcomes() {
    let mut core: ConnectionTaskCore<u8, u8> = ConnectionTaskCore::new();
    let r = core.on_probe_outcome::<u8>(ProbeOutcome::TimedOut);
    assert!(matches!(r.response, Ok(None)) && !r.mark_closed);
    let r = core.on_probe_outcome(ProbeOutcome::Accepted(Some(9u8)));
    assert!(matches!(r.response, Ok(Some(9))) && !r.mark_closed);
    assert!(!core.is_disconnected());
    let r = core.on_probe_outcome::<u8>(ProbeOutcome::Failed(failure(ConnectionErrorKind::Closed)));
    assert!(matches!(r.response, Err(TaskError::ConnectionFailed(_))));
    assert!(r.mark_closed);
    assert_eq!(core.poll_plan(), PollPlan::Finished);
    assert!(matches!(core.publication(), Some(ConnectionDisconnectReason::ConnectionError(_))));
}

#[test]
fn probe_failure_that_does_not_close() {
    let mut core: ConnectionTaskCore<u8, u8> = ConnectionTaskCore::new();
    let r = core.on_probe_outcome::<u8>(ProbeOutcome::Failed(failure(ConnectionErrorKind::StatelessReset)));
    assert!(!r.mark_closed);
    assert!(core.is_disconnected());
}

#[test]
fn peer_close_and_failures_end_the_connection() {
    let mut core: ConnectionTaskCore<u8, u8> = ConnectionTaskCore::new();
    assert!(core.publication().is_none());
    core.on_incoming(IncomingOutcome::PeerClosed);
    assert!(matches!(core.publication(), Some(ConnectionDisconnectReason::PeerClosed)));
    assert!(matches!(core.final_reason(), ConnectionDisconnectReason::PeerClosed));

    let mut core: ConnectionTaskCore<u8, u8> = ConnectionTaskCore::new();
    let reply = core.on_incoming(IncomingOutcome::Failed(failure(ConnectionErrorKind::IdleTimerExpired)));
    assert!(reply.mark_closed && !reply.raise_pending_flag);

    let mut core: ConnectionTaskCore<u8, u8> = ConnectionTaskCore::new();
    core.on_command_channel_closed();
    match core.final_reason() {
        ConnectionDisconnectReason::MspcChannelClosed { channel_name } => {
            assert_eq!(channel_name, "Connection command channel")
        }
        other => panic!("unexpected {other:?}"),
    }
}

#[test]
fn missing_reason_is_reported() {
    let core: ConnectionTaskCore<u8, u8> = ConnectionTaskCore::new();
    match core.final_reason() {
        ConnectionDisconnectReason::InternalError(m) => {
            assert_eq!(m, "Connection task exited without a given reason. This is a bug!")
        }
        other => panic!("unexpected {other:?}"),
    }
}

fn stream_failure(kind: StreamErrorKind) -> StreamFailure {
    StreamFailure { kind, description: "e".into() }
}

#[test]
fn send_task_decisions() {
    let mut core = SendTaskCore::new();
    core.on_batch_received(3);
    assert!(!core.is_disconnected());
    assert_eq!(core.on_control(SendControlMessage::Flush), SendControlAction::FlushStream);
    assert!(!core.is_disconnected());
    core.on_write_error(&stream_failure(StreamErrorKind::SendingBlocked));
    assert!(!core.is_disconnected());
    let code = ApplicationErrorCode::new(12).unwrap();
    core.on_write_error(&stream_failure(StreamErrorKind::StreamReset(code)));
    assert!(matches!(core.publication(), Some(ConnectionDisconnectReason::Reset(c)) if c == code));

    let mut core = SendTaskCore::new();
    core.on_batch_received(0);
    assert!(matches!(core.publication(), Some(ConnectionDisconnectReason::MspcChannelClosed { channel_name: "Outbound channel" })));
    core.on_write_error(&stream_failure(StreamErrorKind::SendAfterFinish));
    assert!(matches!(core.publication(), Some(ConnectionDisconnectReason::InvalidStream)));

    let mut core = SendTaskCore::new();
    assert_eq!(core.on_control(SendControlMessage::CloseAndQuit), SendControlAction::CloseStream);
    assert!(matches!(core.publication(), Some(ConnectionDisconnectReason::UserClosed)));

    let mut core = SendTaskCore::new();
    core.on_control_channel_closed();
    assert!(matches!(core.publication(), Some(ConnectionDisconnectReason::MspcChannelClosed { channel_name: "Control channel" })));
}

#[test]
fn receive_task_decisions() {
    let mut core = RecTaskCore::new();
    assert!(!core.on_transfer(TransferOutcome::Delivered));
    assert!(core.on_transfer(TransferOutcome::Full));
    assert!(!core.should_stop());
    core.on_read(true);
    assert!(!core.should_stop());
    core.on_read_error(&stream_failure(StreamErrorKind::NonReadable));
    assert!(!core.should_stop());
    core.on_read_error(&stream_failure(StreamErrorKind::InvalidStream));
    assert!(matches!(core.final_reason(), StreamDisconnectReason::InvalidStream));

    let mut core = RecTaskCore::new();
    assert!(core.on_transfer(TransferOutcome::Closed));
    core.on_read(false);
    assert!(matches!(core.final_reason(), StreamDisconnectReason::PeerClosed));

    let mut core = RecTaskCore::new();
    let code = ApplicationErrorCode::new(4).unwrap();
    assert_eq!(core.on_control(RecControlMessage::StopSend(code)), code);
    assert!(matches!(core.final_reason(), StreamDisconnectReason::UserClosed));

    let core = RecTaskCore::new();
    assert!(matches!(core.final_reason(), StreamDisconnectReason::NoReason));

    let mut core = RecTaskCore::new();
    core.on_read_error(&stream_failure(StreamErrorKind::ConnectionError(failure(ConnectionErrorKind::Closed))));
    assert!(matches!(core.final_reason(), StreamDisconnectReason::ConnectionError(_)));
}

#[test]
fn receive_batch_delivery() {
    let (tx, mut rx) = tokio::sync::mpsc::channel::<u8>(2);
    let mut core = RecTaskCore::new();
    let delivery = core.deliver_batch(&tx, vec![1, 2, 3]);
    assert_eq!(delivery.dropped, 1);
    let outcomes: Vec<OfferOutcome> = delivery.offers.iter().map(|o| o.outcome()).collect();
    assert_eq!(outcomes, vec![OfferOutcome::Accepted, OfferOutcome::Accepted, OfferOutcome::Full]);
    assert!(!core.should_stop());
    assert_eq!(rx.try_recv().unwrap(), 1);
    assert_eq!(rx.try_recv().unwrap(), 2);
    drop(rx);
    let delivery = core.deliver_batch(&tx, vec![4]);
    assert_eq!(delivery.dropped, 1);
    assert_eq!(delivery.offers[0].outcome(), OfferOutcome::Closed);
    match core.final_reason() {
        StreamDisconnectReason::MspcChannelClosed { channel_name } => {
            assert_eq!(channel_name, "Inbound receive channel")
        }
        other => panic!("unexpected {other:?}"),
    }
}
