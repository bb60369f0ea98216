use bevy_s2n_quic::common::connection::disconnect::{
    ConnectionDisconnectReason, ConnectionErrorDisconnected, ConnectionErrorKind, ConnectionFailure,
};
use bevy_s2n_quic::common::disconnect::{DisconnectCause, SessionDisconnect};
use bevy_s2n_quic::common::error_code::{ApplicationErrorCode, MAX_ERROR_CODE};
use bevy_s2n_quic::common::status_code::StatusCode;
use bevy_s2n_quic::common::stream::disconnect::StreamDisconnectReason;

fn by_error(s: SessionDisconnect) -> String {
    match s {
        SessionDisconnect::ByError(m) => m,
        other => panic!("expected an error, got {other:?}"),
    }
}

#[test]
fn status_codes() {
    assert_eq!(StatusCode::OK.code(), 200);
    assert_eq!(u32::from(StatusCode::InternalServerError), 500);
    assert_eq!(u32::from(StatusCode::ServiceUnavailable), 503);
    assert_eq!(StatusCode::ServiceUnavailable.application_error().code(), 503);
}

#[test]
fn application_error_code_range() {
    assert!(ApplicationErrorCode::new(MAX_ERROR_CODE).is_some());
    assert!(ApplicationErrorCode::new(MAX_ERROR_CODE + 1).is_none());
    assert!(ApplicationErrorCode::new(u64::MAX).is_none());
    assert_eq!(ApplicationErrorCode::unknown().code(), 0);
    assert_eq!(
        ApplicationErrorCode::new(503).unwrap().display_string(),
        "QUIC application error code: 503"
    );
}

#[test]
fn closing_error_kinds() {
    for k in [ConnectionErrorKind::Closed, ConnectionErrorKind::Transport, ConnectionErrorKind::Application, ConnectionErrorKind::EndpointClosing, ConnectionErrorKind::IdleTimerExpired, ConnectionErrorKind::NoValidPath] {
        assert!(k.is_closed(), "{k:?}");
    }
    for k in [
        ConnectionErrorKind::StatelessReset,
        ConnectionErrorKind::StreamIdExhausted,
        ConnectionErrorKind::MaxHandshakeDurationExceeded,
        ConnectionErrorKind::ImmediateClose,
        ConnectionErrorKind::InvalidConfiguration,
        ConnectionErrorKind::Unspecified,
    ] {
        assert!(!k.is_closed(), "{k:?}");
    }
    let f = ConnectionFailure { kind: ConnectionErrorKind::NoValidPath, description: "x".into() };
    assert!(f.is_closed());
}

#[test]
fn connection_reason_messages() {
    match ConnectionDisconnectReason::UserClosed.to_session_disconnect() {
        SessionDisconnect::ByUser(m) => assert_eq!(m, "Send stream stopped by self."),
        _ => panic!(),
    }
    match ConnectionDisconnectReason::PeerClosed.to_session_disconnect() {
        SessionDisconnect::ByPeer(m) => assert_eq!(m, "Connection closed by peer."),
        _ => panic!(),
    }
    let reset = ConnectionDisconnectReason::Reset(ApplicationErrorCode::new(7).unwrap());
    assert_eq!(
        by_error(reset.to_session_disconnect()),
        "Connection closed by reset with code: QUIC application error code: 7"
    );
    assert_eq!(
        by_error(ConnectionDisconnectReason::InvalidStream.to_session_disconnect()),
        "Stream is no longer valid"
    );
    let err = ConnectionDisconnectReason::ConnectionError(ConnectionFailure {
        kind: ConnectionErrorKind::Unspecified,
        description: "oops".into(),
    });
    assert_eq!(
        by_error(err.to_session_disconnect()),
        "Connection has been closed due to a connection error: oops"
    );
    let chan = ConnectionDisconnectReason::MspcChannelClosed { channel_name: "cmd" };
    assert_eq!(
        by_error(chan.to_session_disconnect()),
        "Connection was closed due to IPC channel \"cmd\" being closed"
    );
    assert_eq!(
        by_error(ConnectionDisconnectReason::OrchestratorError.to_session_disconnect()),
        "Orchestrator is unable to handle the connection"
    );
    let internal = ConnectionDisconnectReason::from_internal_error("bad".into());
    assert_eq!(
        by_error(internal.to_session_disconnect()),
        "Connection was closed due to an internal error: bad"
    );
}

#[test]
fn stream_reason_messages() {
    match StreamDisconnectReason::PeerClosed.to_session_disconnect() {
        SessionDisconnect::ByPeer(m) => assert_eq!(m, "Stream closed by peer."),
        _ => panic!(),
    }
    match StreamDisconnectReason::UserClosed.to_session_disconnect() {
        SessionDisconnect::ByUser(m) => assert_eq!(m, "Send stream stopped by self."),
        _ => panic!(),
    }
    assert_eq!(
        by_error(StreamDisconnectReason::ResourceError.to_session_disconnect()),
        "Stream was closed due to a resource error"
    );
    assert_eq!(
        by_error(StreamDisconnectReason::NoReason.to_session_disconnect()),
        "Stream was closed without reason, this is a bug :("
    );
    let chan = StreamDisconnectReason::MspcChannelClosed { channel_name: "Control channel" };
    assert_eq!(
        by_error(chan.to_session_disconnect()),
        "Stream was closed due to an IPC channel \"Control channel\" being closed"
    );
    let reset = StreamDisconnectReason::Reset(ApplicationErrorCode::new(0).unwrap());
    assert_eq!(
        by_error(reset.to_session_disconnect()),
        "Stream closed by reset with code: QUIC application error code: 0"
    );
    let internal = StreamDisconnectReason::from_internal_error("io".into());
    assert_eq!(
        by_error(internal.to_session_disconnect()),
        "Stream was closed due to an internal error: io"
    );
    let err = StreamDisconnectReason::ConnectionError(ConnectionFailure {
        kind: ConnectionErrorKind::Closed,
        description: "gone".into(),
    });
    assert_eq!(
        by_error(err.to_session_disconnect()),
        "Stream has been closed due to a connection error: gone"
    );
    assert_eq!(
        by_error(StreamDisconnectReason::InvalidStream.to_session_disconnect()),
        "Stream is no longer valid"
    );
}
