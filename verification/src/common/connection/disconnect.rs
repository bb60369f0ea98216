//! Connection errors and the reasons for which a connection ends.
use crate::common::disconnect::{DisconnectCause, SessionDisconnect, SessionDisconnectView};
use crate::common::error_code::ApplicationErrorCode;
use crate::common::text::join2;
use vstd::prelude::*;
use vstd::string::StringExecFns;

verus! {

/// The kinds of error a QUIC connection can encounter.
#[derive(Debug, PartialEq, Eq, Structural, Clone, Copy)]
pub enum ConnectionErrorKind {
    /// The connection was closed without an error.
    Closed,
    /// The connection was closed on the transport level.
    Transport,
    /// The connection was closed on the application level.
    Application,
    /// The connection was reset by a stateless reset from the peer.
    StatelessReset,
    /// The local idle timer expired.
    IdleTimerExpired,
    /// There are no valid paths left.
    NoValidPath,
    /// All stream IDs of the connection have been used.
    StreamIdExhausted,
    /// The handshake took longer than allowed.
    MaxHandshakeDurationExceeded,
    /// The connection is to be closed immediately without notifying the peer.
    ImmediateClose,
    /// The endpoint is closing.
    EndpointClosing,
    /// The application supplied an invalid configuration.
    InvalidConfiguration,
    /// The connection was closed for an unspecified reason.
    Unspecified,
}

/// Classification of connection errors into those that end the connection and
/// those after which it may continue.
pub trait ConnectionErrorDisconnected {
    /// Returns `true` if this error represents a closed or unrecoverable connection.
    fn is_closed(&self) -> bool;
}

impl ConnectionErrorKind {
    /// Whether an error of this kind means the connection is closed or unrecoverable:
    /// a closed connection, a transport or application close, a closing endpoint,
    /// an expired idle timer, or no valid path.
    pub open spec fn spec_is_closed(self) -> bool {
        match self {
            ConnectionErrorKind::Closed
            | ConnectionErrorKind::Transport
            | ConnectionErrorKind::Application
            | ConnectionErrorKind::EndpointClosing
            | ConnectionErrorKind::IdleTimerExpired
            | ConnectionErrorKind::NoValidPath => true,
            _ => false,
        }
    }
}

impl ConnectionErrorDisconnected for ConnectionErrorKind {
    fn is_closed(&self) -> (r: bool)
        ensures
            r == self.spec_is_closed(),
    {
        match self {
            ConnectionErrorKind::Closed
            | ConnectionErrorKind::Transport
            | ConnectionErrorKind::Application
            | ConnectionErrorKind::EndpointClosing
            | ConnectionErrorKind::IdleTimerExpired
            | ConnectionErrorKind::NoValidPath => true,
            _ => false,
        }
    }
}

/// A connection error: its kind, and its human readable description.
#[derive(Debug)]
pub struct ConnectionFailure {
    pub kind: ConnectionErrorKind,
    pub description: String,
}

impl Clone for ConnectionFailure {
    fn clone(&self) -> (r: Self)
        ensures
            r == *self,
    {
        ConnectionFailure { kind: self.kind, description: self.description.clone() }
    }
}

impl ConnectionErrorDisconnected for ConnectionFailure {
    fn is_closed(&self) -> (r: bool)
        ensures
            r == self.kind.spec_is_closed(),
    {
        self.kind.is_closed()
    }
}

/// Why a connection ended.
#[derive(Debug)]
pub enum ConnectionDisconnectReason {
    UserClosed,
    PeerClosed,
    Reset(ApplicationErrorCode),
    InvalidStream,
    ConnectionError(ConnectionFailure),
    MspcChannelClosed { channel_name: &'static str },
    OrchestratorError,
    InternalError(String),
}

impl Clone for ConnectionDisconnectReason {
    fn clone(&self) -> (r: Self)
        ensures
            r == *self,
    {
        self.duplicate()
    }
}

impl ConnectionDisconnectReason {
    /// What the session layer is told when the connection ends for this reason.
    pub open spec fn spec_session_disconnect(self) -> SessionDisconnectView {
        match self {
            ConnectionDisconnectReason::UserClosed => SessionDisconnectView::ByUser(
                "Send stream stopped by self."@,
            ),
            ConnectionDisconnectReason::PeerClosed => SessionDisconnectView::ByPeer(
                "Connection closed by peer."@,
            ),
            ConnectionDisconnectReason::Reset(code) => SessionDisconnectView::ByError(
                "Connection closed by reset with code: "@ + code.spec_text(),
            ),
            ConnectionDisconnectReason::InvalidStream => SessionDisconnectView::ByError(
                "Stream is no longer valid"@,
            ),
            ConnectionDisconnectReason::ConnectionError(e) => SessionDisconnectView::ByError(
                "Connection has been closed due to a connection error: "@ + e.description@,
            ),
            ConnectionDisconnectReason::MspcChannelClosed { channel_name } => SessionDisconnectView::ByError(
                "Connection was closed due to IPC channel \""@ + channel_name@ + "\" being closed"@,
            ),
            ConnectionDisconnectReason::OrchestratorError => SessionDisconnectView::ByError(
                "Orchestrator is unable to handle the connection"@,
            ),
            ConnectionDisconnectReason::InternalError(e) => SessionDisconnectView::ByError(
                "Connection was closed due to an internal error: "@ + e@,
            ),
        }
    }

    /// What the session layer is told when the connection ends for this reason.
    pub fn to_session_disconnect(&self) -> (r: SessionDisconnect)
        ensures
            r@ == self.spec_session_disconnect(),
    {
        match self {
            ConnectionDisconnectReason::UserClosed => SessionDisconnect::ByUser(
                String::from_str("Send stream stopped by self."),
            ),
            ConnectionDisconnectReason::PeerClosed => SessionDisconnect::ByPeer(
                String::from_str("Connection closed by peer."),
            ),
            ConnectionDisconnectReason::Reset(code) => {
                let text = code.display_string();
                SessionDisconnect::ByError(
                    join2("Connection closed by reset with code: ", text.as_str()),
                )
            },
            ConnectionDisconnectReason::InvalidStream => SessionDisconnect::ByError(
                String::from_str("Stream is no longer valid"),
            ),
            ConnectionDisconnectReason::ConnectionError(e) => SessionDisconnect::ByError(
                join2(
                    "Connection has been closed due to a connection error: ",
                    e.description.as_str(),
                ),
            ),
            ConnectionDisconnectReason::MspcChannelClosed { channel_name } => {
                let mut s = join2("Connection was closed due to IPC channel \"", channel_name);
                s.append("\" being closed");
                SessionDisconnect::ByError(s)
            },
            ConnectionDisconnectReason::OrchestratorError => SessionDisconnect::ByError(
                String::from_str("Orchestrator is unable to handle the connection"),
            ),
            ConnectionDisconnectReason::InternalError(e) => SessionDisconnect::ByError(
                join2("Connection was closed due to an internal error: ", e.as_str()),
            ),
        }
    }
}

impl DisconnectCause for ConnectionDisconnectReason {
    open spec fn spec_is_internal_error(&self, description: Seq<char>) -> bool {
        self matches ConnectionDisconnectReason::InternalError(e) && e@ == description
    }

    fn from_internal_error(description: String) -> (r: Self) {
        ConnectionDisconnectReason::InternalError(description)
    }

    fn duplicate(&self) -> (r: Self) {
        match self {
            ConnectionDisconnectReason::UserClosed => ConnectionDisconnectReason::UserClosed,
            ConnectionDisconnectReason::PeerClosed => ConnectionDisconnectReason::PeerClosed,
            ConnectionDisconnectReason::Reset(c) => ConnectionDisconnectReason::Reset(*c),
            ConnectionDisconnectReason::InvalidStream => ConnectionDisconnectReason::InvalidStream,
            ConnectionDisconnectReason::ConnectionError(e) => ConnectionDisconnectReason::ConnectionError(
                e.clone(),
            ),
            ConnectionDisconnectReason::MspcChannelClosed { channel_name } => {
                ConnectionDisconnectReason::MspcChannelClosed { channel_name: *channel_name }
            },
            ConnectionDisconnectReason::OrchestratorError => ConnectionDisconnectReason::OrchestratorError,
            ConnectionDisconnectReason::InternalError(e) => ConnectionDisconnectReason::InternalError(
                e.clone(),
            ),
        }
    }
}

} // verus!
