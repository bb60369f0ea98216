//! Stream errors and the reasons for which a stream ends.
use crate::common::connection::disconnect::ConnectionFailure;
use crate::common::disconnect::{DisconnectCause, SessionDisconnect, SessionDisconnectView};
use crate::common::error_code::ApplicationErrorCode;
use crate::common::text::join2;
use vstd::prelude::*;
use vstd::string::StringExecFns;

verus! {

/// The kinds of error a QUIC stream can encounter.
#[derive(Debug)]
pub enum StreamErrorKind {
    /// The referenced stream ID is invalid.
    InvalidStream,
    /// The peer reset the stream with the given code.
    StreamReset(ApplicationErrorCode),
    /// Data was sent after the stream was finished.
    SendAfterFinish,
    /// The maximum amount of data was already written to the stream.
    MaxStreamDataSizeExceeded,
    /// The stream was reset because of a connection error.
    ConnectionError(ConnectionFailure),
    /// The stream is not readable.
    NonReadable,
    /// The stream is not writable.
    NonWritable,
    /// Writing is blocked.
    SendingBlocked,
    /// A non-empty buffer was supplied for receiving.
    NonEmptyOutput,
    /// A kind of error this library does not tell apart from others.
    Unspecified,
}

/// A stream error: its kind and its human readable description.
#[derive(Debug)]
pub struct StreamFailure {
    pub kind: StreamErrorKind,
    pub description: String,
}

/// Why a stream ended.
#[derive(Debug)]
pub enum StreamDisconnectReason {
    UserClosed,
    PeerClosed,
    Reset(ApplicationErrorCode),
    InvalidStream,
    ConnectionError(ConnectionFailure),
    ResourceError,
    MspcChannelClosed { channel_name: &'static str },
    InternalError(String),
    /// This should in theory never happen.
    NoReason,
}

impl Clone for StreamDisconnectReason {
    fn clone(&self) -> (r: Self)
        ensures
            r == *self,
    {
        self.duplicate()
    }
}

impl StreamDisconnectReason {
    /// What the session layer is told when the stream ends for this reason.
    pub open spec fn spec_session_disconnect(self) -> SessionDisconnectView {
        match self {
            StreamDisconnectReason::UserClosed => SessionDisconnectView::ByUser(
                "Send stream stopped by self."@,
            ),
            StreamDisconnectReason::PeerClosed => SessionDisconnectView::ByPeer(
                "Stream closed by peer."@,
            ),
            StreamDisconnectReason::Reset(code) => SessionDisconnectView::ByError(
                "Stream closed by reset with code: "@ + code.spec_text(),
            ),
            StreamDisconnectReason::InvalidStream => SessionDisconnectView::ByError(
                "Stream is no longer valid"@,
            ),
            StreamDisconnectReason::ConnectionError(e) => SessionDisconnectView::ByError(
                "Stream has been closed due to a connection error: "@ + e.description@,
            ),
            StreamDisconnectReason::ResourceError => SessionDisconnectView::ByError(
                "Stream was closed due to a resource error"@,
            ),
            StreamDisconnectReason::MspcChannelClosed { channel_name } => SessionDisconnectView::ByError(
                "Stream was closed due to an IPC channel \""@ + channel_name@ + "\" being closed"@,
            ),
            StreamDisconnectReason::InternalError(e) => SessionDisconnectView::ByError(
                "Stream was closed due to an internal error: "@ + e@,
            ),
            StreamDisconnectReason::NoReason => SessionDisconnectView::ByError(
                "Stream was closed without reason, this is a bug :("@,
            ),
        }
    }

    /// What the session layer is told when the stream ends for this reason.
    pub fn to_session_disconnect(&self) -> (r: SessionDisconnect)
        ensures
            r@ == self.spec_session_disconnect(),
    {
        match self {
            StreamDisconnectReason::UserClosed => SessionDisconnect::ByUser(
                String::from_str("Send stream stopped by self."),
            ),
            StreamDisconnectReason::PeerClosed => SessionDisconnect::ByPeer(
                String::from_str("Stream closed by peer."),
            ),
            StreamDisconnectReason::Reset(code) => {
                let text = code.display_string();
                SessionDisconnect::ByError(join2("Stream closed by reset with code: ", text.as_str()))
            },
            StreamDisconnectReason::InvalidStream => SessionDisconnect::ByError(
                String::from_str("Stream is no longer valid"),
            ),
            StreamDisconnectReason::ConnectionError(e) => SessionDisconnect::ByError(
                join2(
                    "Stream has been closed due to a connection error: ",
                    e.description.as_str(),
                ),
            ),
            StreamDisconnectReason::ResourceError => SessionDisconnect::ByError(
                String::from_str("Stream was closed due to a resource error"),
            ),
            StreamDisconnectReason::MspcChannelClosed { channel_name } => {
                let mut s = join2("Stream was closed due to an IPC channel \"", channel_name);
                s.append("\" being closed");
                SessionDisconnect::ByError(s)
            },
            StreamDisconnectReason::InternalError(e) => SessionDisconnect::ByError(
                join2("Stream was closed due to an internal error: ", e.as_str()),
            ),
            StreamDisconnectReason::NoReason => SessionDisconnect::ByError(
                String::from_str("Stream was closed without reason, this is a bug :("),
            ),
        }
    }
}

impl DisconnectCause for StreamDisconnectReason {
    open spec fn spec_is_internal_error(&self, description: Seq<char>) -> bool {
        self matches StreamDisconnectReason::InternalError(e) && e@ == description
    }

    fn from_internal_error(description: String) -> (r: Self) {
        StreamDisconnectReason::InternalError(description)
    }

    fn duplicate(&self) -> (r: Self) {
        match self {
            StreamDisconnectReason::UserClosed => StreamDisconnectReason::UserClosed,
            StreamDisconnectReason::PeerClosed => StreamDisconnectReason::PeerClosed,
            StreamDisconnectReason::Reset(c) => StreamDisconnectReason::Reset(*c),
            StreamDisconnectReason::InvalidStream => StreamDisconnectReason::InvalidStream,
            StreamDisconnectReason::ConnectionError(e) => StreamDisconnectReason::ConnectionError(
                e.clone(),
            ),
            StreamDisconnectReason::ResourceError => StreamDisconnectReason::ResourceError,
            StreamDisconnectReason::MspcChannelClosed { channel_name } => {
                StreamDisconnectReason::MspcChannelClosed { channel_name: *channel_name }
            },
            StreamDisconnectReason::InternalError(e) => StreamDisconnectReason::InternalError(
                e.clone(),
            ),
            StreamDisconnectReason::NoReason => StreamDisconnectReason::NoReason,
        }
    }
}

} // verus!
