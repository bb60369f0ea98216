//! Connections: the handle kept by the synchronous side, and the commands it
//! sends to the connection's task.
use crate::common::attempt::{QuicActionAttempt, TaskError, TaskResult};
use crate::common::channel::{oneshot_channel, try_send, Offer, OfferOutcome, SendRefusal};
use crate::common::connection::disconnect::ConnectionDisconnectReason;
use crate::common::connection::id::ConnectionId;
use crate::common::connection::open_flag::OpenFlag;
use crate::common::connection::stream_flag::StreamFlag;
use crate::common::connection::task::{ConnectionCommand, ConnectionCommandError};
use crate::common::error_code::{ApplicationErrorCode, MAX_ERROR_CODE};
use crate::common::stream::receive::QuicReceiveStream;
use crate::common::stream::send::QuicSendStream;
use crate::common::stream::{
    QuicBidirectionalStreamAttempt, QuicPeerStream, QuicPeerStreamAttempt, QuicReceiveStreamAttempt,
};
use crate::common::task_state::{OnceLockState, TaskState};
use crate::common::QuicParentId;
use std::sync::Arc;
use tokio::runtime::Handle;
use tokio::sync::mpsc::Sender;
use tokio::sync::oneshot;
use vstd::prelude::*;

pub mod disconnect;
pub mod id;
pub mod open_flag;
pub mod stream_flag;
pub mod task;

verus! {

/// Number of messages that can sit unhandled by the connection task.
pub const CONNECTION_CTRL_CHANNEL_SIZE: usize = 1024;

/// What a command asking for a stream is answered with.
pub type ConnectionResponse<T> = Result<Option<T>, TaskError>;

/// A command to a connection task, with the channels on which its answers go.
pub type ConnectionCommandMsg = ConnectionCommand<
    oneshot::Sender<ConnectionResponse<QuicPeerStream>>,
    oneshot::Sender<ConnectionResponse<QuicReceiveStream>>,
    oneshot::Sender<ConnectionResponse<(QuicReceiveStream, QuicSendStream)>>,
>;

/// An in-progress connection, replaced by the connection once it is established.
pub struct QuicConnectionAttempt<C, T: TaskResult<C>>(pub QuicActionAttempt<C, QuicParentId, T>);

impl<C, T: TaskResult<C>> QuicConnectionAttempt<C, T> {
    pub fn new(conn_task: T, parent_id: QuicParentId) -> (r: Self)
        ensures
            r.0.spec_returned() is None,
            r.0.spec_id() == parent_id,
    {
        Self(QuicActionAttempt::new(conn_task, parent_id))
    }
}

/// s2n-quic's handle on an established connection.
#[verifier::external_type_specification]
#[verifier::external_body]
pub struct ExConnectionHandle(s2n_quic::connection::Handle);

/// The record of closing a connection directly, without its task: which
/// connection, with which code. Only [`close_connection`] makes one, so holding
/// one shows that the connection was closed.
pub struct ConnectionClosed {
    handle: Ghost<s2n_quic::connection::Handle>,
    code: u64,
}

impl ConnectionClosed {
    /// The connection closed.
    pub closed spec fn spec_handle(self) -> s2n_quic::connection::Handle {
        self.handle@
    }

    /// The error code it was closed with.
    pub closed spec fn spec_code(self) -> u64 {
        self.code
    }

    /// The error code the connection was closed with.
    pub fn code(&self) -> (r: u64)
        ensures
            r == self.spec_code(),
    {
        self.code
    }
}

/// s2n-quic's `Handle::close`: closes the connection at once with the error
/// code `code`, ending all its streams. The code is made an s2n-quic
/// application error by `application::Error::new`, which takes every value up
/// to [`MAX_ERROR_CODE`], the largest variable-length integer, so under the
/// `requires` the close always happens. The record names the handle and the code.
#[verifier::external_body]
fn close_connection(handle: &s2n_quic::connection::Handle, code: u64) -> (r: ConnectionClosed)
    requires
        code <= MAX_ERROR_CODE,
    ensures
        r.spec_handle() == *handle,
        r.spec_code() == code,
{
    if let Ok(error) = s2n_quic::application::Error::new(code) {
        handle.close(error);
    }
    ConnectionClosed { handle: Ghost(*handle), code }
}

/// How a request to close a connection was carried out.
#[derive(Debug, PartialEq, Eq, Structural, Clone, Copy)]
pub enum CloseOutcome {
    /// The connection was not open: nothing was done.
    NotOpen,
    /// The connection task was asked to close it.
    Requested,
    /// The command channel was full, so the connection was closed directly.
    ForcedChannelFull,
    /// The command channel was closed, so the connection was closed directly.
    ForcedChannelClosed,
}

impl CloseOutcome {
    /// How a close request went, given the command channel's answer to the
    /// close command: requested when it was taken, forced when the channel was
    /// full or closed.
    pub open spec fn spec_from_send<T>(sent: Result<(), SendRefusal<T>>) -> CloseOutcome {
        match sent {
            Ok(()) => CloseOutcome::Requested,
            Err(SendRefusal::Full(_)) => CloseOutcome::ForcedChannelFull,
            Err(SendRefusal::Closed(_)) => CloseOutcome::ForcedChannelClosed,
        }
    }

    /// How a close request went, given what the command channel did with the
    /// close command.
    pub open spec fn spec_from_offer(outcome: OfferOutcome) -> CloseOutcome {
        match outcome {
            OfferOutcome::Accepted => CloseOutcome::Requested,
            OfferOutcome::Full => CloseOutcome::ForcedChannelFull,
            OfferOutcome::Closed => CloseOutcome::ForcedChannelClosed,
        }
    }

    /// Whether the connection itself must be closed at once.
    pub open spec fn spec_forces_close(self) -> bool {
        self is ForcedChannelFull || self is ForcedChannelClosed
    }

    /// How a close request went, given the command channel's answer.
    pub fn from_send<T>(sent: &Result<(), SendRefusal<T>>) -> (r: Self)
        ensures
            r == Self::spec_from_send(*sent),
    {
        match sent {
            Ok(()) => CloseOutcome::Requested,
            Err(SendRefusal::Full(_)) => CloseOutcome::ForcedChannelFull,
            Err(SendRefusal::Closed(_)) => CloseOutcome::ForcedChannelClosed,
        }
    }

    /// Whether the connection itself must be closed at once: when the close
    /// command could not be handed to the connection task.
    pub fn forces_close(&self) -> (r: bool)
        ensures
            r == self.spec_forces_close(),
    {
        match self {
            CloseOutcome::ForcedChannelFull | CloseOutcome::ForcedChannelClosed => true,
            _ => false,
        }
    }
}

/// The synchronous side's handle on a connection: commands go to the
/// connection's task, and the end of the connection comes back.
pub struct QuicConnection<H, O> {
    runtime: Handle,
    orchestrator: O,
    conn_handle: H,
    task_state: OnceLockState<ConnectionDisconnectReason>,
    conn_command_channel: Sender<ConnectionCommandMsg>,
    is_open: OpenFlag,
    connection_id: ConnectionId,
    /// Raised by the connection task as soon as there is a new stream.
    pending_stream: Arc<StreamFlag>,
}

impl<H, O> QuicConnection<H, O> {
    /// The identifier of the connection.
    pub closed spec fn spec_id(self) -> ConnectionId {
        self.connection_id
    }

    /// The runtime the connection was created with.
    pub closed spec fn spec_runtime(self) -> Handle {
        self.runtime
    }

    /// The orchestrator the connection was created with.
    pub closed spec fn spec_orchestrator(self) -> O {
        self.orchestrator
    }

    /// The handle on the connection itself.
    pub closed spec fn spec_conn_handle(self) -> H {
        self.conn_handle
    }

    /// The shared flag telling whether the connection is open.
    pub closed spec fn spec_open_flag(self) -> OpenFlag {
        self.is_open
    }

    /// The channel of commands to the connection task.
    pub closed spec fn spec_command_channel(self) -> Sender<ConnectionCommandMsg> {
        self.conn_command_channel
    }

    /// Builds the handle over the channels and shared state of a connection task.
    pub fn new(
        runtime: Handle,
        orchestrator: O,
        conn_handle: H,
        task_state: OnceLockState<ConnectionDisconnectReason>,
        conn_command_channel: Sender<ConnectionCommandMsg>,
        is_open: OpenFlag,
        connection_id: ConnectionId,
        pending_stream: Arc<StreamFlag>,
    ) -> (r: Self)
        ensures
            r.spec_id() == connection_id,
            r.spec_runtime() == runtime,
            r.spec_orchestrator() == orchestrator,
            r.spec_conn_handle() == conn_handle,
            r.spec_open_flag() == is_open,
            r.spec_command_channel() == conn_command_channel,
    {
        QuicConnection {
            runtime,
            orchestrator,
            conn_handle,
            task_state,
            conn_command_channel,
            is_open,
            connection_id,
            pending_stream,
        }
    }

    /// Asks the connection task for any incoming stream. The attempt that comes
    /// back yields the stream, or none when no stream was pending. The
    /// command is offered to the command channel, and the record of that offer
    /// comes back with the answer. Fails with `Full` when the channel is full
    /// and `Closed` when it is closed, and only then.
    pub fn accept_stream(&mut self) -> (r: (Result<QuicPeerStreamAttempt<oneshot::Receiver<ConnectionResponse<QuicPeerStream>>>, ConnectionCommandError>, Offer<ConnectionCommandMsg>))
        ensures
            r.1.spec_value() is Accept,
            r.1.spec_channel() == old(self).spec_command_channel(),
            r.0 is Ok <==> r.1.spec_accepted(),
            r.0 matches Ok(a) ==> a.0.spec_id() == old(self).spec_id() && a.0.spec_returned() is None,
            (r.0 matches Err(ConnectionCommandError::Full)) <==> r.1.spec_outcome() == OfferOutcome::Full,
            (r.0 matches Err(ConnectionCommandError::Closed)) <==> r.1.spec_outcome() == OfferOutcome::Closed,
            *final(self) == *old(self),
    {
        self.pending_stream.set_false();
        let (send, rec) = oneshot_channel();
        let cmd = ConnectionCommand::Accept { respond_to: send };
        let (answer, offer) = try_send(&self.conn_command_channel, cmd);
        let r = match answer {
            Err(err) => Err(ConnectionCommandError::from_refusal(&err)),
            Ok(()) => Ok(QuicPeerStreamAttempt::new(rec, self.connection_id)),
        };
        (r, offer)
    }


    /// Asks the connection task for an incoming receive stream. The
    /// command is offered to the command channel, and the record of that offer
    /// comes back with the answer. Fails with `Full` when the channel is full
    /// and `Closed` when it is closed, and only then.
    pub fn accept_receive_stream(&mut self) -> (r: (Result<QuicReceiveStreamAttempt<oneshot::Receiver<ConnectionResponse<QuicReceiveStream>>>, ConnectionCommandError>, Offer<ConnectionCommandMsg>))
        ensures
            r.1.spec_value() is AcceptReceive,
            r.1.spec_channel() == old(self).spec_command_channel(),
            r.0 is Ok <==> r.1.spec_accepted(),
            r.0 matches Ok(a) ==> a.0.spec_id() == old(self).spec_id() && a.0.spec_returned() is None,
            (r.0 matches Err(ConnectionCommandError::Full)) <==> r.1.spec_outcome() == OfferOutcome::Full,
            (r.0 matches Err(ConnectionCommandError::Closed)) <==> r.1.spec_outcome() == OfferOutcome::Closed,
            *final(self) == *old(self),
    {
        self.pending_stream.set_false();
        let (send, rec) = oneshot_channel();
        let cmd = ConnectionCommand::AcceptReceive { respond_to: send };
        let (answer, offer) = try_send(&self.conn_command_channel, cmd);
        let r = match answer {
            Err(err) => Err(ConnectionCommandError::from_refusal(&err)),
            Ok(()) => Ok(QuicReceiveStreamAttempt::new(rec, self.connection_id)),
        };
        (r, offer)
    }


    /// Asks the connection task for an incoming bidirectional stream. The
    /// command is offered to the command channel, and the record of that offer
    /// comes back with the answer. Fails with `Full` when the channel is full
    /// and `Closed` when it is closed, and only then.
    pub fn accept_bidirectional_stream(&mut self) -> (r: (Result<QuicBidirectionalStreamAttempt<oneshot::Receiver<ConnectionResponse<(QuicReceiveStream, QuicSendStream)>>>, ConnectionCommandError>, Offer<ConnectionCommandMsg>))
        ensures
            r.1.spec_value() is AcceptBidirectional,
            r.1.spec_channel() == old(self).spec_command_channel(),
            r.0 is Ok <==> r.1.spec_accepted(),
            r.0 matches Ok(a) ==> a.0.spec_id() == old(self).spec_id() && a.0.spec_returned() is None,
            (r.0 matches Err(ConnectionCommandError::Full)) <==> r.1.spec_outcome() == OfferOutcome::Full,
            (r.0 matches Err(ConnectionCommandError::Closed)) <==> r.1.spec_outcome() == OfferOutcome::Closed,
            *final(self) == *old(self),
    {
        self.pending_stream.set_false();
        let (send, rec) = oneshot_channel();
        let cmd = ConnectionCommand::AcceptBidirectional { respond_to: send };
        let (answer, offer) = try_send(&self.conn_command_channel, cmd);
        let r = match answer {
            Err(err) => Err(ConnectionCommandError::from_refusal(&err)),
            Ok(()) => Ok(QuicBidirectionalStreamAttempt::new(rec, self.connection_id)),
        };
        (r, offer)
    }


    /// The first step of closing the connection with `code`: nothing is done
    /// when it is not open; otherwise its task is offered a close command
    /// carrying `code`. The record of the offer comes back with the outcome,
    /// which follows the channel's answer as [`CloseOutcome::from_send`] says:
    /// when it forces the close, the connection itself is still to be closed
    /// with `code`, as [`close`](QuicConnection::close) does.
    pub fn offer_close(&self, code: ApplicationErrorCode) -> (r: (CloseOutcome, Option<Offer<ConnectionCommandMsg>>))
        ensures
            r.0 == CloseOutcome::NotOpen <==> r.1 is None,
            r.1 matches Some(o) ==> o.spec_value() == ConnectionCommand::<
                oneshot::Sender<ConnectionResponse<QuicPeerStream>>,
                oneshot::Sender<ConnectionResponse<QuicReceiveStream>>,
                oneshot::Sender<ConnectionResponse<(QuicReceiveStream, QuicSendStream)>>,
            >::Close(code) && o.spec_channel() == self.spec_command_channel() && r.0
                == CloseOutcome::spec_from_offer(o.spec_outcome()),
    {
        if !self.is_open() {
            return (CloseOutcome::NotOpen, None);
        }
        let (sent, offer) = try_send(&self.conn_command_channel, ConnectionCommand::Close(code));
        (CloseOutcome::from_send(&sent), Some(offer))
    }

    /// Returns true if the connection is still open: its task has not ended
    /// and it has not been marked closed.
    pub fn is_open(&self) -> bool {
        !self.task_state.is_finished() && self.is_open.get()
    }

    /// Returns true if accepting a stream may return something new: a stream
    /// was flagged as pending and the connection is open. The flag is lowered
    /// by every accept and raised by the connection task when a stream arrives.
    pub fn should_poll_accept(&self) -> bool {
        self.pending_stream.get() && self.is_open()
    }

    /// Gets the disconnect reason if the connection has closed.
    /// Returns `None` if it is still open.
    pub fn get_disconnect_reason(&mut self) -> (r: Option<ConnectionDisconnectReason>)
        ensures
            *final(self) == *old(self),
    {
        self.task_state.get_disconnect_reason()
    }

    /// Gets the ID information for the parent client or server for this connection.
    pub fn parent_id(&self) -> (r: QuicParentId)
        ensures
            r == self.spec_id().spec_parent_id(),
    {
        self.connection_id.parent_id()
    }

    /// Gets the ID information for both the parent and this connection.
    pub fn id(&self) -> (r: ConnectionId)
        ensures
            r == self.spec_id(),
    {
        self.connection_id
    }

    /// The runtime on which the connection's work runs.
    pub fn runtime(&self) -> (r: &Handle)
        ensures
            *r == self.spec_runtime(),
    {
        &self.runtime
    }

    /// The orchestrator that runs the connection's stream tasks.
    pub fn orchestrator(&self) -> (r: &O)
        ensures
            *r == self.spec_orchestrator(),
    {
        &self.orchestrator
    }

    /// The handle on the connection itself.
    pub fn conn_handle(&self) -> (r: &H)
        ensures
            *r == self.spec_conn_handle(),
    {
        &self.conn_handle
    }

    /// The flag telling whether the connection is open.
    pub fn open_flag(&self) -> (r: &OpenFlag)
        ensures
            *r == self.spec_open_flag(),
    {
        &self.is_open
    }
}

impl<O> QuicConnection<s2n_quic::connection::Handle, O> {
    /// Closes the connection with `code`: nothing is done when it is not open;
    /// otherwise its task is offered a close command carrying `code`
    /// ([`offer_close`](QuicConnection::offer_close)), and when the command
    /// channel is full or closed the connection is closed directly with `code`.
    /// Comes back with the outcome, the record of the offer, and the record of
    /// the direct close, which is made exactly when the outcome forces it.
    pub fn close(&self, code: ApplicationErrorCode) -> (r: (
        CloseOutcome,
        Option<Offer<ConnectionCommandMsg>>,
        Option<ConnectionClosed>,
    ))
        ensures
            r.0 == CloseOutcome::NotOpen <==> r.1 is None,
            r.1 matches Some(o) ==> o.spec_value() == ConnectionCommand::<
                oneshot::Sender<ConnectionResponse<QuicPeerStream>>,
                oneshot::Sender<ConnectionResponse<QuicReceiveStream>>,
                oneshot::Sender<ConnectionResponse<(QuicReceiveStream, QuicSendStream)>>,
            >::Close(code) && o.spec_channel() == self.spec_command_channel() && r.0
                == CloseOutcome::spec_from_offer(o.spec_outcome()),
            r.2 is Some <==> r.0.spec_forces_close(),
            r.2 matches Some(c) ==> c.spec_handle() == self.spec_conn_handle() && c.spec_code()
                == code.spec_code(),
    {
        let (outcome, offer) = self.offer_close(code);
        if outcome.forces_close() {
            let closed = close_connection(&self.conn_handle, code.code());
            (outcome, offer, Some(closed))
        } else {
            (outcome, offer, None)
        }
    }
}

} // verus!
