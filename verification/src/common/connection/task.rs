//! The decisions of the task that owns a QUIC connection: it waits for commands
//! from the synchronous side and for streams opened by the peer, buffers a peer
//! stream until a command asks for it, and records why the connection ended.
//!
//! The task itself runs asynchronously outside this module: it asks
//! [`ConnectionTaskCore::poll_plan`] what to wait for, reports what happened, and
//! performs the action it gets back.
use crate::common::attempt::TaskError;
use crate::common::channel::SendRefusal;
use crate::common::connection::disconnect::{
    ConnectionDisconnectReason, ConnectionErrorDisconnected, ConnectionFailure,
};
use crate::common::error_code::ApplicationErrorCode;
use vstd::prelude::*;
use vstd::string::StringExecFns;

verus! {

/// The name of the command channel, reported when it closes.
pub open spec fn spec_command_channel_name() -> Seq<char> {
    "Connection command channel"@
}

/// A stream opened by the peer: receive-only, or bidirectional.
pub enum PeerStreamOf<R, B> {
    Receive(R),
    Bidirectional(B),
}

/// A request from the synchronous side to the connection task; each accept
/// carries the means to answer it.
#[allow(inconsistent_fields)]
pub enum ConnectionCommand<A, AR, AB> {
    /// Accept a receive stream.
    AcceptReceive { respond_to: AR },
    /// Accept a bidirectional stream.
    AcceptBidirectional { respond_to: AB },
    /// Accept a stream of either kind.
    Accept { respond_to: A },
    /// Close the connection with the given code.
    Close(ApplicationErrorCode),
}

/// What the connection task waits for next.
#[derive(Debug, PartialEq, Eq, Structural, Clone, Copy)]
pub enum PollPlan {
    /// The connection has ended; there is nothing left to do.
    Finished,
    /// A stream is buffered: wait only for a command that may consume it.
    AwaitCommand,
    /// Wait for a command or for a new stream from the peer, preferring commands.
    AwaitCommandOrStream,
}

/// What the connection task does in answer to a command.
#[allow(inconsistent_fields)]
pub enum CommandAction<A, AR, AB, R, B> {
    /// Answer an accept with the buffered stream.
    DeliverPeer { respond_to: A, stream: PeerStreamOf<R, B> },
    /// Answer an accept with "no stream pending".
    DeliverNoPeer { respond_to: A },
    /// Answer a receive accept with the buffered receive stream.
    DeliverReceive { respond_to: AR, stream: R },
    /// Briefly wait for a receive stream from the connection, then answer.
    ProbeReceive { respond_to: AR },
    /// Answer a bidirectional accept with the buffered bidirectional stream.
    DeliverBidirectional { respond_to: AB, stream: B },
    /// Briefly wait for a bidirectional stream from the connection, then answer.
    ProbeBidirectional { respond_to: AB },
    /// Close the connection with the given code.
    CloseConnection(ApplicationErrorCode),
}

/// What a brief wait for a stream of a given kind found.
pub enum ProbeOutcome<X> {
    /// No stream arrived in time.
    TimedOut,
    /// The connection answered: a stream, or none because it is closing.
    Accepted(Option<X>),
    /// The connection failed.
    Failed(ConnectionFailure),
}

/// The answer to send after a brief wait, and whether the connection must now
/// be marked closed.
pub struct ProbeReply<X> {
    pub response: Result<Option<X>, TaskError>,
    pub mark_closed: bool,
}

/// What waiting for a new stream from the peer produced.
pub enum IncomingOutcome<R, B> {
    /// The peer opened a stream.
    Stream(PeerStreamOf<R, B>),
    /// The peer closed the connection.
    PeerClosed,
    /// The connection failed.
    Failed(ConnectionFailure),
}

/// Side effects owed after a new stream event.
#[derive(Debug, PartialEq, Eq, Structural, Clone, Copy)]
pub struct IncomingReply {
    /// Raise the flag telling the synchronous side that a stream is pending.
    pub raise_pending_flag: bool,
    /// Mark the connection as closed.
    pub mark_closed: bool,
}

/// The state on which the connection task decides: why the connection ended,
/// if it has, and the peer stream held until a command asks for it.
pub struct ConnectionTaskCore<R, B> {
    disconnect_flag: Option<ConnectionDisconnectReason>,
    buffered_stream: Option<PeerStreamOf<R, B>>,
}

impl<R, B> ConnectionTaskCore<R, B> {
    /// Why the connection ended, once it has.
    pub closed spec fn spec_disconnect(self) -> Option<ConnectionDisconnectReason> {
        self.disconnect_flag
    }

    /// The peer stream waiting for a command.
    pub closed spec fn spec_buffered(self) -> Option<PeerStreamOf<R, B>> {
        self.buffered_stream
    }

    /// What the task waits for in a given state.
    pub open spec fn spec_poll_plan(self) -> PollPlan {
        if self.spec_disconnect() is Some {
            PollPlan::Finished
        } else if self.spec_buffered() is Some {
            PollPlan::AwaitCommand
        } else {
            PollPlan::AwaitCommandOrStream
        }
    }

    /// A connection that is running, with nothing buffered.
    pub fn new() -> (r: Self)
        ensures
            r.spec_disconnect() is None,
            r.spec_buffered() is None,
    {
        ConnectionTaskCore { disconnect_flag: None, buffered_stream: None }
    }

    /// Whether the connection has ended.
    pub fn is_disconnected(&self) -> (r: bool)
        ensures
            r == self.spec_disconnect() is Some,
    {
        self.disconnect_flag.is_some()
    }

    /// What to wait for next: nothing once the connection ended; only commands
    /// while a stream is buffered; otherwise commands or a new peer stream.
    pub fn poll_plan(&self) -> (r: PollPlan)
        ensures
            r == self.spec_poll_plan(),
    {
        if self.disconnect_flag.is_some() {
            PollPlan::Finished
        } else if self.buffered_stream.is_some() {
            PollPlan::AwaitCommand
        } else {
            PollPlan::AwaitCommandOrStream
        }
    }

    /// Decides the answer to a command. A buffered stream of the kind asked for
    /// is handed out and no longer held; a buffered stream of another kind stays
    /// buffered while the connection is briefly asked for the right kind. No
    /// buffered stream is lost or handed out twice.
    pub fn on_command<A, AR, AB>(&mut self, cmd: ConnectionCommand<A, AR, AB>) -> (r: CommandAction<A, AR, AB, R, B>)
        requires
            old(self).spec_disconnect() is None,
        ensures
            final(self).spec_disconnect() is None,
            match cmd {
                ConnectionCommand::Accept { respond_to } => match old(self).spec_buffered() {
                    Some(s) => r == (CommandAction::<A, AR, AB, R, B>::DeliverPeer { respond_to, stream: s })
                        && final(self).spec_buffered() is None,
                    None => r == (CommandAction::<A, AR, AB, R, B>::DeliverNoPeer { respond_to })
                        && final(self).spec_buffered() is None,
                },
                ConnectionCommand::AcceptReceive { respond_to } => match old(self).spec_buffered() {
                    Some(PeerStreamOf::Receive(s)) => r == (CommandAction::<A, AR, AB, R, B>::DeliverReceive { respond_to, stream: s })
                        && final(self).spec_buffered() is None,
                    _ => r == (CommandAction::<A, AR, AB, R, B>::ProbeReceive { respond_to })
                        && final(self).spec_buffered() == old(self).spec_buffered(),
                },
                ConnectionCommand::AcceptBidirectional { respond_to } => match old(self).spec_buffered() {
                    Some(PeerStreamOf::Bidirectional(s)) => r == (CommandAction::<A, AR, AB, R, B>::DeliverBidirectional { respond_to, stream: s })
                        && final(self).spec_buffered() is None,
                    _ => r == (CommandAction::<A, AR, AB, R, B>::ProbeBidirectional { respond_to })
                        && final(self).spec_buffered() == old(self).spec_buffered(),
                },
                ConnectionCommand::Close(code) => r == CommandAction::<A, AR, AB, R, B>::CloseConnection(code)
                    && final(self).spec_buffered() == old(self).spec_buffered(),
            },
    {
        match cmd {
            ConnectionCommand::Accept { respond_to } => match self.buffered_stream.take() {
                Some(stream) => CommandAction::DeliverPeer { respond_to, stream },
                None => CommandAction::DeliverNoPeer { respond_to },
            },
            ConnectionCommand::AcceptReceive { respond_to } => match self.buffered_stream.take() {
                Some(PeerStreamOf::Receive(stream)) => CommandAction::DeliverReceive { respond_to, stream },
                Some(other) => {
                    // Wrong kind: keep it, and look briefly for the right one.
                    self.buffered_stream = Some(other);
                    CommandAction::ProbeReceive { respond_to }
                },
                None => CommandAction::ProbeReceive { respond_to },
            },
            ConnectionCommand::AcceptBidirectional { respond_to } => match self.buffered_stream.take() {
                Some(PeerStreamOf::Bidirectional(stream)) => CommandAction::DeliverBidirectional {
                    respond_to,
                    stream,
                },
                Some(other) => {
                    self.buffered_stream = Some(other);
                    CommandAction::ProbeBidirectional { respond_to }
                },
                None => CommandAction::ProbeBidirectional { respond_to },
            },
            ConnectionCommand::Close(code) => CommandAction::CloseConnection(code),
        }
    }

    /// Records the outcome of a brief wait for a stream and decides the answer:
    /// "no stream" on a time-out, the stream (or none) when the connection
    /// answered, and the failure otherwise. A failure ends the connection with
    /// that error, and marks it closed when the error is one that closes it.
    pub fn on_probe_outcome<X>(&mut self, outcome: ProbeOutcome<X>) -> (r: ProbeReply<X>)
        requires
            old(self).spec_disconnect() is None,
        ensures
            final(self).spec_buffered() == old(self).spec_buffered(),
            match outcome {
                ProbeOutcome::TimedOut => r.response == Ok::<Option<X>, TaskError>(None)
                    && !r.mark_closed && final(self).spec_disconnect() is None,
                ProbeOutcome::Accepted(opt) => r.response == Ok::<Option<X>, TaskError>(opt)
                    && !r.mark_closed && final(self).spec_disconnect() is None,
                ProbeOutcome::Failed(f) => r.response == Err::<Option<X>, TaskError>(TaskError::ConnectionFailed(f))
                    && r.mark_closed == f.kind.spec_is_closed()
                    && final(self).spec_disconnect() == Some(ConnectionDisconnectReason::ConnectionError(f)),
            },
    {
        match outcome {
            ProbeOutcome::TimedOut => ProbeReply { response: Ok(None), mark_closed: false },
            ProbeOutcome::Accepted(opt) => ProbeReply { response: Ok(opt), mark_closed: false },
            ProbeOutcome::Failed(failure) => {
                let mark_closed = failure.is_closed();
                let copy = failure.clone();
                self.disconnect_flag = Some(ConnectionDisconnectReason::ConnectionError(failure));
                ProbeReply { response: Err(TaskError::ConnectionFailed(copy)), mark_closed }
            },
        }
    }

    /// Records what waiting for a new peer stream produced. A new stream is
    /// buffered and the pending flag raised; a peer close ends the connection as
    /// closed by the peer; a failure ends it with that error, and marks it closed
    /// when the error is one that closes it.
    pub fn on_incoming(&mut self, outcome: IncomingOutcome<R, B>) -> (r: IncomingReply)
        requires
            old(self).spec_disconnect() is None,
            old(self).spec_buffered() is None,
        ensures
            match outcome {
                IncomingOutcome::Stream(s) => final(self).spec_buffered() == Some(s)
                    && final(self).spec_disconnect() is None
                    && r == (IncomingReply { raise_pending_flag: true, mark_closed: false }),
                IncomingOutcome::PeerClosed => final(self).spec_buffered() is None
                    && final(self).spec_disconnect() == Some(ConnectionDisconnectReason::PeerClosed)
                    && r == (IncomingReply { raise_pending_flag: false, mark_closed: false }),
                IncomingOutcome::Failed(f) => final(self).spec_buffered() is None
                    && final(self).spec_disconnect() == Some(ConnectionDisconnectReason::ConnectionError(f))
                    && r == (IncomingReply { raise_pending_flag: false, mark_closed: f.kind.spec_is_closed() }),
            },
    {
        match outcome {
            IncomingOutcome::Stream(stream) => {
                self.buffered_stream = Some(stream);
                IncomingReply { raise_pending_flag: true, mark_closed: false }
            },
            IncomingOutcome::PeerClosed => {
                self.disconnect_flag = Some(ConnectionDisconnectReason::PeerClosed);
                IncomingReply { raise_pending_flag: false, mark_closed: false }
            },
            IncomingOutcome::Failed(failure) => {
                let mark_closed = failure.is_closed();
                self.disconnect_flag = Some(ConnectionDisconnectReason::ConnectionError(failure));
                IncomingReply { raise_pending_flag: false, mark_closed }
            },
        }
    }

    /// Records that the command channel closed: the connection ends for that reason.
    pub fn on_command_channel_closed(&mut self)
        requires
            old(self).spec_disconnect() is None,
        ensures
            final(self).spec_buffered() == old(self).spec_buffered(),
            final(self).spec_disconnect() matches Some(ConnectionDisconnectReason::MspcChannelClosed { channel_name })
                && channel_name@ == spec_command_channel_name(),
    {
        let channel_name: &'static str = "Connection command channel";
        proof {
            reveal_strlit("Connection command channel");
        }
        self.disconnect_flag = Some(ConnectionDisconnectReason::MspcChannelClosed { channel_name });
    }

    /// A copy of the reason the connection ended, to publish, if it has ended.
    pub fn publication(&self) -> (r: Option<ConnectionDisconnectReason>)
        ensures
            r == self.spec_disconnect(),
    {
        match &self.disconnect_flag {
            Some(reason) => Some(reason.clone()),
            None => None,
        }
    }

    /// The reason the task reports when it stops: the recorded one, or an
    /// internal error naming the missing reason.
    pub fn final_reason(self) -> (r: ConnectionDisconnectReason)
        ensures
            self.spec_disconnect() matches Some(d) ==> r == d,
            self.spec_disconnect() is None ==> (r matches ConnectionDisconnectReason::InternalError(m)
                && m@ == MissingErrorData.spec_text()),
    {
        match self.disconnect_flag {
            Some(reason) => reason,
            None => ConnectionDisconnectReason::InternalError(MissingErrorData.message()),
        }
    }
}

/// Once the connection has ended, the plan is to do nothing more, and the
/// recorded reason is what gets published and reported.
pub proof fn lemma_ended_connection_stays_ended<R, B>(core: ConnectionTaskCore<R, B>)
    requires
        core.spec_disconnect() is Some,
    ensures
        core.spec_poll_plan() == PollPlan::Finished,
{
}

/// The task waits for a peer stream only while no stream is buffered, so a
/// buffered stream is never overwritten.
pub proof fn lemma_stream_awaited_only_when_buffer_empty<R, B>(core: ConnectionTaskCore<R, B>)
    requires
        core.spec_poll_plan() == PollPlan::AwaitCommandOrStream,
    ensures
        core.spec_buffered() is None,
        core.spec_disconnect() is None,
{
}

/// Errors that arise when communications with the async connection task fail.
#[derive(Debug, PartialEq, Eq, Structural, Clone, Copy)]
pub enum ConnectionCommandError {
    /// The communication channel for the async task is full.
    Full,
    /// The communication channel for the async task has been closed.
    ///
    /// This is likely due to the async task for the connection quitting unexpectedly.
    Closed,
}

impl ConnectionCommandError {
    /// The error for a command the channel refused: `Full` when it was full,
    /// `Closed` when it was closed.
    pub fn from_refusal<T>(refusal: &SendRefusal<T>) -> (r: Self)
        ensures
            refusal is Full ==> r == ConnectionCommandError::Full,
            refusal is Closed ==> r == ConnectionCommandError::Closed,
    {
        match refusal {
            SendRefusal::Full(_) => ConnectionCommandError::Full,
            SendRefusal::Closed(_) => ConnectionCommandError::Closed,
        }
    }

    /// The message describing the error.
    pub open spec fn spec_text(self) -> Seq<char> {
        match self {
            ConnectionCommandError::Full => "The communication channel for the async connection task is full."@,
            ConnectionCommandError::Closed => "The communication channel for the async connection task has been closed."@,
        }
    }

    /// The message describing the error.
    pub fn message(&self) -> (s: String)
        ensures
            s@ == self.spec_text(),
    {
        match self {
            ConnectionCommandError::Full => String::from_str(
                "The communication channel for the async connection task is full.",
            ),
            ConnectionCommandError::Closed => String::from_str(
                "The communication channel for the async connection task has been closed.",
            ),
        }
    }
}

/// The error stored when the connection task stops without a recorded reason.
#[derive(Debug, PartialEq, Eq, Structural, Clone, Copy)]
pub struct MissingErrorData;

impl MissingErrorData {
    /// The message describing the error.
    pub open spec fn spec_text(self) -> Seq<char> {
        "Connection task exited without a given reason. This is a bug!"@
    }

    /// The message describing the error.
    pub fn message(&self) -> (s: String)
        ensures
            s@ == self.spec_text(),
    {
        String::from_str("Connection task exited without a given reason. This is a bug!")
    }
}

} // verus!
