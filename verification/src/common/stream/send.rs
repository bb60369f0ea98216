//! Outgoing streams: the handle kept by the synchronous side, and the
//! decisions of the task that writes to the QUIC stream.
use crate::common::channel::{
    bytes_content, clone_bytes, outcome_of, try_recv, try_send, Offer, SendRefusal,
};
use crate::common::connection::disconnect::ConnectionDisconnectReason;
use crate::common::orchestrator::handle::OrchestratorHandle;
use crate::common::orchestrator::QuicTask;
use crate::common::stream::disconnect::{StreamErrorKind, StreamFailure};
use crate::common::stream::id::StreamId;
use crate::common::task_state::{OnceLockState, TaskState};
use crate::common::QuicParentId;
use bytes::Bytes;
use tokio::sync::mpsc::{Receiver, Sender};
use vstd::prelude::*;

verus! {

/// How many errors can be sent at a single time without being dropped.
pub const DEBUG_CHANNEL_SIZE: usize = 32;

/// How many commands can wait for the send task before being dropped.
pub const CONTROL_CHANNEL_SIZE: usize = 32;

/// How many messages can sit between the synchronous side and the send task.
pub const OUTBOUND_CHANNEL_SIZE: usize = 512;

/// Minimum size of the buffer of chunks taken from the channel at once.
pub const MIN_OUTBOUND_BUF_SIZE: usize = 64;

/// Maximum number of chunks taken from the channel at once.
pub const MAX_OUTBOUND_BUF_SIZE: usize = 128;

/// The name of the outbound data channel, reported when it closes.
pub open spec fn spec_outbound_channel_name() -> Seq<char> {
    "Outbound channel"@
}

/// The name of the control channel, reported when it closes.
pub open spec fn spec_control_channel_name() -> Seq<char> {
    "Control channel"@
}

/// A command from the synchronous side to the send task.
#[derive(Debug, PartialEq, Eq, Structural, Clone, Copy)]
pub enum SendControlMessage {
    /// Close the stream and stop.
    CloseAndQuit,
    /// Flush what was written.
    Flush,
}

/// What the send task does with the stream in answer to a command.
#[derive(Debug, PartialEq, Eq, Structural, Clone, Copy)]
pub enum SendControlAction {
    /// Close the stream; the task then ends.
    CloseStream,
    /// Flush the stream.
    FlushStream,
}

/// The state on which the send task decides: why the stream ended, if it has.
pub struct SendTaskCore {
    disconnect_flag: Option<ConnectionDisconnectReason>,
}

impl SendTaskCore {
    /// Why the stream ended, once it has.
    pub closed spec fn spec_disconnect(self) -> Option<ConnectionDisconnectReason> {
        self.disconnect_flag
    }

    /// A running stream.
    pub fn new() -> (r: Self)
        ensures
            r.spec_disconnect() is None,
    {
        SendTaskCore { disconnect_flag: None }
    }

    /// Whether the stream has ended; an ended stream is polled no more.
    pub fn is_disconnected(&self) -> (r: bool)
        ensures
            r == self.spec_disconnect() is Some,
    {
        self.disconnect_flag.is_some()
    }

    /// Records that a batch of `count` chunks was taken from the outbound
    /// channel. An empty batch means the channel closed: the stream ends for
    /// that reason. The batch is written to the stream either way.
    pub fn on_batch_received(&mut self, count: usize)
        requires
            old(self).spec_disconnect() is None,
        ensures
            count == 0 ==> (final(self).spec_disconnect() matches Some(
                ConnectionDisconnectReason::MspcChannelClosed { channel_name },
            ) && channel_name@ == spec_outbound_channel_name()),
            count != 0 ==> final(self).spec_disconnect() is None,
    {
        if count == 0 {
            let channel_name: &'static str = "Outbound channel";
            proof {
                reveal_strlit("Outbound channel");
            }
            self.disconnect_flag = Some(ConnectionDisconnectReason::MspcChannelClosed { channel_name });
        }
    }

    /// Records that writing a batch failed with `error`. An invalid stream, or
    /// a write after finishing, ends the stream as invalid; a reset by the peer
    /// ends it as reset with the peer's code; other errors leave it running.
    pub fn on_write_error(&mut self, error: &StreamFailure)
        ensures
            match error.kind {
                StreamErrorKind::InvalidStream | StreamErrorKind::SendAfterFinish => final(self).spec_disconnect()
                    == Some(ConnectionDisconnectReason::InvalidStream),
                StreamErrorKind::StreamReset(code) => final(self).spec_disconnect() == Some(
                    ConnectionDisconnectReason::Reset(code),
                ),
                _ => final(self).spec_disconnect() == old(self).spec_disconnect(),
            },
    {
        match &error.kind {
            StreamErrorKind::InvalidStream | StreamErrorKind::SendAfterFinish => {
                self.disconnect_flag = Some(ConnectionDisconnectReason::InvalidStream);
            },
            StreamErrorKind::StreamReset(code) => {
                self.disconnect_flag = Some(ConnectionDisconnectReason::Reset(*code));
            },
            _ => {},
        }
    }

    /// Decides what a command does: closing ends the stream as closed by the
    /// user; flushing leaves it running.
    pub fn on_control(&mut self, msg: SendControlMessage) -> (r: SendControlAction)
        requires
            old(self).spec_disconnect() is None,
        ensures
            msg == SendControlMessage::CloseAndQuit ==> r == SendControlAction::CloseStream
                && final(self).spec_disconnect() == Some(ConnectionDisconnectReason::UserClosed),
            msg == SendControlMessage::Flush ==> r == SendControlAction::FlushStream
                && final(self).spec_disconnect() is None,
    {
        match msg {
            SendControlMessage::CloseAndQuit => {
                self.disconnect_flag = Some(ConnectionDisconnectReason::UserClosed);
                SendControlAction::CloseStream
            },
            SendControlMessage::Flush => SendControlAction::FlushStream,
        }
    }

    /// Records that the control channel closed: the stream ends for that reason.
    pub fn on_control_channel_closed(&mut self)
        requires
            old(self).spec_disconnect() is None,
        ensures
            final(self).spec_disconnect() matches Some(ConnectionDisconnectReason::MspcChannelClosed { channel_name })
                && channel_name@ == spec_control_channel_name(),
    {
        let channel_name: &'static str = "Control channel";
        proof {
            reveal_strlit("Control channel");
        }
        self.disconnect_flag = Some(ConnectionDisconnectReason::MspcChannelClosed { channel_name });
    }

    /// A copy of the reason the stream ended, to publish, if it has ended.
    pub fn publication(&self) -> (r: Option<ConnectionDisconnectReason>)
        ensures
            r == self.spec_disconnect(),
    {
        match &self.disconnect_flag {
            Some(reason) => Some(reason.clone()),
            None => None,
        }
    }
}

/// What follows the orchestrator's answer to a new send task: the task handed
/// back, and the reason to record for the stream.
pub open spec fn spec_after_push<S>(pushed: Result<(), SendRefusal<S>>) -> (
    Option<S>,
    Option<ConnectionDisconnectReason>,
) {
    match pushed {
        Ok(()) => (None, None),
        Err(refusal) => (Some(refusal.spec_value()), Some(ConnectionDisconnectReason::OrchestratorError)),
    }
}

/// What follows the orchestrator's answer to a new send task: a taken task
/// gives nothing back and records nothing; a refused task is handed back, and
/// the stream is to be recorded as ended by an orchestrator error.
pub fn after_push<S>(pushed: Result<(), SendRefusal<S>>) -> (r: (Option<S>, Option<ConnectionDisconnectReason>))
    ensures
        r == spec_after_push(pushed),
{
    match pushed {
        Ok(()) => (None, None),
        Err(refusal) => (Some(refusal.into_inner()), Some(ConnectionDisconnectReason::OrchestratorError)),
    }
}

/// The synchronous side's handle on an outgoing stream: data and commands go
/// to the send task through channels, and errors and the end of the stream
/// come back.
#[derive(Debug)]
pub struct QuicSendStream {
    task_state: OnceLockState<ConnectionDisconnectReason>,
    /// The reason recorded when the orchestrator refused the stream's task.
    refusal: Option<ConnectionDisconnectReason>,
    outbound_data: Sender<Bytes>,
    outbound_control: Sender<SendControlMessage>,
    send_errors: Receiver<String>,
    stream_id: StreamId,
}

impl QuicSendStream {
    /// The identifier of the stream.
    pub closed spec fn spec_stream_id(self) -> StreamId {
        self.stream_id
    }

    /// The reason recorded when the orchestrator refused the stream's task.
    pub closed spec fn spec_refusal(self) -> Option<ConnectionDisconnectReason> {
        self.refusal
    }

    /// The command channel to the send task.
    pub closed spec fn spec_control(self) -> Sender<SendControlMessage> {
        self.outbound_control
    }

    /// The data channel to the send task.
    pub closed spec fn spec_outbound(self) -> Sender<Bytes> {
        self.outbound_data
    }

    /// Builds the handle over the channels of a send task and hands the task to
    /// the orchestrator; the record of that offer is returned last. What follows
    /// the orchestrator's answer is [`after_push`]: when the task is refused it
    /// is handed back, to be closed early, and the stream is recorded as ended
    /// by an orchestrator error; when it is taken, nothing is handed back and
    /// nothing is recorded.
    pub fn new<C, R, S>(
        orchestrator: &OrchestratorHandle<C, S, R>,
        task: S,
        task_state: OnceLockState<ConnectionDisconnectReason>,
        outbound_data: Sender<Bytes>,
        outbound_control: Sender<SendControlMessage>,
        send_errors: Receiver<String>,
        stream_id: StreamId,
    ) -> (r: (Self, Option<S>, Offer<QuicTask<C, S, R>>))
        ensures
            r.0.spec_stream_id() == stream_id,
            r.0.spec_control() == outbound_control,
            r.0.spec_outbound() == outbound_data,
            r.2.spec_value() == QuicTask::<C, S, R>::Send(task),
            r.2.spec_channel() == orchestrator.spec_sender(),
            r.1 is None <==> r.2.spec_accepted(),
            r.1 matches Some(t) ==> t == task && r.0.spec_refusal() == Some(ConnectionDisconnectReason::OrchestratorError),
            r.1 is None ==> r.0.spec_refusal() is None,
    {
        let mut task_state = task_state;
        let (pushed, offer) = orchestrator.push_send(task);
        let (refused, refusal) = after_push(pushed);
        if let Some(reason) = &refusal {
            let _ = task_state.set(reason.clone());
        }
        (Self { task_state, refusal, outbound_data, outbound_control, send_errors, stream_id }, refused, offer)
    }

    /// The sending half of the command channel to the send task. Waiting for
    /// room on it blocks the thread, so commands that must wait are sent by
    /// the engine side.
    pub fn control_sender(&self) -> (r: &Sender<SendControlMessage>)
        ensures
            *r == self.spec_control(),
    {
        &self.outbound_control
    }

    /// Whether the task for the stream is still running: never when the
    /// orchestrator refused it.
    pub fn is_open(&self) -> (r: bool)
        ensures
            self.spec_refusal() is Some ==> !r,
    {
        self.refusal.is_none() && !self.task_state.is_finished()
    }

    /// Offers one set of bytes to the send task's data channel; the record of
    /// the offer comes with the answer. When refused, the same bytes come back.
    pub fn send(&mut self, data: Bytes) -> (r: (Result<(), SendRefusal<Bytes>>, Offer<Bytes>))
        ensures
            r.0 matches Err(e) ==> e.spec_value() == data,
            r.1.spec_value() == data,
            r.1.spec_channel() == old(self).spec_outbound(),
            r.1.spec_outcome() == outcome_of(r.0),
            *final(self) == *old(self),
    {
        try_send(&self.outbound_data, data)
    }

    /// Offers the chunks of `data` to the send task's data channel in order
    /// until one is refused or all are taken, and removes the taken ones from
    /// `data`. Afterwards `data` holds exactly the chunks not taken, in their
    /// order: nothing when all were taken (`Ok`), and otherwise the refused
    /// chunk followed by the ones after it, the refused chunk's bytes being
    /// handed back in the error. The records of the offers come back in the
    /// order they were made: one accepted offer of each chunk taken, and after
    /// them, on `Err`, the refused offer.
    pub fn send_many_drain(&mut self, data: &mut Vec<Bytes>) -> (r: (Result<(), SendRefusal<Bytes>>, Vec<Offer<Bytes>>))
        ensures
            final(data)@.len() <= old(data)@.len(),
            final(data)@ == old(data)@.subrange(
                old(data)@.len() - final(data)@.len(),
                old(data)@.len() as int,
            ),
            r.0 is Ok <==> final(data)@.len() == 0,
            r.0 matches Err(e) ==> bytes_content(e.spec_value()) == bytes_content(final(data)@[0]),
            r.1@.len() == old(data)@.len() - final(data)@.len() + (if r.0 is Ok { 0int } else { 1int }),
            forall|k: int|
                0 <= k < r.1@.len() ==> (#[trigger] r.1@[k]).spec_channel() == old(self).spec_outbound()
                    && bytes_content(r.1@[k].spec_value()) == bytes_content(old(data)@[k]),
            forall|k: int|
                0 <= k < old(data)@.len() - final(data)@.len() ==> (#[trigger] r.1@[k]).spec_accepted(),
            r.0 matches Err(e) ==> r.1@.last().spec_value() == e.spec_value() && r.1@.last().spec_outcome()
                == outcome_of(r.0),
            *final(self) == *old(self),
    {
        let mut sent_count: usize = 0;
        let mut res: Result<(), SendRefusal<Bytes>> = Ok(());
        let mut offers: Vec<Offer<Bytes>> = Vec::new();
        while sent_count < data.len()
            invariant_except_break
                res is Ok,
                offers@.len() == sent_count,
            invariant
                sent_count <= data@.len(),
                data@ == old(data)@,
                forall|k: int|
                    0 <= k < offers@.len() ==> (#[trigger] offers@[k]).spec_channel() == self.outbound_data
                        && bytes_content(offers@[k].spec_value()) == bytes_content(data@[k]),
                forall|k: int| 0 <= k < sent_count ==> (#[trigger] offers@[k]).spec_accepted(),
            ensures
                sent_count <= data@.len(),
                data@ == old(data)@,
                res is Ok ==> sent_count == data@.len() && offers@.len() == sent_count,
                res matches Err(e) ==> sent_count < data@.len() && bytes_content(e.spec_value())
                    == bytes_content(data@[sent_count as int]) && offers@.len() == sent_count + 1
                    && offers@.last().spec_value() == e.spec_value() && offers@.last().spec_outcome()
                    == outcome_of(res),
                forall|k: int|
                    0 <= k < offers@.len() ==> (#[trigger] offers@[k]).spec_channel() == self.outbound_data
                        && bytes_content(offers@[k].spec_value()) == bytes_content(data@[k]),
                forall|k: int| 0 <= k < sent_count ==> (#[trigger] offers@[k]).spec_accepted(),
            decreases data@.len() - sent_count,
        {
            let item = clone_bytes(&data[sent_count]);
            let (attempt, offer) = try_send(&self.outbound_data, item);
            offers.push(offer);
            if attempt.is_err() {
                res = attempt;
                break;
            }
            sent_count = sent_count + 1;
        }
        if sent_count == data.len() {
            data.clear();
        } else {
            let rest = data.split_off(sent_count);
            *data = rest;
        }
        (res, offers)
    }

    /// The next error reported by the task and not yet taken, if any.
    pub fn next_outstanding_error(&mut self) -> (r: Option<String>)
        ensures
            final(self).spec_stream_id() == old(self).spec_stream_id(),
    {
        try_recv(&mut self.send_errors)
    }

    /// Gets the disconnect reason if the stream has closed.
    /// Returns `None` if the stream is still open.
    pub fn get_disconnect_reason(&mut self) -> (r: Option<ConnectionDisconnectReason>)
        ensures
            *final(self) == *old(self),
            old(self).spec_refusal() is Some ==> r == old(self).spec_refusal(),
    {
        match &self.refusal {
            Some(reason) => Some(reason.clone()),
            None => self.task_state.get_disconnect_reason(),
        }
    }

    /// Gets the ID information for the parent client or server for this stream.
    pub fn parent_id(&self) -> (r: QuicParentId)
        ensures
            r == self.spec_stream_id().spec_connection_id().spec_parent_id(),
    {
        self.stream_id.parent_id()
    }

    /// Gets the full ID information for this stream.
    pub fn id(&self) -> (r: StreamId)
        ensures
            r == self.spec_stream_id(),
    {
        self.stream_id
    }
}

} // verus!
