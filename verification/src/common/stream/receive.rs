//! Incoming streams: the handle kept by the synchronous side, and the
//! decisions of the task that reads from the QUIC stream.
use crate::common::channel::{try_recv, try_send, Offer, OfferOutcome, SendRefusal};
use crate::common::error_code::ApplicationErrorCode;
use crate::common::stream::disconnect::{StreamDisconnectReason, StreamErrorKind, StreamFailure};
use crate::common::stream::id::StreamId;
use crate::common::task_state::{OnceLockState, TaskState};
use crate::common::QuicParentId;
use aeronet_io::packet::RecvPacket;
use tokio::sync::mpsc::{Receiver, Sender};
use vstd::prelude::*;

verus! {

/// A packet of received bytes with the time it arrived.
#[verifier::external_type_specification]
#[verifier::external_body]
pub struct ExRecvPacket(RecvPacket);

/// How many errors can be sent at a single time without being dropped.
pub const DEBUG_CHANNEL_SIZE: usize = 64;

/// How many commands can wait for the receive task before being dropped.
pub const CONTROL_CHANNEL_SIZE: usize = 32;

/// How many packets can sit between the receive task and the synchronous side.
pub const INBOUND_CHANNEL_SIZE: usize = 512;

/// How many chunks are read from the stream at once.
pub const INBOUND_BUFF_SIZE: usize = 128;

/// The name of the inbound data channel, reported when it closes.
pub open spec fn spec_inbound_channel_name() -> Seq<char> {
    "Inbound receive channel"@
}

/// The name of the control channel, reported when it closes.
pub open spec fn spec_receive_control_channel_name() -> Seq<char> {
    "Control channel"@
}

/// A command from the synchronous side to the receive task.
#[derive(Debug, PartialEq, Eq, Structural, Clone, Copy)]
pub enum RecControlMessage {
    /// Ask the peer to stop sending, with the given code.
    StopSend(ApplicationErrorCode),
}

/// What handing a received packet to the synchronous side found.
#[derive(Debug, PartialEq, Eq, Structural, Clone, Copy)]
pub enum TransferOutcome {
    /// The packet was delivered.
    Delivered,
    /// The inbound channel was full: the packet is dropped.
    Full,
    /// The inbound channel was closed: the packet is dropped and the stream ends.
    Closed,
}

/// The number of offers a channel refused.
pub open spec fn count_refused<P>(offers: Seq<Offer<P>>) -> nat
    decreases offers.len(),
{
    if offers.len() == 0 {
        0
    } else {
        count_refused(offers.drop_last()) + if offers.last().spec_accepted() {
            0nat
        } else {
            1nat
        }
    }
}

/// Whether a channel refused one of the offers for being closed.
pub open spec fn any_closed<P>(offers: Seq<Offer<P>>) -> bool {
    exists|k: int| 0 <= k < offers.len() && #[trigger] offers[k].spec_outcome() == OfferOutcome::Closed
}

/// What handing a batch of packets to the synchronous side did: the records of
/// the offers, one per packet in order, and how many packets were dropped.
#[verifier::reject_recursive_types(P)]
pub struct BatchDelivery<P> {
    pub dropped: usize,
    pub offers: Vec<Offer<P>>,
}

/// The state on which the receive task decides: why the stream ended, if it has.
pub struct RecTaskCore {
    disconnect_flag: Option<StreamDisconnectReason>,
}

impl RecTaskCore {
    /// Why the stream ended, once it has.
    pub closed spec fn spec_disconnect(self) -> Option<StreamDisconnectReason> {
        self.disconnect_flag
    }

    /// A running stream.
    pub fn new() -> (r: Self)
        ensures
            r.spec_disconnect() is None,
    {
        RecTaskCore { disconnect_flag: None }
    }

    /// Whether the read loop must stop: the stream has ended.
    pub fn should_stop(&self) -> (r: bool)
        ensures
            r == self.spec_disconnect() is Some,
    {
        self.disconnect_flag.is_some()
    }

    /// Records the outcome of handing one packet to the synchronous side: a
    /// closed inbound channel ends the stream for that reason; otherwise
    /// nothing changes. Returns whether the packet was dropped.
    pub fn on_transfer(&mut self, outcome: TransferOutcome) -> (dropped: bool)
        ensures
            dropped == (outcome != TransferOutcome::Delivered),
            outcome == TransferOutcome::Closed ==> (final(self).spec_disconnect() matches Some(
                StreamDisconnectReason::MspcChannelClosed { channel_name },
            ) && channel_name@ == spec_inbound_channel_name()),
            outcome != TransferOutcome::Closed ==> final(self).spec_disconnect() == old(self).spec_disconnect(),
    {
        match outcome {
            TransferOutcome::Delivered => false,
            TransferOutcome::Full => true,
            TransferOutcome::Closed => {
                let channel_name: &'static str = "Inbound receive channel";
                proof {
                    reveal_strlit("Inbound receive channel");
                }
                self.disconnect_flag = Some(StreamDisconnectReason::MspcChannelClosed { channel_name });
                true
            },
        }
    }

    /// Offers each packet of a batch to the synchronous side's inbound channel
    /// once, in order, recording each outcome as
    /// [`on_transfer`](Self::on_transfer) does. Returns the records of the
    /// offers, one per packet in the batch's order, and how many packets were
    /// dropped: those the channel refused. The stream ends for a closed inbound
    /// channel exactly when the channel refused a packet for being closed, and
    /// is otherwise left as it was.
    pub fn deliver_batch<P>(&mut self, inbound: &Sender<P>, packets: Vec<P>) -> (r: BatchDelivery<P>)
        ensures
            r.offers@.len() == packets@.len(),
            forall|i: int|
                0 <= i < packets@.len() ==> (#[trigger] r.offers@[i]).spec_value() == packets@[i]
                    && r.offers@[i].spec_channel() == *inbound,
            r.dropped == count_refused(r.offers@),
            any_closed(r.offers@) ==> (final(self).spec_disconnect() matches Some(
                StreamDisconnectReason::MspcChannelClosed { channel_name },
            ) && channel_name@ == spec_inbound_channel_name()),
            !any_closed(r.offers@) ==> final(self).spec_disconnect() == old(self).spec_disconnect(),
    {
        let mut dropped: usize = 0;
        let n = packets.len();
        let ghost all = packets@;
        let mut rest = packets;
        let mut offers: Vec<Offer<P>> = Vec::new();
        let mut i: usize = 0;
        while i < n
            invariant
                n == all.len(),
                rest@ == all.subrange(i as int, n as int),
                i <= n,
                offers@.len() == i,
                forall|k: int|
                    0 <= k < i ==> (#[trigger] offers@[k]).spec_value() == all[k] && offers@[k].spec_channel()
                        == *inbound,
                dropped == count_refused(offers@),
                dropped <= i,
                any_closed(offers@) ==> (self.spec_disconnect() matches Some(
                    StreamDisconnectReason::MspcChannelClosed { channel_name },
                ) && channel_name@ == spec_inbound_channel_name()),
                !any_closed(offers@) ==> self.spec_disconnect() == old(self).spec_disconnect(),
            decreases n - i,
        {
            let packet = rest.remove(0);
            let (answer, offer) = try_send(inbound, packet);
            let outcome = match answer {
                Ok(()) => TransferOutcome::Delivered,
                Err(SendRefusal::Full(_)) => TransferOutcome::Full,
                Err(SendRefusal::Closed(_)) => TransferOutcome::Closed,
            };
            let ghost before = offers@;
            offers.push(offer);
            proof {
                assert(offers@.drop_last() =~= before);
                assert(rest@ =~= all.subrange(i + 1, n as int));
                if offer.spec_outcome() == OfferOutcome::Closed {
                    assert(offers@[i as int].spec_outcome() == OfferOutcome::Closed);
                }
                if any_closed(before) {
                    let k = choose|k: int|
                        0 <= k < before.len() && #[trigger] before[k].spec_outcome() == OfferOutcome::Closed;
                    assert(offers@[k].spec_outcome() == OfferOutcome::Closed);
                }
                if !any_closed(before) && offer.spec_outcome() != OfferOutcome::Closed {
                    assert forall|k: int| 0 <= k < offers@.len() implies #[trigger] offers@[k].spec_outcome()
                        != OfferOutcome::Closed by {
                        if k < i {
                            assert(offers@[k] == before[k]);
                        }
                    }
                }
            }
            if self.on_transfer(outcome) {
                dropped = dropped + 1;
            }
            i = i + 1;
        }
        BatchDelivery { dropped, offers }
    }

    /// Records that a read finished; a read that found the stream finished by
    /// the peer ends the stream as closed by the peer.
    pub fn on_read(&mut self, is_open: bool)
        ensures
            !is_open ==> final(self).spec_disconnect() == Some(StreamDisconnectReason::PeerClosed),
            is_open ==> final(self).spec_disconnect() == old(self).spec_disconnect(),
    {
        if !is_open {
            self.disconnect_flag = Some(StreamDisconnectReason::PeerClosed);
        }
    }

    /// Records that a read failed with `error`: a connection error ends the
    /// stream with that error, an invalid stream ends it as invalid, a reset
    /// ends it as reset with the peer's code; other errors leave it running.
    pub fn on_read_error(&mut self, error: &StreamFailure)
        ensures
            match error.kind {
                StreamErrorKind::ConnectionError(f) => final(self).spec_disconnect() == Some(
                    StreamDisconnectReason::ConnectionError(f),
                ),
                StreamErrorKind::InvalidStream => final(self).spec_disconnect() == Some(
                    StreamDisconnectReason::InvalidStream,
                ),
                StreamErrorKind::StreamReset(code) => final(self).spec_disconnect() == Some(
                    StreamDisconnectReason::Reset(code),
                ),
                _ => final(self).spec_disconnect() == old(self).spec_disconnect(),
            },
    {
        match &error.kind {
            StreamErrorKind::ConnectionError(f) => {
                self.disconnect_flag = Some(StreamDisconnectReason::ConnectionError(f.clone()));
            },
            StreamErrorKind::InvalidStream => {
                self.disconnect_flag = Some(StreamDisconnectReason::InvalidStream);
            },
            StreamErrorKind::StreamReset(code) => {
                self.disconnect_flag = Some(StreamDisconnectReason::Reset(*code));
            },
            _ => {},
        }
    }

    /// Decides what a command does: asking the peer to stop sending ends the
    /// stream as closed by the user; the code to send the peer is returned.
    pub fn on_control(&mut self, msg: RecControlMessage) -> (code: ApplicationErrorCode)
        ensures
            msg == RecControlMessage::StopSend(code),
            final(self).spec_disconnect() == Some(StreamDisconnectReason::UserClosed),
    {
        match msg {
            RecControlMessage::StopSend(code) => {
                self.disconnect_flag = Some(StreamDisconnectReason::UserClosed);
                code
            },
        }
    }

    /// Records that the control channel closed: the stream ends for that reason.
    pub fn on_control_channel_closed(&mut self)
        ensures
            final(self).spec_disconnect() matches Some(StreamDisconnectReason::MspcChannelClosed { channel_name })
                && channel_name@ == spec_receive_control_channel_name(),
    {
        let channel_name: &'static str = "Control channel";
        proof {
            reveal_strlit("Control channel");
        }
        self.disconnect_flag = Some(StreamDisconnectReason::MspcChannelClosed { channel_name });
    }

    /// The reason published when the task stops: the recorded one, or
    /// `NoReason` if none was recorded.
    pub fn final_reason(self) -> (r: StreamDisconnectReason)
        ensures
            self.spec_disconnect() matches Some(d) ==> r == d,
            self.spec_disconnect() is None ==> r == StreamDisconnectReason::NoReason,
    {
        match self.disconnect_flag {
            Some(reason) => reason,
            None => StreamDisconnectReason::NoReason,
        }
    }
}

/// The synchronous side's handle on an incoming stream: packets and the end of
/// the stream come from the receive task, and commands go to it.
#[derive(Debug)]
pub struct QuicReceiveStream {
    task_state: OnceLockState<StreamDisconnectReason>,
    inbound_data: Receiver<RecvPacket>,
    inbound_control: Sender<RecControlMessage>,
    receive_errors: Receiver<String>,
    stream_id: StreamId,
}

impl QuicReceiveStream {
    /// The identifier of the stream.
    pub closed spec fn spec_stream_id(self) -> StreamId {
        self.stream_id
    }

    /// The inbound packet channel.
    pub closed spec fn spec_inbound(self) -> Receiver<RecvPacket> {
        self.inbound_data
    }

    /// The command channel to the receive task.
    pub closed spec fn spec_control(self) -> Sender<RecControlMessage> {
        self.inbound_control
    }

    /// Builds the handle over the channels of a receive task.
    pub fn new(
        task_state: OnceLockState<StreamDisconnectReason>,
        inbound_data: Receiver<RecvPacket>,
        inbound_control: Sender<RecControlMessage>,
        receive_errors: Receiver<String>,
        stream_id: StreamId,
    ) -> (r: Self)
        ensures
            r.spec_stream_id() == stream_id,
            r.spec_inbound() == inbound_data,
            r.spec_control() == inbound_control,
    {
        Self { task_state, inbound_data, inbound_control, receive_errors, stream_id }
    }

    /// Receives a single packet from the stream, if one is waiting.
    pub fn recv(&mut self) -> (r: Option<RecvPacket>)
        ensures
            final(self).spec_stream_id() == old(self).spec_stream_id(),
    {
        try_recv(&mut self.inbound_data)
    }

    /// The receiving half of the inbound packet channel. Waiting on it blocks
    /// the thread, so waiting receives are done by the engine side.
    pub fn inbound_data_mut(&mut self) -> (r: &mut Receiver<RecvPacket>)
        ensures
            *r == old(self).spec_inbound(),
            final(self).spec_stream_id() == old(self).spec_stream_id(),
            final(self).spec_control() == old(self).spec_control(),
            final(self).spec_inbound() == *final(r),
    {
        &mut self.inbound_data
    }

    /// Returns `true` if this stream is still open.
    pub fn is_open(&self) -> bool {
        !self.task_state.is_finished()
    }

    /// Gets the disconnect reason if the stream has closed.
    /// Returns `None` if the stream is still open.
    pub fn get_disconnect_reason(&mut self) -> (r: Option<StreamDisconnectReason>)
        ensures
            *final(self) == *old(self),
    {
        self.task_state.get_disconnect_reason()
    }

    /// The sending half of the command channel to the receive task. Waiting
    /// for room on it blocks the thread, so commands that must wait are sent
    /// by the engine side.
    pub fn control_sender(&self) -> (r: &Sender<RecControlMessage>)
        ensures
            *r == self.spec_control(),
    {
        &self.inbound_control
    }

    /// The next error reported by the task and not yet taken, if any.
    pub fn next_outstanding_error(&mut self) -> (r: Option<String>)
        ensures
            final(self).spec_stream_id() == old(self).spec_stream_id(),
    {
        try_recv(&mut self.receive_errors)
    }

    /// Gets the ID information for the parent client or server for this stream.
    pub fn parent_id(&self) -> (r: QuicParentId)
        ensures
            r == self.spec_stream_id().spec_connection_id().spec_parent_id(),
    {
        self.stream_id.parent_id()
    }

    /// Gets the full ID information for this stream.
    pub fn id(&self) -> (r: StreamId)
        ensures
            r == self.spec_stream_id(),
    {
        self.stream_id
    }
}

} // verus!
