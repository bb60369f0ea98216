//! The asynchronous runtime's channels and handles, and the payload type of
//! outgoing data, as seen from verified code.
use bytes::Bytes;
use tokio::runtime::Handle;
use tokio::sync::mpsc::error::{TryRecvError, TrySendError};
use tokio::sync::mpsc::{Receiver, Sender};
use tokio::sync::oneshot;
use vstd::prelude::*;

verus! {

/// The sending half of a bounded multi-producer channel.
#[verifier::external_type_specification]
#[verifier::external_body]
#[verifier::reject_recursive_types(T)]
pub struct ExSender<T>(Sender<T>);

/// The receiving half of a bounded multi-producer channel.
#[verifier::external_type_specification]
#[verifier::external_body]
#[verifier::reject_recursive_types(T)]
pub struct ExReceiver<T>(Receiver<T>);

/// A handle to the asynchronous runtime.
#[verifier::external_type_specification]
#[verifier::external_body]
pub struct ExHandle(Handle);

/// A cheaply shareable buffer of bytes.
#[verifier::external_type_specification]
#[verifier::external_body]
pub struct ExBytes(Bytes);

/// The sending half of a channel that carries a single value.
#[verifier::external_type_specification]
#[verifier::external_body]
#[verifier::reject_recursive_types(T)]
pub struct ExOneshotSender<T>(oneshot::Sender<T>);

/// The receiving half of a channel that carries a single value.
#[verifier::external_type_specification]
#[verifier::external_body]
#[verifier::reject_recursive_types(T)]
pub struct ExOneshotReceiver<T>(oneshot::Receiver<T>);

/// The error of awaiting a single-value channel whose sender was dropped.
#[verifier::external_type_specification]
#[verifier::external_body]
pub struct ExOneshotRecvError(oneshot::error::RecvError);

/// The bytes a buffer holds.
pub uninterp spec fn bytes_content(b: Bytes) -> Seq<u8>;

/// Why a value could not be put on a channel; the value is handed back.
#[derive(Debug)]
pub enum SendRefusal<T> {
    /// The channel is at capacity.
    Full(T),
    /// The receiving half has been dropped.
    Closed(T),
}

impl<T> SendRefusal<T> {
    /// The value that was refused.
    pub open spec fn spec_value(self) -> T {
        match self {
            SendRefusal::Full(v) => v,
            SendRefusal::Closed(v) => v,
        }
    }

    /// Takes back the value that was refused.
    pub fn into_inner(self) -> (r: T)
        ensures
            r == self.spec_value(),
    {
        match self {
            SendRefusal::Full(v) => v,
            SendRefusal::Closed(v) => v,
        }
    }
}

/// What a channel did with a value offered to it.
#[derive(Debug, PartialEq, Eq, Structural, Clone, Copy)]
pub enum OfferOutcome {
    /// The value was put on the channel.
    Accepted,
    /// The channel was at capacity; the value was handed back.
    Full,
    /// The receiving half was gone; the value was handed back.
    Closed,
}

/// What a channel did with a value, read from its answer.
pub open spec fn outcome_of<T>(answer: Result<(), SendRefusal<T>>) -> OfferOutcome {
    match answer {
        Ok(()) => OfferOutcome::Accepted,
        Err(SendRefusal::Full(_)) => OfferOutcome::Full,
        Err(SendRefusal::Closed(_)) => OfferOutcome::Closed,
    }
}

/// The record of one offer of a value to a channel: which value, to which
/// channel, and what the channel did with it. Only [`try_send`] makes one, so
/// holding one shows that the offer was made.
#[verifier::reject_recursive_types(T)]
pub struct Offer<T> {
    value: Ghost<T>,
    channel: Ghost<Sender<T>>,
    outcome: OfferOutcome,
}

impl<T> Offer<T> {
    /// The value that was offered.
    pub closed spec fn spec_value(self) -> T {
        self.value@
    }

    /// The channel it was offered to.
    pub closed spec fn spec_channel(self) -> Sender<T> {
        self.channel@
    }

    /// What the channel did with it.
    pub closed spec fn spec_outcome(self) -> OfferOutcome {
        self.outcome
    }

    /// Whether the channel took the value.
    pub open spec fn spec_accepted(self) -> bool {
        self.spec_outcome() == OfferOutcome::Accepted
    }

    /// What the channel did with the value.
    pub fn outcome(&self) -> (r: OfferOutcome)
        ensures
            r == self.spec_outcome(),
    {
        self.outcome
    }
}

/// `Sender::try_send`: offers `value` to the channel without waiting. Whether
/// it is accepted depends on the channel's other users; when it is refused,
/// because the channel is full or closed, the very value given is handed back.
/// The record that comes with the answer names the value, the channel and the
/// answer.
#[verifier::external_body]
pub(crate) fn try_send<T>(sender: &Sender<T>, value: T) -> (r: (Result<(), SendRefusal<T>>, Offer<T>))
    ensures
        r.0 matches Err(e) ==> e.spec_value() == value,
        r.1.spec_value() == value,
        r.1.spec_channel() == *sender,
        r.1.spec_outcome() == outcome_of(r.0),
{
    let (offered, channel) = (Ghost(value), Ghost(*sender));
    let (answer, outcome) = match sender.try_send(value) {
        Ok(()) => (Ok(()), OfferOutcome::Accepted),
        Err(TrySendError::Full(v)) => (Err(SendRefusal::Full(v)), OfferOutcome::Full),
        Err(TrySendError::Closed(v)) => (Err(SendRefusal::Closed(v)), OfferOutcome::Closed),
    };
    (answer, Offer { value: offered, channel, outcome })
}

/// `Receiver::try_recv`: the next value on the channel if one is waiting, or
/// `None` when the channel is empty or closed. What is waiting depends on the
/// senders, so nothing is stated of the result.
#[verifier::external_body]
pub(crate) fn try_recv<T>(receiver: &mut Receiver<T>) -> Option<T> {
    match receiver.try_recv() {
        Ok(v) => Some(v),
        Err(TryRecvError::Empty) => None,
        Err(TryRecvError::Disconnected) => None,
    }
}

/// `oneshot::channel`: a new single-value channel.
#[verifier::external_body]
pub(crate) fn oneshot_channel<T>() -> (oneshot::Sender<T>, oneshot::Receiver<T>) {
    oneshot::channel()
}

/// `oneshot::Receiver::is_empty`: whether no value is waiting (also true when
/// the sender was dropped without sending). This depends on the sender, so
/// nothing is stated of the result.
#[verifier::external_body]
pub(crate) fn oneshot_is_empty<T>(receiver: &oneshot::Receiver<T>) -> bool {
    receiver.is_empty()
}

/// What `oneshot::Receiver::try_recv` found.
pub enum OneshotReceive<T> {
    /// The value sent.
    Value(T),
    /// Nothing has been sent yet.
    Empty,
    /// The sender is gone; the error's description.
    Closed(String),
}

/// `oneshot::Receiver::try_recv`: the value if it was sent, `Empty` if not yet,
/// and `Closed` with the error's description when the sender was dropped.
/// This depends on the sender, so nothing is stated of the result.
#[verifier::external_body]
pub(crate) fn oneshot_try_recv<T>(receiver: &mut oneshot::Receiver<T>) -> OneshotReceive<T> {
    match receiver.try_recv() {
        Ok(v) => OneshotReceive::Value(v),
        Err(oneshot::error::TryRecvError::Empty) => OneshotReceive::Empty,
        Err(e) => OneshotReceive::Closed(e.to_string()),
    }
}

/// `Sender::clone`: another sending handle on the same channel, which a
/// verified caller cannot tell apart from the original.
#[verifier::external_body]
pub(crate) fn clone_sender<T>(sender: &Sender<T>) -> (r: Sender<T>)
    ensures
        r == *sender,
{
    sender.clone()
}

/// `Handle::clone`: another handle on the same runtime, which a verified
/// caller cannot tell apart from the original.
#[verifier::external_body]
pub(crate) fn clone_handle(handle: &Handle) -> (r: Handle)
    ensures
        r == *handle,
{
    handle.clone()
}

/// `Bytes::clone`: another buffer over the same bytes.
#[verifier::external_body]
pub(crate) fn clone_bytes(b: &Bytes) -> (r: Bytes)
    ensures
        bytes_content(r) == bytes_content(*b),
{
    b.clone()
}

} // verus!
