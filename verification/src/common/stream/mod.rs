//! Streams of a connection, and the attempts that yield them.
use crate::common::attempt::{QuicActionAttempt, QuicActionError, TaskResult};
use crate::common::connection::id::ConnectionId;
use crate::common::connection::task::PeerStreamOf;
use crate::common::stream::receive::QuicReceiveStream;
use crate::common::stream::send::QuicSendStream;
use vstd::prelude::*;

pub mod disconnect;
pub mod id;
pub mod receive;
pub mod send;

verus! {

/// A stream opened by the peer, as handed to the synchronous side.
#[derive(Debug)]
pub enum QuicPeerStream {
    Bidirectional(QuicReceiveStream, QuicSendStream),
    Receive(QuicReceiveStream),
}

impl QuicPeerStream {
    /// Builds the handle for a peer stream from the handles of its halves: a
    /// bidirectional stream gets both, a receive stream the receiving one.
    pub fn new(stream: PeerStreamOf<QuicReceiveStream, (QuicReceiveStream, QuicSendStream)>) -> (r: Self)
        ensures
            match stream {
                PeerStreamOf::Receive(rec) => r == QuicPeerStream::Receive(rec),
                PeerStreamOf::Bidirectional((rec, send)) => r == QuicPeerStream::Bidirectional(rec, send),
            },
    {
        match stream {
            PeerStreamOf::Bidirectional((rec, send)) => QuicPeerStream::Bidirectional(rec, send),
            PeerStreamOf::Receive(rec) => QuicPeerStream::Receive(rec),
        }
    }
}

/// An in-progress receive stream, replaced by the stream once it arrives.
pub struct QuicReceiveStreamAttempt<T: TaskResult<Option<QuicReceiveStream>>>(
    pub QuicActionAttempt<Option<QuicReceiveStream>, ConnectionId, T>,
);

impl<T: TaskResult<Option<QuicReceiveStream>>> QuicReceiveStreamAttempt<T> {
    pub fn new(task: T, id: ConnectionId) -> (r: Self)
        ensures
            r.0.spec_returned() is None,
            r.0.spec_id() == id,
    {
        Self(QuicActionAttempt::new(task, id))
    }
}

/// An in-progress send stream, replaced by the stream once it is opened.
pub struct QuicSendStreamAttempt<T: TaskResult<Option<QuicSendStream>>>(
    pub QuicActionAttempt<Option<QuicSendStream>, ConnectionId, T>,
);

impl<T: TaskResult<Option<QuicSendStream>>> QuicSendStreamAttempt<T> {
    pub fn new(task: T, id: ConnectionId) -> (r: Self)
        ensures
            r.0.spec_returned() is None,
            r.0.spec_id() == id,
    {
        Self(QuicActionAttempt::new(task, id))
    }
}

/// An in-progress bidirectional stream, replaced by its two halves once it arrives.
pub struct QuicBidirectionalStreamAttempt<T: TaskResult<Option<(QuicReceiveStream, QuicSendStream)>>>(
    pub QuicActionAttempt<Option<(QuicReceiveStream, QuicSendStream)>, ConnectionId, T>,
);

impl<T: TaskResult<Option<(QuicReceiveStream, QuicSendStream)>>> QuicBidirectionalStreamAttempt<T> {
    pub fn new(task: T, id: ConnectionId) -> (r: Self)
        ensures
            r.0.spec_returned() is None,
            r.0.spec_id() == id,
    {
        Self(QuicActionAttempt::new(task, id))
    }
}

/// An in-progress peer stream, replaced by its halves once it arrives.
pub struct QuicPeerStreamAttempt<T: TaskResult<Option<QuicPeerStream>>>(
    pub QuicActionAttempt<Option<QuicPeerStream>, ConnectionId, T>,
);

impl<T: TaskResult<Option<QuicPeerStream>>> QuicPeerStreamAttempt<T> {
    pub fn new(task: T, conn_id: ConnectionId) -> (r: Self)
        ensures
            r.0.spec_returned() is None,
            r.0.spec_id() == conn_id,
    {
        Self(QuicActionAttempt::new(task, conn_id))
    }
}

} // verus!
