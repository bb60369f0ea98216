//! Identifier of a stream.
use crate::common::connection::id::ConnectionId;
use crate::common::text::{append_decimal, decimal};
use crate::common::QuicParentId;
use vstd::prelude::*;
use vstd::string::StringExecFns;

verus! {

/// Identifies a stream: its number relative to its connection, together with
/// the identifier of that connection.
#[derive(PartialEq, Eq, Structural, Debug, Clone, Copy)]
pub struct StreamId {
    connection_id: ConnectionId,
    id: u64,
}

impl StreamId {
    /// The stream's own number.
    pub closed spec fn spec_id(self) -> u64 {
        self.id
    }

    /// The identifier of the owning connection.
    pub closed spec fn spec_connection_id(self) -> ConnectionId {
        self.connection_id
    }

    /// The displayed form: `StreamId(Id: <n>, Connection: <c>, Parent: <parent>)`.
    pub open spec fn spec_text(self) -> Seq<char> {
        "StreamId(Id: "@ + decimal(self.spec_id() as nat) + ", Connection: "@
            + decimal(self.spec_connection_id().spec_id() as nat) + ", Parent: "@
            + self.spec_connection_id().spec_parent_id().spec_text() + ")"@
    }

    /// Creates a new StreamId with the relevant parent connection
    /// and the ID for this stream.
    pub fn new(connection_id: ConnectionId, id: u64) -> (r: Self)
        ensures
            r.spec_connection_id() == connection_id,
            r.spec_id() == id,
    {
        Self { connection_id, id }
    }

    /// Gets the ID for the server or client that is the parent for this stream.
    pub fn parent_id(&self) -> (r: QuicParentId)
        ensures
            r == self.spec_connection_id().spec_parent_id(),
    {
        self.connection_id.parent_id()
    }

    /// Gets the ID for the connection that owns this stream.
    pub fn connection_id(&self) -> (r: ConnectionId)
        ensures
            r == self.spec_connection_id(),
    {
        self.connection_id
    }

    /// Get the ID for this specific stream, the ID is relative to its parent connection.
    pub fn id(&self) -> (r: u64)
        ensures
            r == self.spec_id(),
    {
        self.id
    }

    /// The displayed form of the identifier.
    pub fn display_string(&self) -> (s: String)
        ensures
            s@ == self.spec_text(),
    {
        let mut s = String::from_str("StreamId(Id: ");
        append_decimal(&mut s, self.id);
        s.append(", Connection: ");
        append_decimal(&mut s, self.connection_id.id());
        s.append(", Parent: ");
        let parent = self.connection_id.parent_id().display_string();
        s.append(parent.as_str());
        s.append(")");
        s
    }
}

} // verus!
