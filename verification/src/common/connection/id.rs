//! Identifier of a connection.
use crate::common::text::{append_decimal, decimal};
use crate::common::QuicParentId;
use vstd::prelude::*;
use vstd::string::StringExecFns;

verus! {

/// Identifies a connection: the connection's own number, unique within its
/// parent, together with the identifier of the parent.
#[derive(Debug, PartialEq, Eq, Structural, Clone, Copy)]
pub struct ConnectionId {
    id: u64,
    parent_id: QuicParentId,
}

impl ConnectionId {
    /// The connection's own number.
    pub closed spec fn spec_id(self) -> u64 {
        self.id
    }

    /// The parent's identifier.
    pub closed spec fn spec_parent_id(self) -> QuicParentId {
        self.parent_id
    }

    /// The displayed form: `Connection(Id: <number>, Parent: <parent>)`.
    pub open spec fn spec_text(self) -> Seq<char> {
        "Connection(Id: "@ + decimal(self.spec_id() as nat) + ", Parent: "@
            + self.spec_parent_id().spec_text() + ")"@
    }

    /// Creates the identifier of connection `id` of the given parent.
    pub fn new(id: u64, parent_id: QuicParentId) -> (r: Self)
        ensures
            r.spec_id() == id,
            r.spec_parent_id() == parent_id,
    {
        ConnectionId { id, parent_id }
    }

    /// The connection's own number.
    pub fn id(&self) -> (r: u64)
        ensures
            r == self.spec_id(),
    {
        self.id
    }

    /// The identifier of the client or server that owns the connection.
    pub fn parent_id(&self) -> (r: QuicParentId)
        ensures
            r == self.spec_parent_id(),
    {
        self.parent_id
    }

    /// The displayed form of the identifier.
    pub fn display_string(&self) -> (s: String)
        ensures
            s@ == self.spec_text(),
    {
        let mut s = String::from_str("Connection(Id: ");
        append_decimal(&mut s, self.id);
        s.append(", Parent: ");
        let parent = self.parent_id.display_string();
        s.append(parent.as_str());
        s.append(")");
        s
    }
}

} // verus!
