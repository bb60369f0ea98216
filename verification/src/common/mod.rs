use crate::common::id::IdGenerator;
use crate::common::text::{append_decimal, decimal};
use vstd::prelude::*;
use vstd::string::StringExecFns;

pub mod attempt;
pub mod channel;
pub mod connection;
pub mod disconnect;
pub mod error_code;
pub mod id;
pub mod orchestrator;
pub mod status_code;
pub mod stream;
pub mod task_state;
pub mod text;

verus! {

/// Enum determining the type (server or client) of the parent
/// which is responsible for any given QUIC network resource.
#[derive(Debug, PartialEq, Eq, Structural, Clone, Copy)]
pub enum QuicParentType {
    /// This resource was created by a server.
    Server,
    /// This resource was created by a client.
    Client,
}

impl QuicParentType {
    /// The name under which the parent type is displayed.
    pub open spec fn spec_text(self) -> Seq<char> {
        match self {
            QuicParentType::Client => "Client"@,
            QuicParentType::Server => "Server"@,
        }
    }

    /// The name under which the parent type is displayed: `Client` or `Server`.
    pub fn display_string(&self) -> (s: String)
        ensures
            s@ == self.spec_text(),
    {
        match self {
            QuicParentType::Client => String::from_str("Client"),
            QuicParentType::Server => String::from_str("Server"),
        }
    }
}

/// An ID which uniquely identifies the client or server that is responsible
/// for the given QUIC network resource.
#[derive(Debug, PartialEq, Eq, Structural, Clone, Copy)]
pub struct QuicParentId {
    parent_type: QuicParentType,
    parent_id: u64,
}

impl QuicParentId {
    /// The numeric part of the identifier.
    pub closed spec fn spec_parent_id(self) -> u64 {
        self.parent_id
    }

    /// The kind of parent part of the identifier.
    pub closed spec fn spec_connection_type(self) -> QuicParentType {
        self.parent_type
    }

    /// The displayed form of the identifier: `<type> Id: <number>`.
    pub open spec fn spec_text(self) -> Seq<char> {
        self.spec_connection_type().spec_text() + " Id: "@ + decimal(self.spec_parent_id() as nat)
    }

    pub fn new(parent_id: u64, parent_type: QuicParentType) -> (r: Self)
        ensures
            r.spec_parent_id() == parent_id,
            r.spec_connection_type() == parent_type,
    {
        Self { parent_type, parent_id }
    }

    /// Creates an identifier whose number is the next one that `generator` issues.
    /// Every number a generator issues is larger than all numbers it issued before,
    /// so the identifiers created from one generator are all distinct.
    pub fn generate_unique(parent_type: QuicParentType, generator: &mut IdGenerator) -> (r: Self)
        requires
            !old(generator).spec_is_exhausted(),
        ensures
            r.spec_connection_type() == parent_type,
            r.spec_parent_id() == old(generator).spec_next(),
            final(generator).spec_next() == old(generator).spec_next() + 1,
    {
        Self { parent_type, parent_id: generator.generate_unique() }
    }

    /// Gets the unique ID for the parent structure. This is unique across all
    /// clients and servers that draw their identifiers from one generator.
    pub fn parent_id(&self) -> (r: u64)
        ensures
            r == self.spec_parent_id(),
    {
        self.parent_id
    }

    /// Gets the type of connection created this network resource.
    pub fn connection_type(&self) -> (r: QuicParentType)
        ensures
            r == self.spec_connection_type(),
    {
        self.parent_type
    }

    /// The displayed form of the identifier, such as `Client Id: 7`.
    pub fn display_string(&self) -> (s: String)
        ensures
            s@ == self.spec_text(),
    {
        let mut s = self.parent_type.display_string();
        s.append(" Id: ");
        append_decimal(&mut s, self.parent_id);
        s
    }
}

/// Parent identifiers created one after the other from one generator differ,
/// whatever their types and whatever was created in between: `a` was created
/// before the generator reached `after_a`, and `b` from the generator as it
/// stood at `before_b`, no earlier.
pub proof fn lemma_generated_parent_ids_distinct(
    a: QuicParentId,
    after_a: IdGenerator,
    before_b: IdGenerator,
    b: QuicParentId,
)
    requires
        a.spec_parent_id() < after_a.spec_next(),
        after_a.spec_next() <= before_b.spec_next(),
        b.spec_parent_id() == before_b.spec_next(),
    ensures
        a.spec_parent_id() != b.spec_parent_id(),
        a != b,
{
    crate::common::id::lemma_issued_ids_distinct(a.spec_parent_id(), after_a, before_b, b.spec_parent_id());
}

/// Two parent identifiers are equal exactly when their types and numbers are equal.
pub proof fn lemma_parent_id_equality(a: QuicParentId, b: QuicParentId)
    ensures
        a == b <==> (a.spec_parent_id() == b.spec_parent_id()
            && a.spec_connection_type() == b.spec_connection_type()),
{
}

} // verus!
