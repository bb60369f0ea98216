//! Issuing of identifiers that are unique among all parents.
use vstd::prelude::*;

verus! {

/// Hands out identifiers in increasing order, so that no identifier is issued twice.
#[derive(Debug)]
pub struct IdGenerator {
    next: u64,
}

impl IdGenerator {
    /// The identifier that the next call of `generate_unique` returns.
    pub closed spec fn spec_next(self) -> u64 {
        self.next
    }

    /// Whether every identifier has been handed out.
    pub open spec fn spec_is_exhausted(self) -> bool {
        self.spec_next() == u64::MAX
    }

    /// A generator whose first identifier is 0.
    pub fn new() -> (g: Self)
        ensures
            g.spec_next() == 0,
    {
        IdGenerator { next: 0 }
    }

    /// Whether every identifier has been handed out, in which case no further one
    /// can be generated.
    pub fn is_exhausted(&self) -> (r: bool)
        ensures
            r == self.spec_is_exhausted(),
    {
        self.next == u64::MAX
    }

    /// Returns a fresh identifier, larger than every identifier returned before.
    pub fn generate_unique(&mut self) -> (id: u64)
        requires
            !old(self).spec_is_exhausted(),
        ensures
            id == old(self).spec_next(),
            final(self).spec_next() == old(self).spec_next() + 1,
    {
        let id = self.next;
        self.next = self.next + 1;
        id
    }
}

/// Identifiers handed out by one generator never repeat: an identifier issued
/// earlier is smaller than every identifier issued later, whatever was issued
/// in between.
pub proof fn lemma_issued_ids_distinct(
    earlier: u64,
    after_earlier: IdGenerator,
    before_later: IdGenerator,
    later: u64,
)
    requires
        earlier < after_earlier.spec_next(),
        after_earlier.spec_next() <= before_later.spec_next(),
        later == before_later.spec_next(),
    ensures
        earlier < later,
        earlier != later,
{
}

} // verus!
