use vstd::prelude::*;
use crate::types::Guid;

verus! {

/// Hands out shape identities: 0, 1, 2, ... Each is given once.
pub struct GuidGenerator {
    counter: Guid,
}

impl GuidGenerator {
    /// The identity that the next call of `next` returns.
    pub closed spec fn upcoming(&self) -> Guid {
        self.counter
    }

    /// A generator that has given nothing yet.
    pub fn new() -> (r: GuidGenerator)
        ensures
            r.upcoming() == 0,
    {
        GuidGenerator { counter: 0 }
    }

    /// The upcoming identity, which stays upcoming.
    pub fn peek(&self) -> (guid: Guid)
        ensures
            guid == self.upcoming(),
    {
        self.counter
    }

    /// Gives the upcoming identity and moves on by one.
    pub fn next(&mut self) -> (guid: Guid)
        requires
            old(self).upcoming() < i32::MAX,
        ensures
            guid == old(self).upcoming(),
            final(self).upcoming() == old(self).upcoming() + 1,
    {
        let guid = self.counter;
        self.counter += 1;
        guid
    }
}

} // verus!
