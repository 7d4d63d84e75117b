use vstd::prelude::*;

use crate::identity::Identity;

verus! {

/// The escrow record of one tournament.
#[derive(Clone, Copy, Debug)]
pub struct Tournament {
    /// Who created the tournament; the only caller allowed to claim it.
    pub authority: Identity,
    /// What each entry costs; fixed at creation.
    pub entry_fee: u64,
    /// The fees collected since creation; zero once claimed.
    pub total_pool: u64,
    /// True from creation until the pool is claimed.
    pub is_active: bool,
}

impl Tournament {
    /// The record's invariant: a positive fee, a pool made of whole entries,
    /// and no funds held once the tournament is closed.
    pub open spec fn wf(&self) -> bool {
        &&& self.entry_fee > 0
        &&& self.total_pool % self.entry_fee == 0
        &&& !self.is_active ==> self.total_pool == 0
    }

    /// How many entries the pool holds.
    pub open spec fn entries(&self) -> nat {
        (self.total_pool / self.entry_fee) as nat
    }

    /// Checks the invariant at run time, for records that come from storage.
    pub fn is_valid(&self) -> (r: bool)
        ensures
            r == self.wf(),
    {
        self.entry_fee > 0 && self.total_pool % self.entry_fee == 0 && (self.is_active
            || self.total_pool == 0)
    }

    /// Whether `caller` may claim this tournament.
    pub fn is_authority(&self, caller: &Identity) -> (r: bool)
        ensures
            r == (caller@ == self.authority@),
    {
        *caller == self.authority
    }
}

} // verus!
