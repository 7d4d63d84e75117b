use vstd::prelude::*;

use crate::error::ErrorCode;
use crate::escrow::{
    claim_result,
    claim_winner,
    closed,
    created,
    initialize,
    initialize_result,
    join_result,
    join_tournament,
    joined,
    Claim,
    Initialize,
    Join,
    Payout,
};
use crate::identity::Identity;
use crate::tournament::Tournament;

verus! {

/// The storage slot of one tournament, updated optimistically: each update
/// names the version it was prepared from, and is refused with `Conflict`
/// when another update has been stored since. So no update is ever lost.
pub struct Slot {
    version: u64,
    tournament: Option<Tournament>,
    custody: u64,
}

impl Slot {
    /// How many updates the slot has stored.
    pub closed spec fn spec_version(&self) -> u64 {
        self.version
    }

    /// The stored tournament, if one was created.
    pub closed spec fn spec_tournament(&self) -> Option<Tournament> {
        self.tournament
    }

    /// The funds held in the tournament's custody.
    pub closed spec fn spec_custody(&self) -> u64 {
        self.custody
    }

    #[verifier::type_invariant]
    spec fn inv(&self) -> bool {
        match self.tournament {
            Some(t) => t.wf() && self.custody >= t.total_pool,
            None => self.custody == 0,
        }
    }

    /// An unoccupied slot at version zero.
    pub fn new() -> (r: Slot)
        ensures
            r.spec_version() == 0,
            r.spec_tournament() is None,
            r.spec_custody() == 0,
    {
        Slot { version: 0, tournament: None, custody: 0 }
    }

    pub fn version(&self) -> (r: u64)
        ensures
            r == self.spec_version(),
    {
        self.version
    }

    pub fn tournament(&self) -> (r: Option<Tournament>)
        ensures
            r == self.spec_tournament(),
            r is Some ==> r->Some_0.wf() && self.spec_custody() >= r->Some_0.total_pool,
    {
        proof {
            use_type_invariant(self);
        }
        self.tournament
    }

    pub fn custody(&self) -> (r: u64)
        ensures
            r == self.spec_custody(),
    {
        self.custody
    }

    /// Refuses an update prepared from `expected` unless it is the current
    /// version and one more version can be counted.
    fn check_version(&self, expected: u64) -> (r: Result<(), ErrorCode>)
        ensures
            r == version_check(self.spec_version(), expected),
    {
        if expected != self.version {
            Err(ErrorCode::Conflict)
        } else if self.version == u64::MAX {
            Err(ErrorCode::Overflow)
        } else {
            Ok(())
        }
    }

    /// Creates a tournament in this slot, as `initialize` does, if the slot
    /// is still at version `expected`.
    pub fn initialize(&mut self, expected: u64, authority: Identity, entry_fee: u64) -> (r: Result<
        (),
        ErrorCode,
    >)
        ensures
            r == (match version_check(old(self).spec_version(), expected) {
                Err(e) => Err(e),
                Ok(_) => initialize_result(
                    Initialize { tournament: old(self).spec_tournament(), authority },
                    entry_fee,
                ),
            }),
            r is Ok ==> final(self).spec_tournament() == Some(created(authority, entry_fee))
                && final(self).spec_custody() == old(self).spec_custody()
                && final(self).spec_version() == old(self).spec_version() + 1,
            r is Err ==> *final(self) == *old(self),
    {
        proof {
            use_type_invariant(&*self);
        }
        match self.check_version(expected) {
            Err(e) => return Err(e),
            Ok(_) => {},
        }
        let mut ctx = Initialize { tournament: self.tournament, authority };
        match initialize(&mut ctx, entry_fee) {
            Err(e) => Err(e),
            Ok(_) => {
                *self = Slot {
                    version: self.version + 1,
                    tournament: ctx.tournament,
                    custody: self.custody,
                };
                Ok(())
            },
        }
    }

    /// Adds one entry, as `join_tournament` does, if the slot is still at
    /// version `expected`; returns what is left of the player's funds. A slot
    /// that holds no tournament has none open to join.
    pub fn join(&mut self, expected: u64, player: Identity, player_funds: u64) -> (r: Result<
        u64,
        ErrorCode,
    >)
        ensures
            version_check(old(self).spec_version(), expected) is Err ==> r == Err::<u64, ErrorCode>(
                version_check(old(self).spec_version(), expected)->Err_0,
            ),
            version_check(old(self).spec_version(), expected) is Ok && old(
                self,
            ).spec_tournament() is None ==> r == Err::<u64, ErrorCode>(
                ErrorCode::TournamentClosed,
            ),
            version_check(old(self).spec_version(), expected) is Ok && old(
                self,
            ).spec_tournament() is Some ==> ({
                let t = old(self).spec_tournament()->Some_0;
                let ctx = Join { tournament: t, custody: old(self).spec_custody(), player, player_funds };
                match join_result(ctx) {
                    Err(e) => r == Err::<u64, ErrorCode>(e),
                    Ok(_) => r == Ok::<u64, ErrorCode>((player_funds - t.entry_fee) as u64),
                }
            }),
            r is Ok ==> final(self).spec_tournament() == Some(
                joined(old(self).spec_tournament()->Some_0),
            ) && final(self).spec_custody() == old(self).spec_custody() + old(
                self,
            ).spec_tournament()->Some_0.entry_fee && final(self).spec_version() == old(
                self,
            ).spec_version() + 1,
            r is Err ==> *final(self) == *old(self),
    {
        proof {
            use_type_invariant(&*self);
        }
        match self.check_version(expected) {
            Err(e) => return Err(e),
            Ok(_) => {},
        }
        let t = match self.tournament {
            None => return Err(ErrorCode::TournamentClosed),
            Some(t) => t,
        };
        let mut ctx = Join { tournament: t, custody: self.custody, player, player_funds };
        match join_tournament(&mut ctx) {
            Err(e) => Err(e),
            Ok(_) => {
                *self = Slot {
                    version: self.version + 1,
                    tournament: Some(ctx.tournament),
                    custody: ctx.custody,
                };
                Ok(ctx.player_funds)
            },
        }
    }

    /// Pays out and closes the tournament, as `claim_winner` does, if the slot
    /// is still at version `expected`. A slot that holds no tournament has
    /// none open to claim.
    pub fn claim(&mut self, expected: u64, caller: Identity, winner: Identity) -> (r: Result<
        Payout,
        ErrorCode,
    >)
        ensures
            version_check(old(self).spec_version(), expected) is Err ==> r == Err::<Payout, ErrorCode>(
                version_check(old(self).spec_version(), expected)->Err_0,
            ),
            version_check(old(self).spec_version(), expected) is Ok && old(
                self,
            ).spec_tournament() is None ==> r == Err::<Payout, ErrorCode>(
                ErrorCode::TournamentClosed,
            ),
            version_check(old(self).spec_version(), expected) is Ok && old(
                self,
            ).spec_tournament() is Some ==> r == claim_result(
                (Claim {
                    tournament: old(self).spec_tournament()->Some_0,
                    custody: old(self).spec_custody(),
                    winner,
                    authority: caller,
                }),
            ),
            r is Ok ==> final(self).spec_tournament() == Some(
                closed(old(self).spec_tournament()->Some_0),
            ) && final(self).spec_custody() == 0 && final(self).spec_version() == old(
                self,
            ).spec_version() + 1,
            r is Err ==> *final(self) == *old(self),
    {
        proof {
            use_type_invariant(&*self);
        }
        match self.check_version(expected) {
            Err(e) => return Err(e),
            Ok(_) => {},
        }
        let t = match self.tournament {
            None => return Err(ErrorCode::TournamentClosed),
            Some(t) => t,
        };
        let mut ctx = Claim { tournament: t, custody: self.custody, winner, authority: caller };
        match claim_winner(&mut ctx) {
            Err(e) => Err(e),
            Ok(p) => {
                *self = Slot {
                    version: self.version + 1,
                    tournament: Some(ctx.tournament),
                    custody: ctx.custody,
                };
                Ok(p)
            },
        }
    }
}

/// Whether an update prepared from version `expected` may be stored over
/// version `current`.
pub open spec fn version_check(current: u64, expected: u64) -> Result<(), ErrorCode> {
    if expected != current {
        Err(ErrorCode::Conflict)
    } else if current == u64::MAX {
        Err(ErrorCode::Overflow)
    } else {
        Ok(())
    }
}

} // verus!
