use vstd::prelude::*;

use crate::error::ErrorCode;
use crate::identity::Identity;
use crate::tournament::Tournament;

verus! {

/// The accounts that `initialize` works on.
#[derive(Clone, Copy, Debug)]
pub struct Initialize {
    /// The storage slot of the new tournament; `None` while unoccupied.
    pub tournament: Option<Tournament>,
    /// The authenticated caller, who becomes the tournament's authority.
    pub authority: Identity,
}

/// The accounts that `join_tournament` works on.
#[derive(Clone, Copy, Debug)]
pub struct Join {
    pub tournament: Tournament,
    /// The funds held in the tournament's custody.
    pub custody: u64,
    /// The authenticated caller, who pays the entry fee.
    pub player: Identity,
    /// The player's available funds.
    pub player_funds: u64,
}

/// The accounts that `claim_winner` works on.
#[derive(Clone, Copy, Debug)]
pub struct Claim {
    pub tournament: Tournament,
    /// The funds held in the tournament's custody.
    pub custody: u64,
    /// Who receives the pool.
    pub winner: Identity,
    /// The authenticated caller.
    pub authority: Identity,
}

/// What a successful claim releases from custody.
#[derive(Clone, Copy, Debug, PartialEq, Eq, Structural)]
pub struct Payout {
    /// The whole pool, owed to the winner.
    pub prize: u64,
    /// What custody held beyond the pool, returned to the authority.
    pub refund: u64,
}

impl Join {
    /// The tournament is well formed and its custody covers the pool.
    pub open spec fn wf(&self) -> bool {
        self.tournament.wf() && self.custody >= self.tournament.total_pool
    }
}

impl Claim {
    /// The tournament is well formed and its custody covers the pool.
    pub open spec fn wf(&self) -> bool {
        self.tournament.wf() && self.custody >= self.tournament.total_pool
    }
}

/// The record that a successful initialization creates.
pub open spec fn created(authority: Identity, entry_fee: u64) -> Tournament {
    Tournament { authority, entry_fee, total_pool: 0, is_active: true }
}

/// The record after one more entry.
pub open spec fn joined(t: Tournament) -> Tournament {
    Tournament { total_pool: (t.total_pool + t.entry_fee) as u64, ..t }
}

/// The record after its pool was claimed.
pub open spec fn closed(t: Tournament) -> Tournament {
    Tournament { total_pool: 0, is_active: false, ..t }
}

/// The outcome of `initialize`.
pub open spec fn initialize_result(ctx: Initialize, entry_fee: u64) -> Result<(), ErrorCode> {
    if ctx.tournament is Some {
        Err(ErrorCode::AlreadyExists)
    } else if entry_fee == 0 {
        Err(ErrorCode::InvalidAmount)
    } else {
        Ok(())
    }
}

/// The outcome of `join_tournament`.
pub open spec fn join_result(ctx: Join) -> Result<(), ErrorCode> {
    if !ctx.tournament.is_active {
        Err(ErrorCode::TournamentClosed)
    } else if ctx.player_funds < ctx.tournament.entry_fee {
        Err(ErrorCode::InsufficientFunds)
    } else if ctx.custody + ctx.tournament.entry_fee > u64::MAX {
        Err(ErrorCode::Overflow)
    } else {
        Ok(())
    }
}

/// The outcome of `claim_winner`.
pub open spec fn claim_result(ctx: Claim) -> Result<Payout, ErrorCode> {
    if ctx.authority@ != ctx.tournament.authority@ {
        Err(ErrorCode::Unauthorized)
    } else if !ctx.tournament.is_active {
        Err(ErrorCode::TournamentClosed)
    } else {
        Ok(
            Payout {
                prize: ctx.tournament.total_pool,
                refund: (ctx.custody - ctx.tournament.total_pool) as u64,
            },
        )
    }
}

/// Creates a tournament in the empty slot of `ctx`, with the caller as its
/// authority, the given entry fee, an empty pool, and open for entries.
pub fn initialize(ctx: &mut Initialize, entry_fee: u64) -> (r: Result<(), ErrorCode>)
    ensures
        r == initialize_result(*old(ctx), entry_fee),
        old(ctx).tournament is Some ==> r == Err::<(), ErrorCode>(ErrorCode::AlreadyExists),
        entry_fee > 0 && old(ctx).tournament is None ==> r is Ok
            && final(ctx).tournament->Some_0.total_pool == 0
            && final(ctx).tournament->Some_0.is_active,
        r is Ok ==> final(ctx).tournament == Some(created(old(ctx).authority, entry_fee))
            && final(ctx).authority == old(ctx).authority,
        r is Ok ==> final(ctx).tournament->Some_0.wf(),
        r is Err ==> *final(ctx) == *old(ctx),
{
    if ctx.tournament.is_some() {
        return Err(ErrorCode::AlreadyExists);
    }
    if entry_fee == 0 {
        return Err(ErrorCode::InvalidAmount);
    }
    proof {
        vstd::arithmetic::div_mod::lemma_mod_multiples_basic(0, entry_fee as int);
    }
    ctx.tournament = Some(
        Tournament { authority: ctx.authority, entry_fee, total_pool: 0, is_active: true },
    );
    Ok(())
}

/// Moves the entry fee from the player into custody and adds it to the pool.
pub fn join_tournament(ctx: &mut Join) -> (r: Result<(), ErrorCode>)
    requires
        old(ctx).wf(),
    ensures
        r == join_result(*old(ctx)),
        !old(ctx).tournament.is_active ==> r == Err::<(), ErrorCode>(ErrorCode::TournamentClosed),
        r is Ok ==> final(ctx).tournament == joined(old(ctx).tournament)
            && final(ctx).tournament.total_pool == old(ctx).tournament.total_pool
            + old(ctx).tournament.entry_fee
            && final(ctx).tournament.entries() == old(ctx).tournament.entries() + 1
            && final(ctx).custody == old(ctx).custody + old(ctx).tournament.entry_fee
            && final(ctx).player_funds == old(ctx).player_funds - old(ctx).tournament.entry_fee
            && final(ctx).player == old(ctx).player,
        r is Err ==> *final(ctx) == *old(ctx),
        final(ctx).wf(),
{
    if !ctx.tournament.is_active {
        return Err(ErrorCode::TournamentClosed);
    }
    let fee = ctx.tournament.entry_fee;
    if ctx.player_funds < fee {
        return Err(ErrorCode::InsufficientFunds);
    }
    if ctx.custody > u64::MAX - fee {
        return Err(ErrorCode::Overflow);
    }
    proof {
        lemma_entry_added(ctx.tournament);
    }
    ctx.player_funds = ctx.player_funds - fee;
    ctx.custody = ctx.custody + fee;
    ctx.tournament.total_pool = ctx.tournament.total_pool + fee;
    Ok(())
}

/// Pays the whole pool out to the winner and closes the tournament; only its
/// authority may do so, and only once. Custody is emptied: beyond the prize,
/// what it held goes back to the authority.
pub fn claim_winner(ctx: &mut Claim) -> (r: Result<Payout, ErrorCode>)
    requires
        old(ctx).wf(),
    ensures
        r == claim_result(*old(ctx)),
        old(ctx).authority@ != old(ctx).tournament.authority@ ==> r == Err::<Payout, ErrorCode>(
            ErrorCode::Unauthorized,
        ),
        r is Ok ==> r->Ok_0.prize == old(ctx).tournament.total_pool
            && final(ctx).tournament == closed(old(ctx).tournament)
            && final(ctx).tournament.total_pool == 0 && !final(ctx).tournament.is_active
            && final(ctx).custody == 0 && final(ctx).winner == old(ctx).winner
            && final(ctx).authority == old(ctx).authority,
        r is Err ==> *final(ctx) == *old(ctx),
        final(ctx).wf(),
{
    if !ctx.tournament.is_authority(&ctx.authority) {
        return Err(ErrorCode::Unauthorized);
    }
    if !ctx.tournament.is_active {
        return Err(ErrorCode::TournamentClosed);
    }
    let prize = ctx.tournament.total_pool;
    let refund = ctx.custody - prize;
    ctx.tournament.total_pool = 0;
    ctx.tournament.is_active = false;
    ctx.custody = 0;
    Ok(Payout { prize, refund })
}

/// One more entry keeps the pool a whole number of entries, one more than before.
proof fn lemma_entry_added(t: Tournament)
    requires
        t.wf(),
    ensures
        (t.total_pool + t.entry_fee) % (t.entry_fee as int) == 0,
        (t.total_pool + t.entry_fee) / (t.entry_fee as int) == (t.total_pool as int) / (
        t.entry_fee as int) + 1,
{
    vstd::arithmetic::div_mod::lemma_mod_add_multiples_vanish(t.total_pool as int, t.entry_fee as int);
    vstd::arithmetic::div_mod::lemma_div_plus_one(t.total_pool as int, t.entry_fee as int);
}

} // verus!
