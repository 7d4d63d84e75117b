use vstd::prelude::*;

use crate::error::ErrorCode;
use crate::escrow::{claim_result, closed, created, join_result, joined, Claim, Join, Payout};
use crate::identity::Identity;
use crate::tournament::Tournament;

verus! {

/// The record after `n` more entries.
pub open spec fn joined_times(t: Tournament, n: nat) -> Tournament
    decreases n,
{
    if n == 0 {
        t
    } else {
        joined(joined_times(t, (n - 1) as nat))
    }
}

/// After `n` successful entries into a newly created tournament, the pool
/// holds exactly `n` entry fees, and the tournament is still open.
pub proof fn lemma_pool_after_joins(authority: Identity, entry_fee: u64, n: nat)
    requires
        entry_fee > 0,
        n * entry_fee <= u64::MAX,
    ensures
        joined_times(created(authority, entry_fee), n).total_pool == n * entry_fee,
        joined_times(created(authority, entry_fee), n).entries() == n,
        joined_times(created(authority, entry_fee), n).is_active,
        joined_times(created(authority, entry_fee), n).entry_fee == entry_fee,
        joined_times(created(authority, entry_fee), n).wf(),
    decreases n,
{
    if n > 0 {
        let m = (n - 1) as nat;
        assert(m * entry_fee + entry_fee == n * entry_fee) by (nonlinear_arith)
            requires
                m == n - 1,
        ;
        lemma_pool_after_joins(authority, entry_fee, m);
    }
    vstd::arithmetic::div_mod::lemma_mod_multiples_basic(n as int, entry_fee as int);
    vstd::arithmetic::div_mod::lemma_div_multiples_vanish(n as int, entry_fee as int);
    assert(n * entry_fee == entry_fee * n) by (nonlinear_arith);
}

/// A join on an open tournament succeeds whenever the player can pay the fee
/// and custody can hold it, and then adds exactly one fee to the pool.
pub proof fn lemma_join_adds_one_fee(ctx: Join)
    requires
        ctx.wf(),
        ctx.tournament.is_active,
        ctx.player_funds >= ctx.tournament.entry_fee,
        ctx.custody + ctx.tournament.entry_fee <= u64::MAX,
    ensures
        join_result(ctx) is Ok,
        joined(ctx.tournament).total_pool == ctx.tournament.total_pool + ctx.tournament.entry_fee,
        joined(ctx.tournament).is_active,
        joined(ctx.tournament).entry_fee == ctx.tournament.entry_fee,
        joined(ctx.tournament).authority == ctx.tournament.authority,
{
}

/// A tournament pays out at most once: a successful claim closes it, and a
/// later claim by its authority is refused as closed.
pub proof fn lemma_claim_only_once(first: Claim, second: Claim)
    requires
        first.wf(),
        claim_result(first) is Ok,
        second.tournament == closed(first.tournament),
        second.authority@ == second.tournament.authority@,
    ensures
        !second.tournament.is_active,
        second.tournament.total_pool == 0,
        claim_result(second) == Err::<Payout, ErrorCode>(
            ErrorCode::TournamentClosed,
        ),
{
}

} // verus!
