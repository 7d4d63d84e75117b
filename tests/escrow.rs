use tournament_escrow::{
    claim_winner, initialize, join_tournament, Claim, ErrorCode, Identity, Initialize, Join,
    Payout, Tournament,
};

fn id(b: u8) -> Identity {
    Identity::new([b; 32])
}

fn open_tournament(authority: Identity, entry_fee: u64) -> Tournament {
    let mut ctx = Initialize { tournament: None, authority };
    initialize(&mut ctx, entry_fee).unwrap();
    ctx.tournament.unwrap()
}

#[test]
fn initialize_creates_open_empty_tournament() {
    let alice = id(1);
    for fee in [1u64, 100, u64::MAX] {
        let mut ctx = Initialize { tournament: None, authority: alice };
        assert_eq!(initialize(&mut ctx, fee), Ok(()));
        let t = ctx.tournament.unwrap();
        assert_eq!(t.authority, alice);
        assert_eq!(t.entry_fee, fee);
        assert_eq!(t.total_pool, 0);
        assert!(t.is_active);
        assert!(t.is_valid());
    }
}

#[test]
fn initialize_rejects_zero_fee() {
    let mut ctx = Initialize { tournament: None, authority: id(1) };
    assert_eq!(initialize(&mut ctx, 0), Err(ErrorCode::InvalidAmount));
    assert!(ctx.tournament.is_none());
}

#[test]
fn initialize_rejects_occupied_slot() {
    let existing = open_tournament(id(1), 5);
    let mut ctx = Initialize { tournament: Some(existing), authority: id(2) };
    assert_eq!(initialize(&mut ctx, 100), Err(ErrorCode::AlreadyExists));
    let kept = ctx.tournament.unwrap();
    assert_eq!(kept.authority, id(1));
    assert_eq!(kept.entry_fee, 5);
}

#[test]
fn initialize_occupied_slot_with_zero_fee_already_exists() {
    let existing = open_tournament(id(1), 5);
    let mut ctx = Initialize { tournament: Some(existing), authority: id(2) };
    assert_eq!(initialize(&mut ctx, 0), Err(ErrorCode::AlreadyExists));
    let kept = ctx.tournament.unwrap();
    assert_eq!(kept.authority, id(1));
    assert_eq!(kept.entry_fee, 5);
    assert_eq!(kept.total_pool, 0);
    assert!(kept.is_active);
    assert_eq!(ctx.authority, id(2));
}

#[test]
fn joins_accumulate_entry_fees() {
    let t = open_tournament(id(1), 7);
    let mut ctx = Join { tournament: t, custody: 3, player: id(2), player_funds: 100 };
    for n in 1..=5u64 {
        assert_eq!(join_tournament(&mut ctx), Ok(()));
        assert_eq!(ctx.tournament.total_pool, n * 7);
    }
    assert_eq!(ctx.custody, 3 + 35);
    assert_eq!(ctx.player_funds, 100 - 35);
    assert!(ctx.tournament.is_active);
}

#[test]
fn join_with_exact_funds_succeeds() {
    let t = open_tournament(id(1), 50);
    let mut ctx = Join { tournament: t, custody: 0, player: id(2), player_funds: 50 };
    assert_eq!(join_tournament(&mut ctx), Ok(()));
    assert_eq!(ctx.player_funds, 0);
    assert_eq!(ctx.tournament.total_pool, 50);
}

#[test]
fn join_without_funds_is_refused() {
    let t = open_tournament(id(1), 50);
    let mut ctx = Join { tournament: t, custody: 0, player: id(2), player_funds: 49 };
    assert_eq!(join_tournament(&mut ctx), Err(ErrorCode::InsufficientFunds));
    assert_eq!(ctx.player_funds, 49);
    assert_eq!(ctx.custody, 0);
    assert_eq!(ctx.tournament.total_pool, 0);
}

#[test]
fn join_that_would_overflow_custody_is_refused() {
    let t = open_tournament(id(1), 10);
    let mut ctx = Join { tournament: t, custody: u64::MAX - 5, player: id(2), player_funds: 10 };
    assert_eq!(join_tournament(&mut ctx), Err(ErrorCode::Overflow));
    assert_eq!(ctx.custody, u64::MAX - 5);
    assert_eq!(ctx.tournament.total_pool, 0);
}

#[test]
fn join_on_closed_tournament_is_refused_unchanged() {
    let alice = id(1);
    let t = open_tournament(alice, 10);
    let mut claim = Claim { tournament: t, custody: 0, winner: alice, authority: alice };
    claim_winner(&mut claim).unwrap();
    let mut ctx = Join { tournament: claim.tournament, custody: 0, player: id(3), player_funds: 0 };
    assert_eq!(join_tournament(&mut ctx), Err(ErrorCode::TournamentClosed));
    assert!(!ctx.tournament.is_active);
    assert_eq!(ctx.tournament.total_pool, 0);
    assert_eq!(ctx.player_funds, 0);
}

#[test]
fn claim_pays_out_whole_pool_and_refunds_rest() {
    let alice = id(1);
    let bob = id(2);
    let mut t = open_tournament(alice, 25);
    t.total_pool = 75;
    let mut ctx = Claim { tournament: t, custody: 80, winner: bob, authority: alice };
    assert_eq!(claim_winner(&mut ctx), Ok(Payout { prize: 75, refund: 5 }));
    assert_eq!(ctx.tournament.total_pool, 0);
    assert!(!ctx.tournament.is_active);
    assert_eq!(ctx.custody, 0);
    assert_eq!(ctx.tournament.entry_fee, 25);
    assert_eq!(ctx.tournament.authority, alice);
}

#[test]
fn claim_of_empty_pool_pays_nothing() {
    let alice = id(1);
    let t = open_tournament(alice, 25);
    let mut ctx = Claim { tournament: t, custody: 0, winner: alice, authority: alice };
    assert_eq!(claim_winner(&mut ctx), Ok(Payout { prize: 0, refund: 0 }));
    assert!(!ctx.tournament.is_active);
}

#[test]
fn claim_by_stranger_is_unauthorized_unchanged() {
    let alice = id(1);
    let mut t = open_tournament(alice, 10);
    t.total_pool = 30;
    let mut near = [1u8; 32];
    near[31] = 2;
    for caller in [id(2), Identity::new(near)] {
        let mut ctx = Claim { tournament: t, custody: 30, winner: caller, authority: caller };
        assert_eq!(claim_winner(&mut ctx), Err(ErrorCode::Unauthorized));
        assert!(ctx.tournament.is_active);
        assert_eq!(ctx.tournament.total_pool, 30);
        assert_eq!(ctx.custody, 30);
    }
}

#[test]
fn stranger_claim_on_closed_tournament_is_unauthorized() {
    let alice = id(1);
    let t = open_tournament(alice, 10);
    let mut first = Claim { tournament: t, custody: 0, winner: alice, authority: alice };
    claim_winner(&mut first).unwrap();
    let mut ctx = Claim { tournament: first.tournament, custody: 0, winner: id(2), authority: id(2) };
    assert_eq!(claim_winner(&mut ctx), Err(ErrorCode::Unauthorized));
}

#[test]
fn second_claim_is_refused_as_closed() {
    let alice = id(1);
    let mut t = open_tournament(alice, 10);
    t.total_pool = 20;
    let mut ctx = Claim { tournament: t, custody: 20, winner: id(2), authority: alice };
    assert_eq!(claim_winner(&mut ctx), Ok(Payout { prize: 20, refund: 0 }));
    assert!(!ctx.tournament.is_active);
    assert_eq!(claim_winner(&mut ctx), Err(ErrorCode::TournamentClosed));
    assert_eq!(ctx.tournament.total_pool, 0);
    assert_eq!(ctx.custody, 0);
}

#[test]
fn scenario_two_players_then_claim_then_late_join() {
    let (authority, alice, bob, carol) = (id(9), id(1), id(2), id(3));
    let mut init = Initialize { tournament: None, authority };
    assert_eq!(initialize(&mut init, 100), Ok(()));
    let mut join = Join { tournament: init.tournament.unwrap(), custody: 0, player: alice, player_funds: 1000 };
    assert_eq!(join_tournament(&mut join), Ok(()));
    join.player = bob;
    join.player_funds = 100;
    assert_eq!(join_tournament(&mut join), Ok(()));
    assert_eq!(join.tournament.total_pool, 200);
    let mut claim = Claim { tournament: join.tournament, custody: join.custody, winner: alice, authority };
    assert_eq!(claim_winner(&mut claim), Ok(Payout { prize: 200, refund: 0 }));
    assert!(!claim.tournament.is_active);
    let mut late = Join { tournament: claim.tournament, custody: claim.custody, player: carol, player_funds: 1000 };
    assert_eq!(join_tournament(&mut late), Err(ErrorCode::TournamentClosed));
    assert_eq!(late.player_funds, 1000);
}

#[test]
fn scenario_bob_claims_alices_tournament() {
    let (alice, bob) = (id(1), id(2));
    let mut t = open_tournament(alice, 100);
    t.total_pool = 300;
    let mut claim = Claim { tournament: t, custody: 300, winner: bob, authority: bob };
    assert_eq!(claim_winner(&mut claim), Err(ErrorCode::Unauthorized));
    assert_eq!(claim.tournament.authority, alice);
    assert_eq!(claim.tournament.total_pool, 300);
    assert!(claim.tournament.is_active);
    assert_eq!(claim.custody, 300);
}

#[test]
fn validity_check_matches_invariant() {
    let alice = id(1);
    let t = Tournament { authority: alice, entry_fee: 10, total_pool: 30, is_active: true };
    assert!(t.is_valid());
    assert!(!Tournament { total_pool: 35, ..t }.is_valid());
    assert!(!Tournament { entry_fee: 0, total_pool: 0, ..t }.is_valid());
    assert!(!Tournament { is_active: false, ..t }.is_valid());
    assert!(Tournament { is_active: false, total_pool: 0, ..t }.is_valid());
}

#[test]
fn authority_check_compares_every_byte() {
    let t = open_tournament(id(4), 1);
    assert!(t.is_authority(&id(4)));
    let mut other = [4u8; 32];
    other[17] = 5;
    assert!(!t.is_authority(&Identity::new(other)));
    assert!(id(4) == id(4));
    assert!(id(4) != id(5));
}

#[test]
fn only_conflict_is_retriable() {
    assert!(ErrorCode::Conflict.is_retriable());
    for e in [
        ErrorCode::Unauthorized,
        ErrorCode::InvalidAmount,
        ErrorCode::AlreadyExists,
        ErrorCode::TournamentClosed,
        ErrorCode::InsufficientFunds,
        ErrorCode::Overflow,
    ] {
        assert!(!e.is_retriable());
        assert!(!e.message().is_empty());
    }
    assert_eq!(
        ErrorCode::Unauthorized.message(),
        "You are not authorized to perform this action."
    );
}
