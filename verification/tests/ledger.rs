use die_forward::errors::ErrorCode;
use die_forward::intake::stake;
use die_forward::lifecycle::close_session;
use die_forward::math::{compute_bonus, compute_fee, compute_payout};
use die_forward::pool::{initialize, GamePool};
use die_forward::resolution::{claim_victory, record_death};
use die_forward::session::SessionStatus;
use die_forward::store::SessionStore;

const AUTH: [u8; 32] = [1u8; 32];
const TREAS: [u8; 32] = [2u8; 32];
const PLAYER: [u8; 32] = [3u8; 32];
const SID: [u8; 32] = [4u8; 32];
const HASH: [u8; 32] = [9u8; 32];

fn fresh_pool(fee_bps: u16, bonus_bps: u16) -> GamePool {
    initialize(AUTH, TREAS, fee_bps, bonus_bps).unwrap()
}

#[test]
fn initialize_zeroes_counters_and_keeps_rates() {
    let pool = fresh_pool(500, 5000);
    assert_eq!(pool.authority, AUTH);
    assert_eq!(pool.treasury, TREAS);
    assert_eq!(pool.fee_bps, 500);
    assert_eq!(pool.victory_bonus_bps, 5000);
    assert_eq!(pool.total_staked, 0);
    assert_eq!(pool.total_deaths, 0);
    assert_eq!(pool.total_victories, 0);
}

#[test]
fn initialize_rejects_fee_above_cap() {
    assert_eq!(initialize(AUTH, TREAS, 1001, 0), Err(ErrorCode::FeeTooHigh));
    assert!(initialize(AUTH, TREAS, 1000, 0).is_ok());
}

#[test]
fn initialize_rejects_bonus_above_cap() {
    assert_eq!(initialize(AUTH, TREAS, 0, 10001), Err(ErrorCode::BonusTooHigh));
    assert!(initialize(AUTH, TREAS, 0, 10000).is_ok());
}

#[test]
fn fee_and_escrow_sum_to_amount() {
    for (amount, fee_bps) in [
        (10_000_000u64, 0u16),
        (10_000_000, 1000),
        (100_000_000, 500),
        (999_999_999, 333),
        (1_000_000_000, 1000),
    ] {
        let fee = compute_fee(amount, fee_bps);
        assert_eq!(fee, amount * fee_bps as u64 / 10000);
        assert!(fee + (amount - fee) == amount);
    }
}

#[test]
fn payout_is_escrow_plus_bonus_and_dominates_escrow() {
    for (escrow, bonus_bps) in [
        (95_000_000u64, 5000u16),
        (1u64, 9999),
        (1_000_000_000, 10000),
        (123_456_789, 0),
    ] {
        let bonus = compute_bonus(escrow, bonus_bps);
        let payout = compute_payout(escrow, bonus_bps);
        assert_eq!(bonus, escrow * bonus_bps as u64 / 10000);
        assert_eq!(payout, escrow + bonus);
        assert!(payout >= escrow);
    }
}

#[test]
fn stake_rejects_out_of_range_amounts() {
    let mut pool = fresh_pool(500, 5000);
    let mut store = SessionStore::new();
    assert_eq!(
        stake(&mut pool, &mut store, PLAYER, 9_999_999, SID, 0),
        Err(ErrorCode::StakeTooLow)
    );
    assert_eq!(
        stake(&mut pool, &mut store, PLAYER, 1_000_000_001, SID, 0),
        Err(ErrorCode::StakeTooHigh)
    );
    assert_eq!(pool.total_staked, 0);
    assert!(store.lookup(&PLAYER, &SID).is_none());
}

#[test]
fn stake_accepts_both_bounds() {
    let mut pool = fresh_pool(0, 0);
    let mut store = SessionStore::new();
    let low = stake(&mut pool, &mut store, PLAYER, 10_000_000, SID, 0).unwrap();
    assert_eq!(low.fee, 0);
    assert_eq!(low.escrow, 10_000_000);
    let sid2 = [5u8; 32];
    let high = stake(&mut pool, &mut store, PLAYER, 1_000_000_000, sid2, 0).unwrap();
    assert_eq!(high.fee, 0);
    assert_eq!(high.escrow, 1_000_000_000);
    assert_eq!(pool.total_staked, 1_010_000_000);
}

#[test]
fn scenario_a_stake_splits_and_counts() {
    let mut pool = fresh_pool(500, 5000);
    let mut store = SessionStore::new();
    let receipt = stake(&mut pool, &mut store, PLAYER, 100_000_000, SID, 42).unwrap();
    assert_eq!(receipt.fee, 5_000_000);
    assert_eq!(receipt.escrow, 95_000_000);
    assert_eq!(pool.total_staked, 95_000_000);
    let s = store.lookup(&PLAYER, &SID).unwrap();
    assert_eq!(s.escrow_amount, 95_000_000);
    assert_eq!(s.status, SessionStatus::Active);
    assert_eq!(s.started_at, 42);
    assert_eq!(s.death_hash, None);
}

#[test]
fn second_stake_with_same_key_fails_and_changes_nothing() {
    let mut pool = fresh_pool(500, 5000);
    let mut store = SessionStore::new();
    stake(&mut pool, &mut store, PLAYER, 100_000_000, SID, 42).unwrap();
    let again = stake(&mut pool, &mut store, PLAYER, 200_000_000, SID, 99);
    assert_eq!(again, Err(ErrorCode::SessionAlreadyExists));
    assert_eq!(pool.total_staked, 95_000_000);
    let s = store.lookup(&PLAYER, &SID).unwrap();
    assert_eq!(s.escrow_amount, 95_000_000);
    assert_eq!(s.started_at, 42);
}

#[test]
fn stake_overflow_on_total_staked_is_rejected() {
    let mut pool = fresh_pool(0, 0);
    pool.total_staked = u64::MAX - 1;
    let mut store = SessionStore::new();
    let r = stake(&mut pool, &mut store, PLAYER, 10_000_000, SID, 0);
    assert_eq!(r, Err(ErrorCode::ArithmeticOverflow));
    assert_eq!(pool.total_staked, u64::MAX - 1);
    assert!(store.lookup(&PLAYER, &SID).is_none());
}

#[test]
fn scenario_c_death_counts_but_keeps_total_staked() {
    let mut pool = fresh_pool(500, 5000);
    let mut store = SessionStore::new();
    stake(&mut pool, &mut store, PLAYER, 100_000_000, SID, 42).unwrap();
    let r = record_death(&mut pool, &mut store, AUTH, PLAYER, SID, HASH);
    assert_eq!(r, Ok(()));
    assert_eq!(pool.total_deaths, 1);
    assert_eq!(pool.total_staked, 95_000_000);
    assert_eq!(pool.total_victories, 0);
    let s = store.lookup(&PLAYER, &SID).unwrap();
    assert_eq!(s.status, SessionStatus::Dead);
    assert_eq!(s.death_hash, Some(HASH));
}

#[test]
fn death_requires_the_authority() {
    let mut pool = fresh_pool(500, 5000);
    let mut store = SessionStore::new();
    stake(&mut pool, &mut store, PLAYER, 100_000_000, SID, 42).unwrap();
    let r = record_death(&mut pool, &mut store, PLAYER, PLAYER, SID, HASH);
    assert_eq!(r, Err(ErrorCode::Unauthorized));
    assert_eq!(pool.total_deaths, 0);
    assert_eq!(store.lookup(&PLAYER, &SID).unwrap().status, SessionStatus::Active);
}

#[test]
fn resolving_a_missing_session_fails() {
    let mut pool = fresh_pool(500, 5000);
    let mut store = SessionStore::new();
    assert_eq!(
        record_death(&mut pool, &mut store, AUTH, PLAYER, SID, HASH),
        Err(ErrorCode::SessionNotFound)
    );
    assert_eq!(
        claim_victory(&mut pool, &mut store, AUTH, PLAYER, SID, 0, 0),
        Err(ErrorCode::SessionNotFound)
    );
    assert_eq!(close_session(&mut store, PLAYER, SID), Err(ErrorCode::SessionNotFound));
}

#[test]
fn scenario_b_victory_pays_escrow_plus_bonus() {
    let mut pool = fresh_pool(500, 5000);
    let mut store = SessionStore::new();
    stake(&mut pool, &mut store, PLAYER, 100_000_000, SID, 42).unwrap();
    // pool custody holds plenty over the reserve
    let payout = claim_victory(
        &mut pool,
        &mut store,
        AUTH,
        PLAYER,
        SID,
        200_000_000,
        2_000_000,
    )
    .unwrap();
    assert_eq!(payout, 142_500_000);
    assert_eq!(pool.total_victories, 1);
    assert_eq!(pool.total_staked, 0);
    assert_eq!(store.lookup(&PLAYER, &SID).unwrap().status, SessionStatus::Victory);
}

#[test]
fn scenario_b_victory_fails_when_reserve_would_be_breached() {
    let mut pool = fresh_pool(500, 5000);
    let mut store = SessionStore::new();
    stake(&mut pool, &mut store, PLAYER, 100_000_000, SID, 42).unwrap();
    // available = 144_000_000 - 2_000_000 = 142_000_000 < 142_500_000
    let r = claim_victory(
        &mut pool,
        &mut store,
        AUTH,
        PLAYER,
        SID,
        144_000_000,
        2_000_000,
    );
    assert_eq!(r, Err(ErrorCode::InsufficientPoolFunds));
    assert_eq!(pool.total_victories, 0);
    assert_eq!(pool.total_staked, 95_000_000);
    assert_eq!(store.lookup(&PLAYER, &SID).unwrap().status, SessionStatus::Active);
    // exactly enough commits
    let payout = claim_victory(
        &mut pool,
        &mut store,
        AUTH,
        PLAYER,
        SID,
        144_500_000,
        2_000_000,
    )
    .unwrap();
    assert_eq!(payout, 142_500_000);
}

#[test]
fn victory_requires_the_authority() {
    let mut pool = fresh_pool(500, 5000);
    let mut store = SessionStore::new();
    stake(&mut pool, &mut store, PLAYER, 100_000_000, SID, 42).unwrap();
    let r = claim_victory(&mut pool, &mut store, TREAS, PLAYER, SID, u64::MAX, 0);
    assert_eq!(r, Err(ErrorCode::Unauthorized));
    assert_eq!(pool.total_victories, 0);
}

#[test]
fn no_double_resolution() {
    let mut pool = fresh_pool(500, 5000);
    let mut store = SessionStore::new();
    stake(&mut pool, &mut store, PLAYER, 100_000_000, SID, 42).unwrap();
    record_death(&mut pool, &mut store, AUTH, PLAYER, SID, HASH).unwrap();
    assert_eq!(
        claim_victory(&mut pool, &mut store, AUTH, PLAYER, SID, u64::MAX, 0),
        Err(ErrorCode::SessionNotActive)
    );
    assert_eq!(
        record_death(&mut pool, &mut store, AUTH, PLAYER, SID, HASH),
        Err(ErrorCode::SessionNotActive)
    );
    assert_eq!(pool.total_deaths, 1);
    assert_eq!(pool.total_victories, 0);

    let mut pool2 = fresh_pool(500, 5000);
    let mut store2 = SessionStore::new();
    stake(&mut pool2, &mut store2, PLAYER, 100_000_000, SID, 42).unwrap();
    claim_victory(&mut pool2, &mut store2, AUTH, PLAYER, SID, u64::MAX, 0).unwrap();
    assert_eq!(
        claim_victory(&mut pool2, &mut store2, AUTH, PLAYER, SID, u64::MAX, 0),
        Err(ErrorCode::SessionNotActive)
    );
    assert_eq!(
        record_death(&mut pool2, &mut store2, AUTH, PLAYER, SID, HASH),
        Err(ErrorCode::SessionNotActive)
    );
    assert_eq!(pool2.total_victories, 1);
}

#[test]
fn close_gating() {
    let mut pool = fresh_pool(500, 5000);
    let mut store = SessionStore::new();
    stake(&mut pool, &mut store, PLAYER, 100_000_000, SID, 42).unwrap();
    assert_eq!(close_session(&mut store, PLAYER, SID), Err(ErrorCode::SessionStillActive));
    record_death(&mut pool, &mut store, AUTH, PLAYER, SID, HASH).unwrap();
    assert_eq!(close_session(&mut store, PLAYER, SID), Ok(()));
    assert!(store.lookup(&PLAYER, &SID).is_none());
    // a closed key can be staked again
    let receipt = stake(&mut pool, &mut store, PLAYER, 100_000_000, SID, 43).unwrap();
    assert_eq!(receipt.escrow, 95_000_000);
}

#[test]
fn close_after_victory_succeeds() {
    let mut pool = fresh_pool(0, 10000);
    let mut store = SessionStore::new();
    stake(&mut pool, &mut store, PLAYER, 10_000_000, SID, 1).unwrap();
    let payout = claim_victory(&mut pool, &mut store, AUTH, PLAYER, SID, u64::MAX, 1).unwrap();
    assert_eq!(payout, 20_000_000);
    assert_eq!(close_session(&mut store, PLAYER, SID), Ok(()));
    assert!(store.lookup(&PLAYER, &SID).is_none());
}

#[test]
fn sessions_with_distinct_keys_are_independent() {
    let mut pool = fresh_pool(500, 5000);
    let mut store = SessionStore::new();
    let other_player = [7u8; 32];
    let other_sid = [8u8; 32];
    stake(&mut pool, &mut store, PLAYER, 100_000_000, SID, 1).unwrap();
    stake(&mut pool, &mut store, PLAYER, 100_000_000, other_sid, 2).unwrap();
    stake(&mut pool, &mut store, other_player, 100_000_000, SID, 3).unwrap();
    assert_eq!(pool.total_staked, 285_000_000);
    record_death(&mut pool, &mut store, AUTH, PLAYER, SID, HASH).unwrap();
    assert_eq!(store.lookup(&PLAYER, &other_sid).unwrap().status, SessionStatus::Active);
    assert_eq!(store.lookup(&other_player, &SID).unwrap().status, SessionStatus::Active);
    assert_eq!(store.lookup(&PLAYER, &SID).unwrap().status, SessionStatus::Dead);
}
