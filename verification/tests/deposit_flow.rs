use stakely::errors::CustomErrors;
use stakely::instructions::deposit_and_delegate::{deposit_amounts_fit, deposit_and_delegate, DepositAndDelegate};
use stakely::key::Key;
use stakely::states::{Pool, StakeEntry, StakeStatus};

const STAKE_PROGRAM: [u8; 32] = [
    6, 161, 216, 23, 145, 55, 84, 42, 152, 52, 55, 189, 254, 42, 122, 178, 85, 127, 83, 92, 138,
    120, 114, 43, 104, 164, 157, 192, 0, 0, 0, 0,
];

fn key(b: u8) -> Key {
    Key::new([b; 32])
}

fn pool(total_staked: u128, total_lst_minted: u128, decimals: u8) -> Pool {
    Pool {
        admin: key(1),
        reserve: key(2),
        lst_mint: key(3),
        bump: 255,
        reserve_bump: 254,
        total_staked,
        total_lst_minted,
        staked_count: 10,
        unstaked_count: 0,
        lst_decimals: decimals,
        deactivating_stakes: Vec::new(),
    }
}

fn blank_entry() -> StakeEntry {
    StakeEntry {
        pool: key(0),
        stake_account: key(0),
        validator_voter: key(0),
        deposited_lamports: 0,
        status: StakeStatus::Deactive,
        index: 0,
    }
}

fn deposit_ctx(pool: Pool, owner: [u8; 32], lamports: u64) -> DepositAndDelegate {
    DepositAndDelegate {
        user: key(9),
        pool,
        pool_key: key(4),
        stake_account: key(5),
        stake_account_owner: Key::new(owner),
        stake_account_lamports: lamports,
        reserve_account: key(2),
        validator_vote: key(6),
        stake_entry: blank_entry(),
        lst_mint: key(3),
        user_token_ata: key(7),
    }
}

#[test]
fn first_deposit_mints_one_token_per_lamport_scaled_by_decimals() {
    let mut ctx = deposit_ctx(pool(0, 0, 9), STAKE_PROGRAM, 5_000_000_000);
    let r = deposit_and_delegate(&mut ctx, 2_000_000_000, 2_282_880);
    assert_eq!(r, Ok(2_000_000_000u64 * 1_000_000_000));
    assert_eq!(ctx.pool.total_staked, 2_000_000_000);
    assert_eq!(ctx.pool.total_lst_minted, 2_000_000_000_000_000_000);
    assert_eq!(ctx.pool.staked_count, 11);
    assert!(ctx.stake_entry.pool.same_as(&key(4)));
    assert!(ctx.stake_entry.stake_account.same_as(&key(5)));
    assert!(ctx.stake_entry.validator_voter.same_as(&key(6)));
    assert_eq!(ctx.stake_entry.deposited_lamports, 2_000_000_000);
    assert_eq!(ctx.stake_entry.status, StakeStatus::Active);
    assert_eq!(ctx.stake_entry.index, 10);
}

#[test]
fn later_deposit_mints_its_share_rounded_down() {
    // 1000 lamports back 3000 LST; 10 lamports are worth 30 LST.
    let mut ctx = deposit_ctx(pool(1000, 3000, 9), STAKE_PROGRAM, 10);
    assert_eq!(deposit_and_delegate(&mut ctx, 10, 0), Ok(30));
    assert_eq!(ctx.pool.total_staked, 1010);
    assert_eq!(ctx.pool.total_lst_minted, 3030);
    // 7 lamports into 3 lamports backing 2 LST: 7 * 2 / 3 = 4.67, so 4.
    let mut ctx = deposit_ctx(pool(3, 2, 0), STAKE_PROGRAM, 7);
    assert_eq!(deposit_and_delegate(&mut ctx, 7, 0), Ok(4));
    assert_eq!(ctx.pool.total_staked, 10);
    assert_eq!(ctx.pool.total_lst_minted, 6);
}

#[test]
fn deposit_into_rewarded_pool_without_lst_mints_nothing() {
    let mut ctx = deposit_ctx(pool(500, 0, 9), STAKE_PROGRAM, 100);
    assert_eq!(deposit_and_delegate(&mut ctx, 100, 0), Ok(0));
    assert_eq!(ctx.pool.total_staked, 600);
    assert_eq!(ctx.pool.total_lst_minted, 0);
}

#[test]
fn deposit_refuses_stake_account_not_owned_by_stake_program() {
    let mut ctx = deposit_ctx(pool(0, 0, 9), [1u8; 32], 5_000);
    assert_eq!(deposit_and_delegate(&mut ctx, 1_000, 0), Err(CustomErrors::NotTheOwner));
    assert_eq!(ctx.pool.total_staked, 0);
    assert_eq!(ctx.pool.staked_count, 10);
    assert_eq!(ctx.stake_entry.status, StakeStatus::Deactive);
}

#[test]
fn deposit_needs_rent_plus_the_amount_in_the_account() {
    let mut ctx = deposit_ctx(pool(0, 0, 9), STAKE_PROGRAM, 100);
    assert_eq!(deposit_and_delegate(&mut ctx, 50, 51), Err(CustomErrors::InsufficientStakeAmount));
    let mut ctx = deposit_ctx(pool(0, 0, 9), STAKE_PROGRAM, 101);
    assert_eq!(deposit_and_delegate(&mut ctx, 50, 51), Ok(50_000_000_000));
    assert_eq!(ctx.pool.staked_count, 11);
}

#[test]
fn zero_deposit_is_refused() {
    let mut ctx = deposit_ctx(pool(0, 0, 9), STAKE_PROGRAM, 1_000_000);
    assert_eq!(deposit_and_delegate(&mut ctx, 0, 0), Err(CustomErrors::InsufficientStakeAmount));
    assert_eq!(ctx.pool.staked_count, 10);
}

#[test]
fn deposit_of_missing_lamports_is_refused() {
    let mut ctx = deposit_ctx(pool(1000, 1000, 9), STAKE_PROGRAM, 0);
    assert_eq!(deposit_and_delegate(&mut ctx, 50, 0), Err(CustomErrors::InsufficientStakeAmount));
    assert_eq!(ctx.pool.total_staked, 1000);
    assert_eq!(ctx.pool.total_lst_minted, 1000);
    assert_eq!(ctx.stake_entry.status, StakeStatus::Deactive);
    // Huge rent plus amount is compared without overflow.
    let mut ctx = deposit_ctx(pool(1000, 1000, 9), STAKE_PROGRAM, u64::MAX);
    assert_eq!(deposit_and_delegate(&mut ctx, 2, u64::MAX), Err(CustomErrors::InsufficientStakeAmount));
}

#[test]
fn deposit_whose_lst_exceeds_u64_fails_with_math_overflow() {
    let mut ctx = deposit_ctx(pool(0, 0, 18), STAKE_PROGRAM, 100);
    assert!(deposit_amounts_fit(&ctx.pool, 100));
    assert_eq!(deposit_and_delegate(&mut ctx, 100, 0), Err(CustomErrors::MathOverflow));
    assert_eq!(ctx.pool.total_staked, 0);
    assert_eq!(ctx.pool.staked_count, 10);
}

#[test]
fn deposit_range_check() {
    // 10^39 does not fit in a u128.
    assert!(!deposit_amounts_fit(&pool(0, 0, 39), 1));
    assert!(deposit_amounts_fit(&pool(0, 0, 38), 0));
    // Lamports without the rate's denominator cannot be divided by.
    assert!(!deposit_amounts_fit(&pool(0, 5, 9), 1));
    assert!(deposit_amounts_fit(&pool(5, 0, 9), 1));
    assert!(!deposit_amounts_fit(&pool(u128::MAX, 1, 9), 1));
    assert!(deposit_amounts_fit(&pool(u128::MAX - 1, 1, 9), 1));
}

#[test]
fn staked_count_stays_at_its_maximum() {
    let mut p = pool(10, 10, 0);
    p.staked_count = u64::MAX;
    let mut ctx = deposit_ctx(p, STAKE_PROGRAM, 10);
    assert_eq!(deposit_and_delegate(&mut ctx, 10, 0), Ok(10));
    assert_eq!(ctx.pool.staked_count, u64::MAX);
    assert_eq!(ctx.stake_entry.index, u64::MAX);
}

#[test]
fn deposit_never_lowers_the_lamports_behind_each_token() {
    let mut ctx = deposit_ctx(pool(1003, 997, 0), STAKE_PROGRAM, 501);
    let before = (ctx.pool.total_staked, ctx.pool.total_lst_minted);
    assert_eq!(deposit_and_delegate(&mut ctx, 501, 0), Ok(498));
    let after = (ctx.pool.total_staked, ctx.pool.total_lst_minted);
    assert!(after.0 * before.1 >= before.0 * after.1);
}
