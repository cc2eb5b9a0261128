use stakely::errors::{AccountsError, CustomErrors};
use stakely::instructions::process_unstake::{process_unstake, ProcessUnstake};
use stakely::instructions::request_unstake::{request_unstake, request_unstake_burn_amount, RequestUnstake};
use stakely::key::Key;
use stakely::states::{Pool, StakeEntry, StakeStatus, UnstakeTicket};

fn key(b: u8) -> Key {
    Key::new([b; 32])
}

fn pool(total_staked: u128, total_lst_minted: u128) -> Pool {
    Pool {
        admin: key(1),
        reserve: key(2),
        lst_mint: key(3),
        bump: 255,
        reserve_bump: 254,
        total_staked,
        total_lst_minted,
        staked_count: 4,
        unstaked_count: 7,
        lst_decimals: 9,
        deactivating_stakes: Vec::new(),
    }
}

fn entry(status: StakeStatus) -> StakeEntry {
    StakeEntry {
        pool: key(4),
        stake_account: key(5),
        validator_voter: key(6),
        deposited_lamports: 100,
        status,
        index: 0,
    }
}

fn blank_ticket() -> UnstakeTicket {
    UnstakeTicket { pool: key(0), requester: key(0), requested_lamports: 0, released: false, index: 0 }
}

fn request(pool: Pool, balance: u64, status: StakeStatus) -> RequestUnstake {
    RequestUnstake {
        user: key(9),
        user_token_ata_amount: balance,
        pool,
        pool_key: key(4),
        lst_mint: key(3),
        stake_entry: entry(status),
        unstake_ticket: blank_ticket(),
    }
}

#[test]
fn unstake_ticket_gets_the_value_of_the_burned_lst() {
    let mut ctx = request(pool(1000, 500), 100, StakeStatus::Active);
    assert_eq!(request_unstake_burn_amount(&ctx), Ok(100));
    assert_eq!(request_unstake(&mut ctx), Ok(()));
    assert_eq!(ctx.unstake_ticket.requested_lamports, 200);
    assert!(ctx.unstake_ticket.pool.same_as(&key(4)));
    assert!(ctx.unstake_ticket.requester.same_as(&key(9)));
    assert!(!ctx.unstake_ticket.released);
    assert_eq!(ctx.unstake_ticket.index, 7);
    assert_eq!(ctx.pool.total_staked, 800);
    assert_eq!(ctx.pool.total_lst_minted, 400);
    assert_eq!(ctx.pool.unstaked_count, 8);
}

#[test]
fn unstake_rounds_the_lamports_down() {
    // 1 LST of 3 backed by 10 lamports is worth 3.33 lamports.
    let mut ctx = request(pool(10, 3), 1, StakeStatus::Active);
    assert_eq!(request_unstake(&mut ctx), Ok(()));
    assert_eq!(ctx.unstake_ticket.requested_lamports, 3);
    assert_eq!(ctx.pool.total_staked, 7);
    assert_eq!(ctx.pool.total_lst_minted, 2);
}

#[test]
fn unstaking_all_lst_empties_the_pool() {
    let mut ctx = request(pool(12345, 678), 678, StakeStatus::Active);
    assert_eq!(request_unstake(&mut ctx), Ok(()));
    assert_eq!(ctx.unstake_ticket.requested_lamports, 12345);
    assert_eq!(ctx.pool.total_staked, 0);
    assert_eq!(ctx.pool.total_lst_minted, 0);
}

#[test]
fn unstake_errors_in_order() {
    let mut ctx = request(pool(1000, 500), 0, StakeStatus::Deactive);
    assert_eq!(request_unstake_burn_amount(&ctx), Err(CustomErrors::InvalidUnstakeAmount));
    assert_eq!(request_unstake(&mut ctx), Err(CustomErrors::InvalidUnstakeAmount));
    let mut ctx = request(pool(1000, 500), 501, StakeStatus::Deactive);
    assert_eq!(request_unstake(&mut ctx), Err(CustomErrors::InvalidStakeAmount));
    let mut ctx = request(pool(1000, 500), 500, StakeStatus::Deactivating);
    assert_eq!(request_unstake_burn_amount(&ctx), Err(CustomErrors::NoActiveStake));
    assert_eq!(request_unstake(&mut ctx), Err(CustomErrors::NoActiveStake));
    assert_eq!(ctx.pool.total_staked, 1000);
    assert_eq!(ctx.pool.unstaked_count, 7);
    assert_eq!(ctx.unstake_ticket.requested_lamports, 0);
}

#[test]
fn unstake_value_too_large_to_compute_fails_with_math_overflow() {
    let mut ctx = request(pool(u128::MAX, u128::MAX), 2, StakeStatus::Active);
    assert_eq!(request_unstake(&mut ctx), Err(CustomErrors::MathOverflow));
    assert_eq!(ctx.pool.total_staked, u128::MAX);
    assert_eq!(ctx.pool.unstaked_count, 7);
    assert_eq!(ctx.unstake_ticket.index, 0);
}

#[test]
fn unstake_never_lowers_the_lamports_behind_each_token() {
    let mut ctx = request(pool(1001, 333), 100, StakeStatus::Active);
    assert_eq!(request_unstake(&mut ctx), Ok(()));
    assert_eq!(ctx.unstake_ticket.requested_lamports, 300);
    assert!(ctx.pool.total_staked * 333 >= 1001 * ctx.pool.total_lst_minted);
}

#[test]
fn request_unstake_accounts_relations() {
    let ctx = request(pool(1000, 500), 1, StakeStatus::Active);
    assert_eq!(ctx.validate(), Ok(()));
    let mut wrong_mint = request(pool(1000, 500), 1, StakeStatus::Active);
    wrong_mint.lst_mint = key(30);
    assert_eq!(wrong_mint.validate(), Err(AccountsError::ConstraintHasOne));
    let mut foreign_entry = request(pool(1000, 500), 1, StakeStatus::Active);
    foreign_entry.pool_key = key(40);
    assert_eq!(foreign_entry.validate(), Err(AccountsError::ConstraintHasOne));
}

fn payout(requested: u128, reserve: u64, requester: u64) -> ProcessUnstake {
    ProcessUnstake {
        admin: key(1),
        requester: key(9),
        requester_lamports: requester,
        pool: pool(0, 0),
        pool_key: key(4),
        reserve_account: key(2),
        reserve_lamports: reserve,
        unstake_ticket: UnstakeTicket {
            pool: key(4),
            requester: key(9),
            requested_lamports: requested,
            released: false,
            index: 3,
        },
        unstake_ticket_key: key(8),
    }
}

#[test]
fn payout_moves_ticket_lamports_from_reserve_to_requester() {
    let mut ctx = payout(300, 1000, 50);
    assert_eq!(ctx.validate(), Ok(()));
    assert_eq!(process_unstake(&mut ctx), Ok(()));
    assert_eq!(ctx.reserve_lamports, 700);
    assert_eq!(ctx.requester_lamports, 350);
    assert!(ctx.unstake_ticket.released);
}

#[test]
fn a_paid_ticket_is_refused() {
    let mut ctx = payout(300, 1000, 50);
    assert_eq!(process_unstake(&mut ctx), Ok(()));
    assert_eq!(
        ctx.validate(),
        Err(AccountsError::Custom(CustomErrors::FundAlreadyReleased))
    );
    assert_eq!(process_unstake(&mut ctx), Err(CustomErrors::FundAlreadyReleased));
    assert_eq!(ctx.reserve_lamports, 700);
    assert_eq!(ctx.requester_lamports, 350);
}

#[test]
fn payout_errors() {
    let mut ctx = payout(u64::MAX as u128 + 1, u64::MAX, 0);
    assert_eq!(process_unstake(&mut ctx), Err(CustomErrors::MathOverflow));
    let mut ctx = payout(1001, 1000, 0);
    assert_eq!(process_unstake(&mut ctx), Err(CustomErrors::InsufficientBalance));
    assert_eq!(ctx.reserve_lamports, 1000);
    assert!(!ctx.unstake_ticket.released);
    let mut ctx = payout(1000, 1000, 0);
    assert_eq!(process_unstake(&mut ctx), Ok(()));
    assert_eq!(ctx.reserve_lamports, 0);
    assert_eq!(ctx.requester_lamports, 1000);
}

#[test]
fn payout_accounts_relations_in_declared_order() {
    let mut ctx = payout(1, 1, 0);
    ctx.admin = key(20);
    ctx.requester = key(21);
    assert_eq!(ctx.validate(), Err(AccountsError::Custom(CustomErrors::NotTheOwner)));
    let mut ctx = payout(1, 1, 0);
    ctx.requester = key(21);
    assert_eq!(ctx.validate(), Err(AccountsError::Custom(CustomErrors::KeyMismatch)));
    let mut ctx = payout(1, 1, 0);
    ctx.reserve_account = key(22);
    assert_eq!(ctx.validate(), Err(AccountsError::Custom(CustomErrors::KeyMismatch)));
    let mut ctx = payout(1, 1, 0);
    ctx.unstake_ticket.pool = key(23);
    assert_eq!(ctx.validate(), Err(AccountsError::Custom(CustomErrors::KeyMismatch)));
    let mut ctx = payout(1, 1, 0);
    ctx.unstake_ticket_key = key(9);
    assert_eq!(ctx.validate(), Err(AccountsError::ConstraintClose));
}
