use stakely::instructions::deposit_and_delegate::{deposit_and_delegate, DepositAndDelegate};
use stakely::instructions::initialize_pool::{initialize_pool, InitializePool};
use stakely::instructions::mock_accrue_rewards::{mock_accrue_rewards, MockAccrueRewards};
use stakely::instructions::request_unstake::{request_unstake, RequestUnstake};
use stakely::key::Key;
use stakely::states::{Pool, StakeEntry, StakeStatus, UnstakeTicket};

const STAKE_PROGRAM: [u8; 32] = [
    6, 161, 216, 23, 145, 55, 84, 42, 152, 52, 55, 189, 254, 42, 122, 178, 85, 127, 83, 92, 138,
    120, 114, 43, 104, 164, 157, 192, 0, 0, 0, 0,
];

fn key(b: u8) -> Key {
    Key::new([b; 32])
}

fn zeroed_pool() -> Pool {
    Pool {
        admin: key(0),
        reserve: key(0),
        lst_mint: key(0),
        bump: 0,
        reserve_bump: 0,
        total_staked: 0,
        total_lst_minted: 0,
        staked_count: 0,
        unstaked_count: 0,
        lst_decimals: 0,
        deactivating_stakes: Vec::new(),
    }
}

fn new_pool(decimals: u8) -> Pool {
    let mut ctx = InitializePool {
        admin: key(1),
        pool: zeroed_pool(),
        pool_key: key(4),
        pool_bump: 255,
        reserve_account: key(2),
        reserve_bump: 254,
        lst_mint: key(3),
        lst_mint_decimals: decimals,
        lst_mint_authority: Some(key(4)),
    };
    initialize_pool(&mut ctx);
    ctx.pool
}

fn deposit(pool: Pool, stake: u64) -> (Pool, u64) {
    let mut ctx = DepositAndDelegate {
        user: key(9),
        pool,
        pool_key: key(4),
        stake_account: key(5),
        stake_account_owner: Key::new(STAKE_PROGRAM),
        stake_account_lamports: stake,
        reserve_account: key(2),
        validator_vote: key(6),
        stake_entry: StakeEntry {
            pool: key(0),
            stake_account: key(0),
            validator_voter: key(0),
            deposited_lamports: 0,
            status: StakeStatus::Deactive,
            index: 0,
        },
        lst_mint: key(3),
        user_token_ata: key(7),
    };
    let minted = deposit_and_delegate(&mut ctx, stake, 0).unwrap();
    (ctx.pool, minted)
}

fn unstake(pool: Pool, lst: u64) -> (Pool, u128) {
    let mut ctx = RequestUnstake {
        user: key(9),
        user_token_ata_amount: lst,
        pool,
        pool_key: key(4),
        lst_mint: key(3),
        stake_entry: StakeEntry {
            pool: key(4),
            stake_account: key(5),
            validator_voter: key(6),
            deposited_lamports: 0,
            status: StakeStatus::Active,
            index: 0,
        },
        unstake_ticket: UnstakeTicket { pool: key(0), requester: key(0), requested_lamports: 0, released: false, index: 0 },
    };
    request_unstake(&mut ctx).unwrap();
    (ctx.pool, ctx.unstake_ticket.requested_lamports)
}

fn accrue(pool: Pool, reward: u64) -> Pool {
    let mut ctx = MockAccrueRewards { admin: key(1), admin_lamports: reward, pool, pool_key: key(4), reserve_account: key(2) };
    mock_accrue_rewards(&mut ctx, reward).unwrap();
    ctx.pool
}

fn rate_kept(before: &Pool, after: &Pool) -> bool {
    after.total_staked * before.total_lst_minted >= before.total_staked * after.total_lst_minted
}

fn backed(pool: &Pool) -> bool {
    pool.total_lst_minted == 0 || pool.total_staked > 0
}

#[test]
fn deposit_then_unstake_returns_at_most_the_deposit() {
    let (pool, _) = deposit(new_pool(0), 3);
    let pool = accrue(pool, 1);
    // 4 lamports back 3 LST; 7 lamports buy 7 * 3 / 4 = 5 LST.
    let (pool, minted) = deposit(pool, 7);
    assert_eq!(minted, 5);
    // 5 LST of 8 backed by 11 lamports are worth 6 lamports.
    let (_, paid) = unstake(pool, minted);
    assert_eq!(paid, 6);
    assert!(paid <= 7);
}

#[test]
fn every_step_keeps_the_rate_and_the_invariant() {
    let p0 = new_pool(2);
    assert!(backed(&p0));
    let (p1, minted) = deposit(p0.clone(), 1_000);
    assert_eq!(minted, 100_000);
    assert!(backed(&p1) && rate_kept(&p0, &p1));
    let p2 = accrue(p1.clone(), 37);
    assert!(backed(&p2) && rate_kept(&p1, &p2));
    let (p3, _) = deposit(p2.clone(), 333);
    assert!(backed(&p3) && rate_kept(&p2, &p3));
    let (p4, _) = unstake(p3.clone(), 12_345);
    assert!(backed(&p4) && rate_kept(&p3, &p4));
    let (p5, paid) = unstake(p4.clone(), p4.total_lst_minted as u64);
    assert_eq!(paid, p4.total_staked);
    assert!(backed(&p5) && rate_kept(&p4, &p5));
    assert_eq!(p5.total_staked, 0);
    assert_eq!(p5.total_lst_minted, 0);
    assert_eq!(p5.unstaked_count, 2);
    assert_eq!(p5.staked_count, 2);
}

#[test]
fn rewards_raise_what_lst_is_worth() {
    let (pool, _) = deposit(new_pool(0), 300);
    let before = pool.total_staked * 100 / pool.total_lst_minted;
    let pool = accrue(pool, 30);
    let after = pool.total_staked * 100 / pool.total_lst_minted;
    assert_eq!(before, 100);
    assert_eq!(after, 110);
    let (_, paid) = unstake(pool, 100);
    assert_eq!(paid, 110);
}
