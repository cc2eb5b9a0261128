//! A user hands the pool a funded stake account and receives LST in
//! proportion to the pool's exchange rate; the pool records the stake.
use vstd::prelude::*;
use vstd::arithmetic::power::pow;
use crate::errors::CustomErrors;
use crate::key::Key;
use crate::math::{share_of, lemma_share_bounds, checked_ten_pow, ten_pow};
use crate::program_ids::{stake_program_bytes, stake_program_key};
use crate::states::{count_after, Pool, StakeEntry, StakeStatus};

verus! {

/// The accounts of a deposit, as the handler reads them.
pub struct DepositAndDelegate {
    pub user: Key,
    pub pool: Pool,
    pub pool_key: Key,
    pub stake_account: Key,
    /// The program that owns the stake account.
    pub stake_account_owner: Key,
    /// Lamports that the stake account holds.
    pub stake_account_lamports: u64,
    pub reserve_account: Key,
    pub validator_vote: Key,
    pub stake_entry: StakeEntry,
    pub lst_mint: Key,
    pub user_token_ata: Key,
}

/// Whether `pool` has never had stake or LST: its first deposit sets the rate.
pub open spec fn is_first_deposit(pool: Pool) -> bool {
    pool.total_staked == 0 && pool.total_lst_minted == 0
}

/// LST that a deposit of `stake` lamports is worth: one whole LST (scaled
/// by the mint's decimals) per lamport for the first deposit, else the
/// deposit's share of the LST in circulation, rounded down.
pub open spec fn deposit_mint(pool: Pool, stake: u64) -> int {
    if is_first_deposit(pool) {
        stake * pow(10, pool.lst_decimals as nat)
    } else {
        share_of(stake as int, pool.total_lst_minted as int, pool.total_staked as int)
    }
}

/// Whether the deposit's arithmetic stays within `u128` (the handler cannot
/// complete otherwise).
pub open spec fn deposit_in_range(pool: Pool, stake: u64) -> bool {
    &&& is_first_deposit(pool) ==> {
        &&& pow(10, pool.lst_decimals as nat) <= u128::MAX
        &&& stake * pow(10, pool.lst_decimals as nat) <= u128::MAX
    }
    &&& !is_first_deposit(pool) ==> {
        &&& pool.total_staked != 0
        &&& stake * pool.total_lst_minted <= u128::MAX
    }
    &&& deposit_mint(pool, stake) <= u64::MAX ==> {
        &&& pool.total_staked + stake <= u128::MAX
        &&& pool.total_lst_minted + deposit_mint(pool, stake) <= u128::MAX
    }
}

/// The handler's checks: the stake account is owned by the stake program,
/// a positive amount is declared, and the account holds the rent-exempt
/// minimum plus that amount, so that no LST is minted for missing lamports.
pub open spec fn deposit_check(ctx: DepositAndDelegate, stake: u64, rent_exempt: u64) -> Result<(), CustomErrors> {
    if ctx.stake_account_owner@ != stake_program_bytes() {
        Err(CustomErrors::NotTheOwner)
    } else if stake == 0 || (ctx.stake_account_lamports as int) < rent_exempt + stake {
        Err(CustomErrors::InsufficientStakeAmount)
    } else {
        Ok(())
    }
}

/// What a deposit returns: the check's error, `MathOverflow` when the LST
/// does not fit in a `u64`, or the LST to mint.
pub open spec fn deposit_outcome(ctx: DepositAndDelegate, stake: u64, rent_exempt: u64) -> Result<u64, CustomErrors> {
    match deposit_check(ctx, stake, rent_exempt) {
        Err(e) => Err(e),
        Ok(_) => if deposit_mint(ctx.pool, stake) > u64::MAX {
            Err(CustomErrors::MathOverflow)
        } else {
            Ok(deposit_mint(ctx.pool, stake) as u64)
        },
    }
}

/// The accounts after a deposit that mints `mint` LST.
pub open spec fn deposit_applied(ctx: DepositAndDelegate, stake: u64, mint: int) -> DepositAndDelegate {
    DepositAndDelegate {
        pool: Pool {
            total_staked: (ctx.pool.total_staked + stake) as u128,
            total_lst_minted: (ctx.pool.total_lst_minted + mint) as u128,
            staked_count: count_after(ctx.pool.staked_count),
            ..ctx.pool
        },
        stake_entry: StakeEntry {
            pool: ctx.pool_key,
            validator_voter: ctx.validator_vote,
            stake_account: ctx.stake_account,
            deposited_lamports: stake as u128,
            status: StakeStatus::Active,
            index: ctx.pool.staked_count,
        },
        ..ctx
    }
}

/// The handler's checks on the stake account and the amount.
pub fn deposit_checks(ctx: &DepositAndDelegate, stake_amount: u64, rent_exempt: u64) -> (r: Result<(), CustomErrors>)
    ensures
        r == deposit_check(*ctx, stake_amount, rent_exempt),
{
    if !ctx.stake_account_owner.same_as(&stake_program_key()) {
        return Err(CustomErrors::NotTheOwner);
    }
    if stake_amount == 0 || (ctx.stake_account_lamports as u128) < rent_exempt as u128 + stake_amount as u128 {
        return Err(CustomErrors::InsufficientStakeAmount);
    }
    Ok(())
}

/// Whether a deposit of `stake` lamports into `pool` stays within `u128`.
pub fn deposit_amounts_fit(pool: &Pool, stake: u64) -> (r: bool)
    ensures
        r == deposit_in_range(*pool, stake),
{
    let ts = pool.total_staked;
    let tl = pool.total_lst_minted;
    let mint: u128;
    if ts == 0 && tl == 0 {
        let scale = match checked_ten_pow(pool.lst_decimals) {
            Some(p) => p,
            None => {
                return false;
            },
        };
        mint = match (stake as u128).checked_mul(scale) {
            Some(m) => m,
            None => {
                return false;
            },
        };
    } else {
        if ts == 0 {
            return false;
        }
        let product = match (stake as u128).checked_mul(tl) {
            Some(p) => p,
            None => {
                return false;
            },
        };
        mint = product / ts;
    }
    if mint > u64::MAX as u128 {
        return true;
    }
    ts.checked_add(stake as u128).is_some() && tl.checked_add(mint).is_some()
}

/// Records a deposit of `stake_amount` lamports held in a stake account.
/// `rent_exempt` is the rent-exempt minimum of a stake account. On success
/// it returns the LST to mint to the user; the pool's totals grow by the
/// stake and that LST, and the stake entry records the deposit. On any error
/// nothing changes.
pub fn deposit_and_delegate(ctx: &mut DepositAndDelegate, stake_amount: u64, rent_exempt: u64) -> (r: Result<u64, CustomErrors>)
    requires
        deposit_check(*old(ctx), stake_amount, rent_exempt) is Ok ==> deposit_in_range(old(ctx).pool, stake_amount),
    ensures
        r == deposit_outcome(*old(ctx), stake_amount, rent_exempt),
        match deposit_check(*old(ctx), stake_amount, rent_exempt) {
            Err(e) => r == Err::<u64, CustomErrors>(e) && *final(ctx) == *old(ctx),
            Ok(_) => if deposit_mint(old(ctx).pool, stake_amount) > u64::MAX {
                r == Err::<u64, CustomErrors>(CustomErrors::MathOverflow) && *final(ctx) == *old(ctx)
            } else {
                &&& r == Ok::<u64, CustomErrors>(deposit_mint(old(ctx).pool, stake_amount) as u64)
                &&& *final(ctx) == deposit_applied(*old(ctx), stake_amount, deposit_mint(old(ctx).pool, stake_amount))
            },
        },
        // The pool's invariant is kept.
        old(ctx).pool.wf() ==> final(ctx).pool.wf(),
        // The lamports that back one LST never drop.
        final(ctx).pool.total_staked * old(ctx).pool.total_lst_minted
            >= old(ctx).pool.total_staked * final(ctx).pool.total_lst_minted,
{
    match deposit_checks(ctx, stake_amount, rent_exempt) {
        Err(e) => {
            return Err(e);
        },
        Ok(()) => {},
    }
    let ts = ctx.pool.total_staked;
    let tl = ctx.pool.total_lst_minted;
    let lst_mint_amount: u128;
    if ts == 0 && tl == 0 {
        let scale = ten_pow(ctx.pool.lst_decimals);
        lst_mint_amount = (stake_amount as u128) * scale;
        proof {
            if stake_amount == 0 {
                assert(lst_mint_amount == 0) by (nonlinear_arith)
                    requires
                        lst_mint_amount == stake_amount * scale,
                        stake_amount == 0,
                ;
            }
        }
    } else {
        lst_mint_amount = (stake_amount as u128) * tl / ts;
        proof {
            lemma_share_bounds(stake_amount as int, tl as int, ts as int);
            let m = lst_mint_amount as int;
            assert((ts + stake_amount) * tl >= ts * (tl + m)) by (nonlinear_arith)
                requires
                    m * ts <= stake_amount * tl,
            ;
            if tl + m > 0 && ts == 0 {
                assert(false);
            }
        }
    }
    if lst_mint_amount > u64::MAX as u128 {
        return Err(CustomErrors::MathOverflow);
    }
    let mint_amount = lst_mint_amount as u64;
    ctx.pool.total_staked = ts + stake_amount as u128;
    ctx.pool.total_lst_minted = tl + mint_amount as u128;
    ctx.stake_entry.pool = ctx.pool_key;
    ctx.stake_entry.validator_voter = ctx.validator_vote;
    ctx.stake_entry.stake_account = ctx.stake_account;
    ctx.stake_entry.deposited_lamports = stake_amount as u128;
    ctx.stake_entry.status = StakeStatus::Active;
    ctx.stake_entry.index = ctx.pool.staked_count;
    ctx.pool.staked_count = ctx.pool.staked_count.checked_add(1).unwrap_or(ctx.pool.staked_count);
    Ok(mint_amount)
}

} // verus!
