//! A user burns all LST in their token account and receives a ticket for
//! the lamports that this LST is worth.
use vstd::prelude::*;
use crate::errors::{AccountsError, CustomErrors};
use crate::key::Key;
use crate::math::{share_of, lemma_share_bounds, lemma_share_at_most_total, lemma_share_below_total};
use crate::states::{count_after, Pool, StakeEntry, StakeStatus, UnstakeTicket};

verus! {

/// The accounts of an unstake request, as the handler reads them.
pub struct RequestUnstake {
    pub user: Key,
    /// LST in the user's token account for the pool's mint, read before the burn.
    pub user_token_ata_amount: u64,
    pub pool: Pool,
    pub pool_key: Key,
    pub lst_mint: Key,
    pub stake_entry: StakeEntry,
    pub unstake_ticket: UnstakeTicket,
}

/// Lamports that `lst` LST are worth in `pool`, rounded down.
pub open spec fn unstake_lamports(pool: Pool, lst: u64) -> int {
    share_of(lst as int, pool.total_staked as int, pool.total_lst_minted as int)
}

/// What the handler checks before the burn: the amount to burn, or why not.
pub open spec fn unstake_check(ctx: RequestUnstake) -> Result<u64, CustomErrors> {
    let lst = ctx.user_token_ata_amount;
    if lst == 0 {
        Err(CustomErrors::InvalidUnstakeAmount)
    } else if ctx.pool.total_lst_minted < lst {
        Err(CustomErrors::InvalidStakeAmount)
    } else if ctx.stake_entry.status != StakeStatus::Active {
        Err(CustomErrors::NoActiveStake)
    } else {
        Ok(lst)
    }
}

/// Whether the lamport value of the burned LST cannot be computed in a `u128`.
pub open spec fn unstake_overflows(ctx: RequestUnstake) -> bool {
    ctx.user_token_ata_amount as int * ctx.pool.total_staked as int > u128::MAX
}

/// What an unstake request returns: the check's error, `MathOverflow` when
/// the lamport value cannot be computed, or success.
pub open spec fn unstake_outcome(ctx: RequestUnstake) -> Result<(), CustomErrors> {
    match unstake_check(ctx) {
        Err(e) => Err(e),
        Ok(_) => if unstake_overflows(ctx) {
            Err(CustomErrors::MathOverflow)
        } else {
            Ok(())
        },
    }
}

/// The accounts after a successful request: the pool gives up the burned LST
/// and its lamport value, and the ticket records that value for the user.
pub open spec fn unstake_applied(ctx: RequestUnstake) -> RequestUnstake {
    let lst = ctx.user_token_ata_amount;
    let lamports = unstake_lamports(ctx.pool, lst);
    RequestUnstake {
        pool: Pool {
            total_staked: (ctx.pool.total_staked - lamports) as u128,
            total_lst_minted: (ctx.pool.total_lst_minted - lst) as u128,
            unstaked_count: count_after(ctx.pool.unstaked_count),
            ..ctx.pool
        },
        unstake_ticket: UnstakeTicket {
            pool: ctx.pool_key,
            requester: ctx.user,
            requested_lamports: lamports as u128,
            released: false,
            index: ctx.pool.unstaked_count,
        },
        ..ctx
    }
}

impl RequestUnstake {
    /// The account relations, checked in the order they are declared: the
    /// pool's mint is the mint given, and the stake entry belongs to the pool.
    pub open spec fn constraints(&self) -> Result<(), AccountsError> {
        if self.pool.lst_mint@ != self.lst_mint@ {
            Err(AccountsError::ConstraintHasOne)
        } else if self.lst_mint@ != self.pool.lst_mint@ {
            Err(AccountsError::ConstraintAddress)
        } else if self.stake_entry.pool@ != self.pool_key@ {
            Err(AccountsError::ConstraintHasOne)
        } else if self.pool_key@ != self.stake_entry.pool@ {
            Err(AccountsError::ConstraintRaw)
        } else {
            Ok(())
        }
    }

    /// Checks the account relations.
    pub fn validate(&self) -> (r: Result<(), AccountsError>)
        ensures
            r == self.constraints(),
    {
        if !self.pool.lst_mint.same_as(&self.lst_mint) {
            return Err(AccountsError::ConstraintHasOne);
        }
        if !self.lst_mint.same_as(&self.pool.lst_mint) {
            return Err(AccountsError::ConstraintAddress);
        }
        if !self.stake_entry.pool.same_as(&self.pool_key) {
            return Err(AccountsError::ConstraintHasOne);
        }
        if !self.pool_key.same_as(&self.stake_entry.pool) {
            return Err(AccountsError::ConstraintRaw);
        }
        Ok(())
    }
}

/// The handler's checks before the burn: `Ok` with the LST to burn (all of
/// the user's balance), or the error that the request fails with.
pub fn request_unstake_burn_amount(ctx: &RequestUnstake) -> (r: Result<u64, CustomErrors>)
    ensures
        r == unstake_check(*ctx),
{
    let lst = ctx.user_token_ata_amount;
    if lst == 0 {
        return Err(CustomErrors::InvalidUnstakeAmount);
    }
    if ctx.pool.total_lst_minted < lst as u128 {
        return Err(CustomErrors::InvalidStakeAmount);
    }
    if ctx.stake_entry.status != StakeStatus::Active {
        return Err(CustomErrors::NoActiveStake);
    }
    Ok(lst)
}

/// Records an unstake request whose LST has been burned: the ticket gets the
/// lamport value of the burned LST, and the pool's totals drop by that value
/// and by the LST. On any error nothing changes.
pub fn request_unstake(ctx: &mut RequestUnstake) -> (r: Result<(), CustomErrors>)
    ensures
        r == unstake_outcome(*old(ctx)),
        match unstake_check(*old(ctx)) {
            Err(e) => r == Err::<(), CustomErrors>(e) && *final(ctx) == *old(ctx),
            Ok(_) => if unstake_overflows(*old(ctx)) {
                r == Err::<(), CustomErrors>(CustomErrors::MathOverflow) && *final(ctx) == *old(ctx)
            } else {
                r == Ok::<(), CustomErrors>(()) && *final(ctx) == unstake_applied(*old(ctx))
            },
        },
        // The lamports paid out never exceed what the pool holds.
        r is Ok ==> final(ctx).unstake_ticket.requested_lamports <= old(ctx).pool.total_staked,
        // The pool's invariant is kept.
        old(ctx).pool.wf() ==> final(ctx).pool.wf(),
        // The lamports that back one LST never drop.
        final(ctx).pool.total_staked * old(ctx).pool.total_lst_minted
            >= old(ctx).pool.total_staked * final(ctx).pool.total_lst_minted,
{
    match request_unstake_burn_amount(ctx) {
        Err(e) => {
            return Err(e);
        },
        Ok(_) => {},
    }
    let lst = ctx.user_token_ata_amount;
    let lst_u128 = lst as u128;
    let total_staked = ctx.pool.total_staked;
    let total_lst = ctx.pool.total_lst_minted;
    let product = match lst_u128.checked_mul(total_staked) {
        Some(p) => p,
        None => {
            return Err(CustomErrors::MathOverflow);
        },
    };
    let lamports_eq = match product.checked_div(total_lst) {
        Some(q) => q,
        None => {
            return Err(CustomErrors::MathOverflow);
        },
    };
    proof {
        lemma_share_bounds(lst as int, total_staked as int, total_lst as int);
        lemma_share_at_most_total(lst as int, total_staked as int, total_lst as int);
        if (lst as int) < total_lst as int && total_staked > 0 {
            lemma_share_below_total(lst as int, total_staked as int, total_lst as int);
        }
        let q = lamports_eq as int;
        assert((total_staked - q) * total_lst >= total_staked * (total_lst - lst)) by (nonlinear_arith)
            requires
                q * total_lst <= lst * total_staked,
        ;
    }
    ctx.unstake_ticket.pool = ctx.pool_key;
    ctx.unstake_ticket.requester = ctx.user;
    ctx.unstake_ticket.requested_lamports = lamports_eq;
    ctx.unstake_ticket.released = false;
    ctx.unstake_ticket.index = ctx.pool.unstaked_count;
    ctx.pool.total_staked = match total_staked.checked_sub(lamports_eq) {
        Some(v) => v,
        None => {
            return Err(CustomErrors::MathOverflow);
        },
    };
    ctx.pool.total_lst_minted = match total_lst.checked_sub(lst_u128) {
        Some(v) => v,
        None => {
            return Err(CustomErrors::MathOverflow);
        },
    };
    ctx.pool.unstaked_count = ctx.pool.unstaked_count.checked_add(1).unwrap_or(ctx.pool.unstaked_count);
    Ok(())
}

} // verus!
