//! The admin moves lamports into the reserve and counts them as staking
//! rewards, which raises the value of every LST.
use vstd::prelude::*;
use crate::errors::{AccountsError, CustomErrors};
use crate::key::Key;
use crate::states::Pool;

verus! {

/// The accounts of a reward accrual, as the handler reads them.
pub struct MockAccrueRewards {
    pub admin: Key,
    /// Lamports that the admin's account holds.
    pub admin_lamports: u64,
    pub pool: Pool,
    pub pool_key: Key,
    pub reserve_account: Key,
}

impl MockAccrueRewards {
    /// The account relations, checked in the order they are declared: the
    /// admin is the pool's admin, and the reserve is the pool's reserve.
    pub open spec fn constraints(&self) -> Result<(), AccountsError> {
        if self.admin@ != self.pool.admin@ {
            Err(AccountsError::Custom(CustomErrors::NotTheOwner))
        } else if self.pool.reserve@ != self.reserve_account@ {
            Err(AccountsError::ConstraintHasOne)
        } else if self.pool.admin@ != self.admin@ {
            Err(AccountsError::ConstraintHasOne)
        } else {
            Ok(())
        }
    }

    /// Checks the account relations.
    pub fn validate(&self) -> (r: Result<(), AccountsError>)
        ensures
            r == self.constraints(),
    {
        if !self.admin.same_as(&self.pool.admin) {
            return Err(AccountsError::Custom(CustomErrors::NotTheOwner));
        }
        if !self.pool.reserve.same_as(&self.reserve_account) {
            return Err(AccountsError::ConstraintHasOne);
        }
        if !self.pool.admin.same_as(&self.admin) {
            return Err(AccountsError::ConstraintHasOne);
        }
        Ok(())
    }
}

/// The handler's checks before the transfer: the admin is the pool's, the
/// reward is positive, and the admin holds it.
pub open spec fn accrue_check(ctx: MockAccrueRewards, reward: u64) -> Result<u64, CustomErrors> {
    if ctx.pool.admin@ != ctx.admin@ {
        Err(CustomErrors::NotTheOwner)
    } else if reward == 0 {
        Err(CustomErrors::InsufficientBalance)
    } else if ctx.admin_lamports < reward {
        Err(CustomErrors::InsufficientBalance)
    } else {
        Ok(reward)
    }
}

/// The handler's checks before the transfer: `Ok` with the lamports to move
/// from the admin to the reserve, or the error that the accrual fails with.
pub fn mock_accrue_rewards_transfer(ctx: &MockAccrueRewards, reward_amount: u64) -> (r: Result<u64, CustomErrors>)
    ensures
        r == accrue_check(*ctx, reward_amount),
{
    if !ctx.pool.admin.same_as(&ctx.admin) {
        return Err(CustomErrors::NotTheOwner);
    }
    if reward_amount == 0 {
        return Err(CustomErrors::InsufficientBalance);
    }
    if !(ctx.admin_lamports >= reward_amount) {
        return Err(CustomErrors::InsufficientBalance);
    }
    Ok(reward_amount)
}

/// Counts `reward_amount` lamports, already moved into the reserve, as stake:
/// the pool's staked total grows by it and nothing else changes. On an error
/// nothing changes.
pub fn mock_accrue_rewards(ctx: &mut MockAccrueRewards, reward_amount: u64) -> (r: Result<(), CustomErrors>)
    requires
        accrue_check(*old(ctx), reward_amount) is Ok ==> old(ctx).pool.total_staked + reward_amount
            <= u128::MAX,
    ensures
        r == (match accrue_check(*old(ctx), reward_amount) {
            Ok(_) => Ok::<(), CustomErrors>(()),
            Err(e) => Err(e),
        }),
        r is Ok ==> *final(ctx) == (MockAccrueRewards {
            pool: Pool {
                total_staked: (old(ctx).pool.total_staked + reward_amount) as u128,
                ..old(ctx).pool
            },
            ..*old(ctx)
        }),
        r is Err ==> *final(ctx) == *old(ctx),
        // The pool's invariant is kept.
        old(ctx).pool.wf() ==> final(ctx).pool.wf(),
        // The lamports that back one LST never drop.
        final(ctx).pool.total_staked * old(ctx).pool.total_lst_minted
            >= old(ctx).pool.total_staked * final(ctx).pool.total_lst_minted,
{
    match mock_accrue_rewards_transfer(ctx, reward_amount) {
        Err(e) => {
            return Err(e);
        },
        Ok(_) => {},
    }
    let ts = ctx.pool.total_staked;
    let tl = ctx.pool.total_lst_minted;
    proof {
        assert((ts + reward_amount) * tl >= ts * tl) by (nonlinear_arith);
    }
    ctx.pool.total_staked = ts + reward_amount as u128;
    Ok(())
}

} // verus!
