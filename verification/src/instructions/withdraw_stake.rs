//! The admin withdraws a fully deactivated stake account into the reserve.
use vstd::prelude::*;
use crate::errors::{AccountsError, CustomErrors};
use crate::key::Key;
use crate::program_ids::{stake_program_bytes, stake_program_key};
use crate::states::{other_than, without_key, Pool, StakeEntry, StakeStatus};

verus! {

/// The accounts of a withdrawal, as the handler reads them.
pub struct WithdrawStakeAmount {
    pub admin: Key,
    pub pool: Pool,
    pub pool_key: Key,
    pub reserve_account: Key,
    /// Lamports that the reserve holds.
    pub reserve_lamports: u64,
    pub stake_account: Key,
    /// Lamports that the stake account holds.
    pub stake_account_lamports: u64,
    /// The epoch at which the stake account's delegation deactivates
    /// (`u64::MAX` while it is not deactivating), or `None` when the account
    /// holds no delegated stake.
    pub deactivation_epoch: Option<u64>,
    /// The current epoch.
    pub epoch: u64,
    pub stake_entry: StakeEntry,
    pub stake_program: Key,
}

impl WithdrawStakeAmount {
    /// The account relations, checked in the order they are declared: the
    /// admin is the pool's admin, the reserve is the pool's reserve, the
    /// stake entry belongs to the pool, and the stake program is the native one.
    pub open spec fn constraints(&self) -> Result<(), AccountsError> {
        if self.admin@ != self.pool.admin@ {
            Err(AccountsError::Custom(CustomErrors::NotTheOwner))
        } else if self.pool.admin@ != self.admin@ {
            Err(AccountsError::Custom(CustomErrors::NotTheOwner))
        } else if self.pool.reserve@ != self.reserve_account@ {
            Err(AccountsError::Custom(CustomErrors::KeyMismatch))
        } else if self.reserve_account@ != self.pool.reserve@ {
            Err(AccountsError::ConstraintAddress)
        } else if self.stake_entry.pool@ != self.pool_key@ {
            Err(AccountsError::ConstraintHasOne)
        } else if self.stake_program@ != stake_program_bytes() {
            Err(AccountsError::ConstraintAddress)
        } else {
            Ok(())
        }
    }

    /// Checks the account relations.
    pub fn validate(&self) -> (r: Result<(), AccountsError>)
        ensures
            r == self.constraints(),
    {
        if !self.admin.same_as(&self.pool.admin) {
            return Err(AccountsError::Custom(CustomErrors::NotTheOwner));
        }
        if !self.pool.admin.same_as(&self.admin) {
            return Err(AccountsError::Custom(CustomErrors::NotTheOwner));
        }
        if !self.pool.reserve.same_as(&self.reserve_account) {
            return Err(AccountsError::Custom(CustomErrors::KeyMismatch));
        }
        if !self.reserve_account.same_as(&self.pool.reserve) {
            return Err(AccountsError::ConstraintAddress);
        }
        if !self.stake_entry.pool.same_as(&self.pool_key) {
            return Err(AccountsError::ConstraintHasOne);
        }
        if !self.stake_program.same_as(&stake_program_key()) {
            return Err(AccountsError::ConstraintAddress);
        }
        Ok(())
    }
}

/// The handler's checks: `Ok` with the lamports to withdraw (all that the
/// stake account holds) when the stake account is the recorded one, holds
/// delegated stake whose deactivation epoch has passed, is recorded as
/// deactivating, and holds lamports.
pub open spec fn withdraw_check(ctx: WithdrawStakeAmount) -> Result<u64, CustomErrors> {
    if ctx.stake_account@ != ctx.stake_entry.stake_account@ {
        Err(CustomErrors::InvalidStakeAccount)
    } else if ctx.deactivation_epoch is None {
        Err(CustomErrors::InvalidStakeState)
    } else if !(ctx.deactivation_epoch->0 != u64::MAX && ctx.deactivation_epoch->0 <= ctx.epoch) {
        Err(CustomErrors::StakeNotYetDeactivated)
    } else if ctx.stake_entry.status != StakeStatus::Deactivating {
        Err(CustomErrors::StakeNotYetDeactivated)
    } else if ctx.stake_account_lamports == 0 {
        Err(CustomErrors::InsufficientBalance)
    } else {
        Ok(ctx.stake_account_lamports)
    }
}

/// The handler's checks: `Ok` with the lamports to withdraw, or the error.
pub fn withdraw_checks(ctx: &WithdrawStakeAmount) -> (r: Result<u64, CustomErrors>)
    ensures
        r == withdraw_check(*ctx),
{
    if !ctx.stake_account.same_as(&ctx.stake_entry.stake_account) {
        return Err(CustomErrors::InvalidStakeAccount);
    }
    let deactivation_epoch = match ctx.deactivation_epoch {
        Some(e) => e,
        None => {
            return Err(CustomErrors::InvalidStakeState);
        },
    };
    if !(deactivation_epoch != u64::MAX && deactivation_epoch <= ctx.epoch) {
        return Err(CustomErrors::StakeNotYetDeactivated);
    }
    if ctx.stake_entry.status != StakeStatus::Deactivating {
        return Err(CustomErrors::StakeNotYetDeactivated);
    }
    if ctx.stake_account_lamports == 0 {
        return Err(CustomErrors::InsufficientBalance);
    }
    Ok(ctx.stake_account_lamports)
}

/// Withdraws a fully deactivated stake account: returns the lamports that
/// the stake program's withdrawal moves into the reserve (all of the stake
/// account's), and records the result: the balances after the move, the
/// entry deactivated, and the stake account removed from the pool's list of
/// deactivating stakes. On an error nothing changes.
pub fn withdraw_stake_account(ctx: &mut WithdrawStakeAmount) -> (r: Result<u64, CustomErrors>)
    requires
        withdraw_check(*old(ctx)) is Ok ==> old(ctx).reserve_lamports + old(ctx).stake_account_lamports
            <= u64::MAX,
    ensures
        r == withdraw_check(*old(ctx)),
        r is Err ==> *final(ctx) == *old(ctx),
        r is Ok ==> {
            &&& final(ctx).stake_account_lamports == 0
            &&& final(ctx).reserve_lamports == old(ctx).reserve_lamports + old(ctx).stake_account_lamports
            &&& final(ctx).stake_entry == (StakeEntry { status: StakeStatus::Deactive, ..old(ctx).stake_entry })
            &&& final(ctx).pool.deactivating_stakes@
                == old(ctx).pool.deactivating_stakes@.filter(other_than(old(ctx).stake_account))
            &&& final(ctx).pool == (Pool { deactivating_stakes: final(ctx).pool.deactivating_stakes, ..old(ctx).pool })
            &&& *final(ctx) == (WithdrawStakeAmount {
                pool: final(ctx).pool,
                stake_entry: final(ctx).stake_entry,
                stake_account_lamports: 0,
                reserve_lamports: final(ctx).reserve_lamports,
                ..*old(ctx)
            })
        },
        // The list stays within its bound.
        old(ctx).pool.wf() ==> final(ctx).pool.wf(),
{
    let lamports = match withdraw_checks(ctx) {
        Err(e) => {
            return Err(e);
        },
        Ok(l) => l,
    };
    ctx.stake_account_lamports = 0;
    ctx.reserve_lamports = ctx.reserve_lamports + lamports;
    ctx.stake_entry.status = StakeStatus::Deactive;
    proof {
        ctx.pool.deactivating_stakes@.lemma_filter_len(other_than(ctx.stake_account));
    }
    ctx.pool.deactivating_stakes = without_key(&ctx.pool.deactivating_stakes, &ctx.stake_account);
    Ok(lamports)
}

} // verus!
