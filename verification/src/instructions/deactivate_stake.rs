//! The admin marks a pool's stake account as deactivating and records it
//! in the pool's list of deactivating stakes.
use vstd::prelude::*;
use crate::errors::{AccountsError, CustomErrors};
use crate::key::Key;
use crate::states::{has_key, holds_key, Pool, StakeEntry, StakeStatus, MAX_DEACTIVATING_STAKES};

verus! {

/// The accounts of a deactivation, as the handler reads them.
pub struct DeactivateStakeAccount {
    pub admin: Key,
    pub pool: Pool,
    pub pool_key: Key,
    pub stake_account: Key,
    pub stake_entry: StakeEntry,
}

impl DeactivateStakeAccount {
    /// The account relations, checked in the order they are declared: the
    /// admin is the pool's admin, and the stake entry belongs to the pool and
    /// records the stake account given.
    pub open spec fn constraints(&self) -> Result<(), AccountsError> {
        if self.admin@ != self.pool.admin@ {
            Err(AccountsError::Custom(CustomErrors::NotTheOwner))
        } else if self.pool.admin@ != self.admin@ {
            Err(AccountsError::Custom(CustomErrors::NotTheOwner))
        } else if self.stake_entry.pool@ != self.pool_key@ {
            Err(AccountsError::ConstraintHasOne)
        } else if self.stake_account@ != self.stake_entry.stake_account@ {
            Err(AccountsError::Custom(CustomErrors::InvalidStakeAccount))
        } else {
            Ok(())
        }
    }

    /// Checks the account relations.
    pub fn validate(&self) -> (r: Result<(), AccountsError>)
        ensures
            r == self.constraints(),
    {
        if !self.admin.same_as(&self.pool.admin) {
            return Err(AccountsError::Custom(CustomErrors::NotTheOwner));
        }
        if !self.pool.admin.same_as(&self.admin) {
            return Err(AccountsError::Custom(CustomErrors::NotTheOwner));
        }
        if !self.stake_entry.pool.same_as(&self.pool_key) {
            return Err(AccountsError::ConstraintHasOne);
        }
        if !self.stake_account.same_as(&self.stake_entry.stake_account) {
            return Err(AccountsError::Custom(CustomErrors::InvalidStakeAccount));
        }
        Ok(())
    }
}

/// The handler's checks: the stake entry belongs to the pool, and the pool's
/// list of deactivating stakes has room for the stake account unless it
/// already lists it.
pub open spec fn deactivate_check(ctx: DeactivateStakeAccount) -> Result<(), CustomErrors> {
    if ctx.stake_entry.pool@ != ctx.pool_key@ {
        Err(CustomErrors::KeyMismatch)
    } else if !holds_key(ctx.pool.deactivating_stakes@, ctx.stake_account)
        && ctx.pool.deactivating_stakes@.len() >= MAX_DEACTIVATING_STAKES {
        Err(CustomErrors::DeactivatingStakesFull)
    } else {
        Ok(())
    }
}

/// The pool's list of deactivating stakes once `stake_account` is recorded
/// in it: appended at the end, unless already listed.
pub open spec fn deactivating_after(list: Seq<Key>, stake_account: Key) -> Seq<Key> {
    if holds_key(list, stake_account) {
        list
    } else {
        list.push(stake_account)
    }
}

/// Marks the stake entry as deactivating, whatever its status was, and
/// records the stake account in the pool's list of deactivating stakes. On
/// an error nothing changes.
pub fn deactivate_stake_account(ctx: &mut DeactivateStakeAccount) -> (r: Result<(), CustomErrors>)
    ensures
        r == deactivate_check(*old(ctx)),
        r is Err ==> *final(ctx) == *old(ctx),
        r is Ok ==> {
            &&& final(ctx).pool.deactivating_stakes@
                == deactivating_after(old(ctx).pool.deactivating_stakes@, old(ctx).stake_account)
            &&& *final(ctx) == (DeactivateStakeAccount {
                pool: Pool { deactivating_stakes: final(ctx).pool.deactivating_stakes, ..old(ctx).pool },
                stake_entry: StakeEntry { status: StakeStatus::Deactivating, ..old(ctx).stake_entry },
                ..*old(ctx)
            })
        },
        // The list stays within its bound.
        old(ctx).pool.wf() ==> final(ctx).pool.wf(),
{
    if !ctx.stake_entry.pool.same_as(&ctx.pool_key) {
        return Err(CustomErrors::KeyMismatch);
    }
    let listed = has_key(&ctx.pool.deactivating_stakes, &ctx.stake_account);
    if !listed && ctx.pool.deactivating_stakes.len() >= MAX_DEACTIVATING_STAKES {
        return Err(CustomErrors::DeactivatingStakesFull);
    }
    if !listed {
        ctx.pool.deactivating_stakes.push(ctx.stake_account);
    }
    ctx.stake_entry.status = StakeStatus::Deactivating;
    Ok(())
}

} // verus!
