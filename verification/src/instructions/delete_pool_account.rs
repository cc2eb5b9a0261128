//! The admin closes a pool and takes back the reserve's lamports.
use vstd::prelude::*;
use crate::errors::{AccountsError, CustomErrors};
use crate::key::Key;
use crate::states::Pool;

verus! {

/// The accounts of a pool's deletion, as the handler reads them.
pub struct DeletePoolAccount {
    pub admin: Key,
    /// Lamports that the admin's account holds.
    pub admin_lamports: u64,
    pub pool: Pool,
    pub pool_key: Key,
    pub reserve_account: Key,
    /// Lamports that the reserve holds.
    pub reserve_lamports: u64,
    pub lst_mint: Key,
}

impl DeletePoolAccount {
    /// The account relations, checked in the order they are declared: the
    /// admin is the pool's admin, the pool is not closed into itself, and the
    /// mint is the pool's.
    pub open spec fn constraints(&self) -> Result<(), AccountsError> {
        if self.admin@ != self.pool.admin@ {
            Err(AccountsError::Custom(CustomErrors::NotTheOwner))
        } else if self.pool.admin@ != self.admin@ {
            Err(AccountsError::Custom(CustomErrors::NotTheOwner))
        } else if self.pool_key@ == self.admin@ {
            Err(AccountsError::ConstraintClose)
        } else if self.lst_mint@ != self.pool.lst_mint@ {
            Err(AccountsError::ConstraintAddress)
        } else {
            Ok(())
        }
    }

    /// Checks the account relations.
    pub fn validate(&self) -> (r: Result<(), AccountsError>)
        ensures
            r == self.constraints(),
    {
        if !self.admin.same_as(&self.pool.admin) {
            return Err(AccountsError::Custom(CustomErrors::NotTheOwner));
        }
        if !self.pool.admin.same_as(&self.admin) {
            return Err(AccountsError::Custom(CustomErrors::NotTheOwner));
        }
        if self.pool_key.same_as(&self.admin) {
            return Err(AccountsError::ConstraintClose);
        }
        if !self.lst_mint.same_as(&self.pool.lst_mint) {
            return Err(AccountsError::ConstraintAddress);
        }
        Ok(())
    }
}

/// Moves every lamport of the reserve to the admin.
pub fn delete_pool_account(ctx: &mut DeletePoolAccount)
    requires
        old(ctx).admin_lamports + old(ctx).reserve_lamports <= u64::MAX,
    ensures
        *final(ctx) == (DeletePoolAccount {
            admin_lamports: (old(ctx).admin_lamports + old(ctx).reserve_lamports) as u64,
            reserve_lamports: 0,
            ..*old(ctx)
        }),
{
    let lamports = ctx.reserve_lamports;
    if lamports > 0 {
        ctx.reserve_lamports = ctx.reserve_lamports - lamports;
        ctx.admin_lamports = ctx.admin_lamports + lamports;
    }
}

} // verus!
