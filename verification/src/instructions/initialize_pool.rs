//! The admin creates a pool for an LST mint, with its reserve.
use vstd::prelude::*;
use crate::errors::AccountsError;
use crate::key::Key;
use crate::states::{Pool, MAX_DEACTIVATING_STAKES};

verus! {

/// The accounts of a pool's creation, as the handler reads them. `pool` is
/// the new, zeroed pool account.
pub struct InitializePool {
    pub admin: Key,
    pub pool: Pool,
    pub pool_key: Key,
    /// The bump of the pool's program-derived address.
    pub pool_bump: u8,
    pub reserve_account: Key,
    /// The bump of the reserve's program-derived address.
    pub reserve_bump: u8,
    pub lst_mint: Key,
    /// Decimals of the LST mint.
    pub lst_mint_decimals: u8,
    /// The LST mint's mint authority, if it has one.
    pub lst_mint_authority: Option<Key>,
}

impl InitializePool {
    /// The account relation: the LST mint can only be minted by the pool.
    pub open spec fn constraints(&self) -> Result<(), AccountsError> {
        match self.lst_mint_authority {
            Some(authority) => if authority@ == self.pool_key@ {
                Ok(())
            } else {
                Err(AccountsError::ConstraintMintMintAuthority)
            },
            None => Err(AccountsError::ConstraintMintMintAuthority),
        }
    }

    /// Checks the account relation.
    pub fn validate(&self) -> (r: Result<(), AccountsError>)
        ensures
            r == self.constraints(),
    {
        match &self.lst_mint_authority {
            Some(authority) => if authority.same_as(&self.pool_key) {
                Ok(())
            } else {
                Err(AccountsError::ConstraintMintMintAuthority)
            },
            None => Err(AccountsError::ConstraintMintMintAuthority),
        }
    }
}

/// Sets up the pool: its admin, reserve, mint and bumps, with empty totals
/// and counters. The list of deactivating stakes is left as it was.
pub fn initialize_pool(ctx: &mut InitializePool)
    ensures
        final(ctx).pool == (Pool {
            admin: old(ctx).admin,
            reserve: old(ctx).reserve_account,
            lst_mint: old(ctx).lst_mint,
            bump: old(ctx).pool_bump,
            reserve_bump: old(ctx).reserve_bump,
            total_staked: 0,
            total_lst_minted: 0,
            staked_count: 0,
            unstaked_count: 0,
            lst_decimals: old(ctx).lst_mint_decimals,
            deactivating_stakes: old(ctx).pool.deactivating_stakes,
        }),
        *final(ctx) == (InitializePool { pool: final(ctx).pool, ..*old(ctx) }),
        // A new pool meets the pool's invariant.
        old(ctx).pool.deactivating_stakes@.len() <= MAX_DEACTIVATING_STAKES ==> final(ctx).pool.wf(),
{
    ctx.pool.admin = ctx.admin;
    ctx.pool.reserve = ctx.reserve_account;
    ctx.pool.lst_decimals = ctx.lst_mint_decimals;
    ctx.pool.lst_mint = ctx.lst_mint;
    ctx.pool.total_staked = 0;
    ctx.pool.total_lst_minted = 0;
    ctx.pool.staked_count = 0;
    ctx.pool.unstaked_count = 0;
    ctx.pool.bump = ctx.pool_bump;
    ctx.pool.reserve_bump = ctx.reserve_bump;
}

} // verus!
