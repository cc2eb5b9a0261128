//! The admin pays an unstake ticket out of the reserve.
use vstd::prelude::*;
use crate::errors::{AccountsError, CustomErrors};
use crate::key::Key;
use crate::states::{Pool, UnstakeTicket};

verus! {

/// The accounts of a payout, as the handler reads them.
pub struct ProcessUnstake {
    pub admin: Key,
    pub requester: Key,
    /// Lamports that the requester's account holds.
    pub requester_lamports: u64,
    pub pool: Pool,
    pub pool_key: Key,
    pub reserve_account: Key,
    /// Lamports that the reserve holds.
    pub reserve_lamports: u64,
    pub unstake_ticket: UnstakeTicket,
    pub unstake_ticket_key: Key,
}

impl ProcessUnstake {
    /// The account relations, checked in the order they are declared: the
    /// admin is the pool's admin, the requester is the ticket's, the reserve
    /// is the pool's, the ticket belongs to the pool, has not been paid, and
    /// is not closed into itself.
    pub open spec fn constraints(&self) -> Result<(), AccountsError> {
        if self.admin@ != self.pool.admin@ {
            Err(AccountsError::Custom(CustomErrors::NotTheOwner))
        } else if self.requester@ != self.unstake_ticket.requester@ {
            Err(AccountsError::Custom(CustomErrors::KeyMismatch))
        } else if self.pool.reserve@ != self.reserve_account@ {
            Err(AccountsError::Custom(CustomErrors::KeyMismatch))
        } else if self.unstake_ticket.pool@ != self.pool_key@ {
            Err(AccountsError::Custom(CustomErrors::KeyMismatch))
        } else if self.unstake_ticket.requester@ != self.requester@ {
            Err(AccountsError::Custom(CustomErrors::KeyMismatch))
        } else if self.unstake_ticket.released {
            Err(AccountsError::Custom(CustomErrors::FundAlreadyReleased))
        } else if self.unstake_ticket_key@ == self.requester@ {
            Err(AccountsError::ConstraintClose)
        } else {
            Ok(())
        }
    }

    /// Checks the account relations.
    pub fn validate(&self) -> (r: Result<(), AccountsError>)
        ensures
            r == self.constraints(),
    {
        if !self.admin.same_as(&self.pool.admin) {
            return Err(AccountsError::Custom(CustomErrors::NotTheOwner));
        }
        if !self.requester.same_as(&self.unstake_ticket.requester) {
            return Err(AccountsError::Custom(CustomErrors::KeyMismatch));
        }
        if !self.pool.reserve.same_as(&self.reserve_account) {
            return Err(AccountsError::Custom(CustomErrors::KeyMismatch));
        }
        if !self.unstake_ticket.pool.same_as(&self.pool_key) {
            return Err(AccountsError::Custom(CustomErrors::KeyMismatch));
        }
        if !self.unstake_ticket.requester.same_as(&self.requester) {
            return Err(AccountsError::Custom(CustomErrors::KeyMismatch));
        }
        if self.unstake_ticket.released {
            return Err(AccountsError::Custom(CustomErrors::FundAlreadyReleased));
        }
        if self.unstake_ticket_key.same_as(&self.requester) {
            return Err(AccountsError::ConstraintClose);
        }
        Ok(())
    }
}

/// The handler's checks: the ticket's amount fits in lamports, the reserve
/// holds it, and the ticket has not been paid.
pub open spec fn payout_check(ctx: ProcessUnstake) -> Result<(), CustomErrors> {
    if ctx.unstake_ticket.requested_lamports > u64::MAX {
        Err(CustomErrors::MathOverflow)
    } else if (ctx.reserve_lamports as int) < ctx.unstake_ticket.requested_lamports {
        Err(CustomErrors::InsufficientBalance)
    } else if ctx.unstake_ticket.released {
        Err(CustomErrors::FundAlreadyReleased)
    } else {
        Ok(())
    }
}

/// The handler's checks on the ticket and the reserve.
pub fn payout_checks(ctx: &ProcessUnstake) -> (r: Result<(), CustomErrors>)
    ensures
        r == payout_check(*ctx),
{
    if ctx.unstake_ticket.requested_lamports > u64::MAX as u128 {
        return Err(CustomErrors::MathOverflow);
    }
    if !(ctx.reserve_lamports as u128 >= ctx.unstake_ticket.requested_lamports) {
        return Err(CustomErrors::InsufficientBalance);
    }
    if ctx.unstake_ticket.released {
        return Err(CustomErrors::FundAlreadyReleased);
    }
    Ok(())
}

/// The accounts after the ticket is paid.
pub open spec fn payout_applied(ctx: ProcessUnstake) -> ProcessUnstake {
    let amount = ctx.unstake_ticket.requested_lamports;
    ProcessUnstake {
        reserve_lamports: (ctx.reserve_lamports - amount) as u64,
        requester_lamports: (ctx.requester_lamports + amount) as u64,
        unstake_ticket: UnstakeTicket { released: true, ..ctx.unstake_ticket },
        ..ctx
    }
}

/// Pays the ticket's lamports from the reserve to the requester and marks the
/// ticket released. On an error nothing changes.
pub fn process_unstake(ctx: &mut ProcessUnstake) -> (r: Result<(), CustomErrors>)
    requires
        payout_check(*old(ctx)) is Ok ==> old(ctx).requester_lamports
            + old(ctx).unstake_ticket.requested_lamports <= u64::MAX,
    ensures
        r == payout_check(*old(ctx)),
        r is Ok ==> *final(ctx) == payout_applied(*old(ctx)),
        r is Err ==> *final(ctx) == *old(ctx),
        // Lamports move between the two accounts and none are made or lost.
        final(ctx).reserve_lamports + final(ctx).requester_lamports
            == old(ctx).reserve_lamports + old(ctx).requester_lamports,
{
    let requested: u64 = if ctx.unstake_ticket.requested_lamports <= u64::MAX as u128 {
        ctx.unstake_ticket.requested_lamports as u64
    } else {
        return Err(CustomErrors::MathOverflow);
    };
    if !(ctx.reserve_lamports >= requested) {
        return Err(CustomErrors::InsufficientBalance);
    }
    if ctx.unstake_ticket.released {
        return Err(CustomErrors::FundAlreadyReleased);
    }
    ctx.reserve_lamports = ctx.reserve_lamports - requested;
    ctx.requester_lamports = ctx.requester_lamports + requested;
    ctx.unstake_ticket.released = true;
    Ok(())
}

} // verus!
