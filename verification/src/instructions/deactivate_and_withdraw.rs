//! A combined deactivation and withdrawal that the program declares and
//! leaves without effect.
use vstd::prelude::*;

verus! {

/// The accounts of a combined deactivation and withdrawal: none.
pub struct DeactivateAndWithdraw {}

/// Does nothing and succeeds.
pub fn deactivate_and_withdraw(ctx: &DeactivateAndWithdraw) -> (r: Result<(), crate::errors::CustomErrors>)
    ensures
        r is Ok,
{
    Ok(())
}

} // verus!
