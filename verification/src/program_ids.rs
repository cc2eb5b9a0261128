//! Addresses of the native programs that the instructions compare against.
use vstd::prelude::*;
use crate::key::Key;

verus! {

/// The 32 bytes of the native stake program's address
/// (`Stake11111111111111111111111111111111111111` in base58).
pub open spec fn stake_program_bytes() -> Seq<u8> {
    seq![
        6u8, 161u8, 216u8, 23u8, 145u8, 55u8, 84u8, 42u8, 152u8, 52u8, 55u8, 189u8, 254u8, 42u8,
        122u8, 178u8, 85u8, 127u8, 83u8, 92u8, 138u8, 120u8, 114u8, 43u8, 104u8, 164u8, 157u8,
        192u8, 0u8, 0u8, 0u8, 0u8,
    ]
}

/// The native stake program's address, `solana_program::stake::program::ID`.
/// Trusted: the contract claims that its bytes are those of the base58 text
/// that `solana_program` declares the id with.
#[verifier::external_body]
pub(crate) fn stake_program_key() -> (k: Key)
    ensures
        k@ == stake_program_bytes(),
{
    Key::new(solana_program::stake::program::ID.to_bytes())
}

} // verus!
