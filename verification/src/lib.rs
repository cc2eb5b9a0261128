//! Accounting rules of a native-SOL liquid staking pool: users deposit stake
//! and receive liquid staking tokens (LST), request unstakes that burn LST for
//! a proportional amount of lamports, and the admin deactivates, withdraws and
//! pays out. Every instruction is a verified function over plain account data.
use vstd::prelude::*;

pub mod key;
pub mod errors;
pub mod states;
pub mod math;
pub mod program_ids;
pub mod instructions;
pub mod laws;

verus! {
} // verus!
