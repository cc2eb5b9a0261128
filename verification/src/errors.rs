//! Errors that the instructions report.
use vstd::prelude::*;

verus! {

/// The program's own errors.
#[derive(Clone, Copy, Debug, PartialEq, Eq, Structural)]
pub enum CustomErrors {
    MathOverflow,
    NotTheOwner,
    InsufficientBalance,
    InsufficientTokensRecord,
    ReserveOutOfBalance,
    InsufficientUserTokenBalance,
    InsufficientStakeAmount,
    NoActiveStake,
    EmptyPool,
    FundAlreadyReleased,
    KeyMismatch,
    InvalidStakeAccount,
    StakeNotYetDeactivated,
    InvalidStakeState,
    InvalidUnstakeAmount,
    InvalidStakeAmount,
    DeactivatingStakesFull,
}

/// Why an instruction's accounts are refused before its handler runs.
#[derive(Clone, Copy, Debug, PartialEq, Eq, Structural)]
pub enum AccountsError {
    /// A constraint that names one of the program's own errors failed.
    Custom(CustomErrors),
    /// A `has_one` relation without an error of its own failed.
    ConstraintHasOne,
    /// A plain constraint without an error of its own failed.
    ConstraintRaw,
    /// An address constraint without an error of its own failed.
    ConstraintAddress,
    /// An account would be closed into itself.
    ConstraintClose,
    /// A mint's authority is not the account it must be.
    ConstraintMintMintAuthority,
}

} // verus!
