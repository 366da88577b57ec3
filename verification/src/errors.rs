//! Error taxonomy for the token ledger.
//!
//! Every fallible operation of the library reports one of these errors and
//! leaves the contract state exactly as it was before the call.

use vstd::prelude::*;

verus! {

/// The three feature toggles that gate whole operation categories.
#[derive(Clone, Copy, Debug, PartialEq, Eq, Structural)]
pub enum Feature {
    Mint,
    Freeze,
    MetadataUpdate,
}

/// Why an operation was rejected. The state is never mutated when one of
/// these is returned.
#[derive(Clone, Copy, Debug, PartialEq, Eq, Structural)]
pub enum TokenError {
    /// The caller is not the contract owner.
    NotOwner,
    /// The named feature toggle is switched off.
    FeatureDisabled(Feature),
    /// The attached deposit is not exactly one minimal currency unit.
    DepositMismatch,
    /// A transfer of zero tokens was requested.
    ZeroAmount,
    /// Sender and receiver are the same account.
    SelfTransfer,
    /// The metadata record failed its structural validity checks.
    InvalidMetadata,
    /// The account already holds a ledger entry.
    AlreadyRegistered,
    /// The account holds no ledger entry.
    NotRegistered,
    /// The sending party of a transfer is frozen.
    SenderFrozen,
    /// The receiving party of a transfer is frozen.
    ReceiverFrozen,
    /// An account with a positive balance cannot be unregistered.
    BalanceNonZero,
    /// The operation would push a balance or the total supply past the
    /// largest representable value.
    Overflow,
    /// The debited account holds fewer tokens than requested.
    InsufficientBalance,
    /// The attached deposit does not cover the storage the call consumes.
    InsufficientStorageDeposit,
}

/// The coarse classes of the error taxonomy.
#[derive(Clone, Copy, Debug, PartialEq, Eq, Structural)]
pub enum ErrorClass {
    Authorization,
    Validation,
    State,
    Arithmetic,
    Storage,
}

impl TokenError {
    /// The class an error belongs to. Authorization covers both the owner
    /// check and the feature gates.
    pub open spec fn spec_class(self) -> ErrorClass {
        match self {
            TokenError::NotOwner => ErrorClass::Authorization,
            TokenError::FeatureDisabled(_) => ErrorClass::Authorization,
            TokenError::DepositMismatch => ErrorClass::Validation,
            TokenError::ZeroAmount => ErrorClass::Validation,
            TokenError::SelfTransfer => ErrorClass::Validation,
            TokenError::InvalidMetadata => ErrorClass::Validation,
            TokenError::AlreadyRegistered => ErrorClass::State,
            TokenError::NotRegistered => ErrorClass::State,
            TokenError::SenderFrozen => ErrorClass::State,
            TokenError::ReceiverFrozen => ErrorClass::State,
            TokenError::BalanceNonZero => ErrorClass::State,
            TokenError::Overflow => ErrorClass::Arithmetic,
            TokenError::InsufficientBalance => ErrorClass::Arithmetic,
            TokenError::InsufficientStorageDeposit => ErrorClass::Storage,
        }
    }

    /// Executable classification, equal to `spec_class`.
    pub fn class(&self) -> (c: ErrorClass)
        ensures
            c == self.spec_class(),
    {
        match self {
            TokenError::NotOwner => ErrorClass::Authorization,
            TokenError::FeatureDisabled(_) => ErrorClass::Authorization,
            TokenError::DepositMismatch => ErrorClass::Validation,
            TokenError::ZeroAmount => ErrorClass::Validation,
            TokenError::SelfTransfer => ErrorClass::Validation,
            TokenError::InvalidMetadata => ErrorClass::Validation,
            TokenError::AlreadyRegistered => ErrorClass::State,
            TokenError::NotRegistered => ErrorClass::State,
            TokenError::SenderFrozen => ErrorClass::State,
            TokenError::ReceiverFrozen => ErrorClass::State,
            TokenError::BalanceNonZero => ErrorClass::State,
            TokenError::Overflow => ErrorClass::Arithmetic,
            TokenError::InsufficientBalance => ErrorClass::Arithmetic,
            TokenError::InsufficientStorageDeposit => ErrorClass::Storage,
        }
    }
}

} // verus!
