//! The access-control gate: owner identity check, exact one-unit deposit
//! check, and feature-toggle check. Each mutating owner action passes all
//! three before any state is touched.

use vstd::prelude::*;

use crate::errors::Feature;
use crate::errors::TokenError;

verus! {

/// The deposit every state-mutating owner action must attach: exactly one
/// minimal currency unit, a deliberate friction device.
pub const ONE_UNIT: u128 = 1;

/// Passes exactly when the caller is the owner.
pub fn require_owner(owner_id: u64, caller: u64) -> (r: Result<(), TokenError>)
    ensures
        r == if caller == owner_id {
            Ok::<(), TokenError>(())
        } else {
            Err::<(), TokenError>(TokenError::NotOwner)
        },
{
    if caller == owner_id {
        Ok(())
    } else {
        Err(TokenError::NotOwner)
    }
}

/// Passes exactly when the attached deposit is one minimal currency unit.
pub fn require_exact_one_unit_deposit(attached: u128) -> (r: Result<(), TokenError>)
    ensures
        r == if attached == ONE_UNIT {
            Ok::<(), TokenError>(())
        } else {
            Err::<(), TokenError>(TokenError::DepositMismatch)
        },
{
    if attached == ONE_UNIT {
        Ok(())
    } else {
        Err(TokenError::DepositMismatch)
    }
}

/// Passes exactly when the toggle gating the feature is on.
pub fn require_feature_enabled(enabled: bool, feature: Feature) -> (r: Result<(), TokenError>)
    ensures
        r == if enabled {
            Ok::<(), TokenError>(())
        } else {
            Err::<(), TokenError>(TokenError::FeatureDisabled(feature))
        },
{
    if enabled {
        Ok(())
    } else {
        Err(TokenError::FeatureDisabled(feature))
    }
}

} // verus!
