//! The registration/storage accountant: every mutating call measures its
//! storage footprint, and the caller pays for growth or is refunded for
//! shrinkage, at a fixed price per storage unit. Failure to attach enough
//! deposit aborts the whole operation before any state is written.

use vstd::prelude::*;

use crate::errors::TokenError;

verus! {

/// Price of one unit of persistent storage, in minimal currency units.
pub const STORAGE_PRICE_PER_UNIT: u128 = 10_000_000_000_000_000_000;

/// Storage units one ledger entry occupies.
pub const ACCOUNT_STORAGE_UNITS: u64 = 125;

/// Deposit that registering one account requires:
/// `ACCOUNT_STORAGE_UNITS` times `STORAGE_PRICE_PER_UNIT`.
pub const ACCOUNT_STORAGE_COST: u128 = 1_250_000_000_000_000_000_000;

/// What `settle_storage` owes the caller: the whole attached deposit minus
/// the cost of storage growth, or plus the price of storage freed; an error
/// when the attached deposit does not cover the growth.
pub open spec fn spec_settle_storage(
    before: u64,
    after: u64,
    attached: u128,
    price_per_unit: u128,
) -> Result<u128, TokenError> {
    if after >= before {
        let cost = (after - before) * price_per_unit;
        if cost > u128::MAX {
            Err(TokenError::Overflow)
        } else if attached < cost {
            Err(TokenError::InsufficientStorageDeposit)
        } else {
            Ok((attached - cost) as u128)
        }
    } else {
        let credit = (before - after) * price_per_unit;
        if attached + credit > u128::MAX {
            Err(TokenError::Overflow)
        } else {
            Ok((attached + credit) as u128)
        }
    }
}

/// Settles the storage delta of one mutating call, from the usage measured
/// before and after it: returns the amount to refund to the caller, or
/// `InsufficientStorageDeposit` when the attached deposit does not cover
/// the growth (the caller must then abort the operation wholesale).
pub fn settle_storage(before: u64, after: u64, attached: u128, price_per_unit: u128) -> (r:
    Result<u128, TokenError>)
    ensures
        r == spec_settle_storage(before, after, attached, price_per_unit),
{
    if after >= before {
        let used = (after - before) as u128;
        match used.checked_mul(price_per_unit) {
            None => Err(TokenError::Overflow),
            Some(cost) => {
                if attached < cost {
                    Err(TokenError::InsufficientStorageDeposit)
                } else {
                    Ok(attached - cost)
                }
            },
        }
    } else {
        let freed = (before - after) as u128;
        match freed.checked_mul(price_per_unit) {
            None => Err(TokenError::Overflow),
            Some(credit) => match attached.checked_add(credit) {
                None => Err(TokenError::Overflow),
                Some(total) => Ok(total),
            },
        }
    }
}

} // verus!
