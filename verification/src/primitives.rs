//! The plain values that every module shares: identifiers, amounts, origins and the
//! error that a command returns.

use vstd::prelude::*;

verus! {

/// Identifies an account on the ledger.
pub type AccountId = u64;

/// An amount of value.
pub type Balance = u128;

/// A block height, the only clock that the engine knows.
pub type BlockNumber = u64;

/// Identifies a project and the dispute about it.
pub type ProjectId = u32;

/// One unit of the currency, with twelve decimals.
pub const UNIT: Balance = 1_000_000_000_000;

/// Who sent a command.
#[derive(Clone, Copy, PartialEq, Eq, Debug, Structural)]
pub enum Origin {
    /// The system itself.
    Root,
    /// An authenticated account.
    Signed(AccountId),
    /// No sender at all.
    Unsigned,
}

/// Why a ledger operation could not be carried out.
#[derive(Clone, Copy, PartialEq, Eq, Debug, Structural)]
pub enum LedgerError {
    /// The account does not hold the amount in usable free balance.
    InsufficientBalance,
}

/// The account behind a signed origin, `BadOrigin` for any other origin.
pub open spec fn spec_ensure_signed(origin: Origin) -> Result<AccountId, crate::DispatchError> {
    match origin {
        Origin::Signed(who) => Ok(who),
        _ => Err(crate::DispatchError::BadOrigin),
    }
}

/// Accepts a signed origin and hands out its account.
pub fn ensure_signed(origin: Origin) -> (r: Result<AccountId, crate::DispatchError>)
    ensures
        r == spec_ensure_signed(origin),
{
    match origin {
        Origin::Signed(who) => Ok(who),
        _ => Err(crate::DispatchError::BadOrigin),
    }
}

/// The product of two amounts, held at the largest amount where it would pass it.
pub open spec fn spec_saturating_mul(a: Balance, b: Balance) -> Balance {
    if a * b > Balance::MAX {
        Balance::MAX
    } else {
        (a * b) as Balance
    }
}

/// Multiplies two amounts without overflow: the product saturates.
pub fn saturating_mul(a: Balance, b: Balance) -> (r: Balance)
    ensures
        r == spec_saturating_mul(a, b),
{
    match a.checked_mul(b) {
        Some(v) => v,
        None => Balance::MAX,
    }
}

/// The product of two 32-bit counts, held at `u32::MAX` where it would pass it.
pub open spec fn spec_saturating_mul_u32(a: u32, b: u32) -> u32 {
    if a * b > u32::MAX {
        u32::MAX
    } else {
        (a * b) as u32
    }
}

/// Multiplies two 32-bit counts without overflow: the product saturates.
pub fn saturating_mul_u32(a: u32, b: u32) -> (r: u32)
    ensures
        r == spec_saturating_mul_u32(a, b),
{
    match a.checked_mul(b) {
        Some(v) => v,
        None => u32::MAX,
    }
}

} // verus!
