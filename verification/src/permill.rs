//! Parts per million, as `sp_runtime` holds them.
//!
//! Nothing in this file is proved: each contract restates what the source of
//! `sp_arithmetic` shows of the function it names.

use vstd::prelude::*;
use sp_runtime::Permill;
use crate::primitives::Balance;

verus! {

/// One million: the number of parts that make a whole.
pub const MILLION: u32 = 1_000_000;

/// `sp_runtime::Permill`, a number of parts per million. Nothing is known of a value
/// of it but the parts that it holds.
#[verifier::external_type_specification]
#[verifier::external_body]
pub struct ExPermill(Permill);

/// The number of parts per million that a ratio holds: what `Permill::deconstruct`
/// returns of it.
pub uninterp spec fn permill_parts(ratio: Permill) -> u32;

/// `Permill::from_parts` builds the ratio of that many parts, and of a million parts
/// where more are given.
pub assume_specification[ Permill::from_parts ](parts: u32) -> (ratio: Permill)
    ensures
        permill_parts(ratio) == (if parts > MILLION { MILLION } else { parts }),
;

/// `Permill::deconstruct` hands out the parts that the ratio holds.
pub assume_specification[ Permill::deconstruct ](ratio: Permill) -> (parts: u32)
    ensures
        parts == permill_parts(ratio),
;

/// `Permill::zero` is the ratio of no parts.
pub assume_specification[ Permill::zero ]() -> (ratio: Permill)
    ensures
        permill_parts(ratio) == 0,
;

/// The share of `amount` that `parts` per million are, rounded to the nearest whole
/// and down from the middle: the whole millions of `amount` times `parts`, and of
/// what is left over the rounded share.
pub open spec fn spec_permill_of(parts: u32, amount: Balance) -> int {
    let rest = (amount % (MILLION as Balance)) * parts;
    (amount / (MILLION as Balance)) * parts + rest / (MILLION as int) + (if rest % (MILLION as int)
        > MILLION / 2 {
        1int
    } else {
        0int
    })
}

/// `Permill * Balance`, the `Mul` of `sp_arithmetic`'s per-things: the share of the
/// amount, rounded to the nearest whole and down from the middle. The ratio holds at
/// most a million parts where it was built by `from_parts`, `zero` or `from_percent`,
/// and the product then fits.
#[verifier::external_body]
pub(crate) fn permill_of(ratio: Permill, amount: Balance) -> (share: Balance)
    requires
        permill_parts(ratio) <= MILLION,
    ensures
        share == spec_permill_of(permill_parts(ratio), amount),
{
    ratio * amount
}

} // verus!
