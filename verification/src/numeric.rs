//! Checked arithmetic and identities from the `num` crate, with the contracts
//! the stores rely on. Nothing in this file is proved: each function makes one
//! call into `num`, and its contract restates what `num` documents for the
//! primitive integer in question.

use vstd::prelude::*;

verus! {

/// `num::traits::Zero::zero` at `u128`: the additive identity, `0`.
#[verifier::external_body]
pub(crate) fn zero_u128() -> (z: u128)
    ensures
        z == 0,
{
    num::traits::Zero::zero()
}

/// `num::traits::CheckedSub::checked_sub` at `u128`: the difference
/// `a - b`, or `None` when it would fall below zero.
#[verifier::external_body]
pub(crate) fn checked_sub_u128(a: u128, b: u128) -> (d: Option<u128>)
    ensures
        d == (if b <= a { Some((a - b) as u128) } else { None }),
{
    num::traits::CheckedSub::checked_sub(&a, &b)
}

/// `num::traits::CheckedAdd::checked_add` at `u128`: the sum
/// `a + b`, or `None` when it would exceed `u128::MAX`.
#[verifier::external_body]
pub(crate) fn checked_add_u128(a: u128, b: u128) -> (s: Option<u128>)
    ensures
        s == (if a + b <= u128::MAX { Some((a + b) as u128) } else { None }),
{
    num::traits::CheckedAdd::checked_add(&a, &b)
}

/// `num::traits::Zero::zero` at `u32`: the additive identity, `0`.
#[verifier::external_body]
pub(crate) fn zero_u32() -> (z: u32)
    ensures
        z == 0,
{
    num::traits::Zero::zero()
}

/// `num::traits::One::one` at `u32`: the multiplicative identity,
/// `1`.
#[verifier::external_body]
pub(crate) fn one_u32() -> (o: u32)
    ensures
        o == 1,
{
    num::traits::One::one()
}

} // verus!
