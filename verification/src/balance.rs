//! The balance type and its overflow-aware arithmetic.
//!
//! The arithmetic is the one that `sp_runtime::traits` provides for unsigned
//! integers. Each operation is reached through a small function whose contract
//! is taken on trust from the implementation of the trait for `u128`, which
//! forwards to the method of the same name that `u128` has of its own.

use vstd::prelude::*;

verus! {

/// The numeric type of balances and of the issuance.
pub type Balance = u128;

/// The sum `a + b` where it is representable, and the largest balance otherwise.
pub open spec fn saturating_sum(a: Balance, b: Balance) -> Balance {
    if a + b <= Balance::MAX {
        (a + b) as Balance
    } else {
        Balance::MAX
    }
}

/// The difference `a - b` where it is not negative, and zero otherwise.
pub open spec fn saturating_difference(a: Balance, b: Balance) -> Balance {
    if a >= b {
        (a - b) as Balance
    } else {
        0
    }
}

/// `sp_runtime::traits::Zero::zero` for `u128`.
///
/// Trusted: the additive identity of `u128` is the number 0.
#[verifier::external_body]
pub(crate) fn zero() -> (r: Balance)
    ensures
        r == 0,
{
    sp_runtime::traits::Zero::zero()
}

/// `sp_runtime::traits::CheckedAdd::checked_add` for `u128`.
///
/// Trusted: the result is the exact sum when it fits in a `u128`, and `None`
/// when it does not.
#[verifier::external_body]
pub(crate) fn checked_add(a: Balance, b: Balance) -> (r: Option<Balance>)
    ensures
        a + b <= Balance::MAX ==> r == Some((a + b) as Balance),
        a + b > Balance::MAX ==> r.is_none(),
{
    sp_runtime::traits::CheckedAdd::checked_add(&a, &b)
}

/// `sp_runtime::traits::CheckedSub::checked_sub` for `u128`.
///
/// Trusted: the result is the exact difference when it is not negative, and
/// `None` when it is.
#[verifier::external_body]
pub(crate) fn checked_sub(a: Balance, b: Balance) -> (r: Option<Balance>)
    ensures
        a >= b ==> r == Some((a - b) as Balance),
        a < b ==> r.is_none(),
{
    sp_runtime::traits::CheckedSub::checked_sub(&a, &b)
}

/// `sp_runtime::traits::Saturating::saturating_add` for `u128`.
///
/// Trusted: the result is the sum, held at `u128::MAX` where the sum exceeds it.
#[verifier::external_body]
pub(crate) fn saturating_add(a: Balance, b: Balance) -> (r: Balance)
    ensures
        r == saturating_sum(a, b),
{
    sp_runtime::traits::Saturating::saturating_add(a, b)
}

/// `sp_runtime::traits::Saturating::saturating_sub` for `u128`.
///
/// Trusted: the result is the difference, held at zero where the difference
/// would be negative.
#[verifier::external_body]
pub(crate) fn saturating_sub(a: Balance, b: Balance) -> (r: Balance)
    ensures
        r == saturating_difference(a, b),
{
    sp_runtime::traits::Saturating::saturating_sub(a, b)
}

} // verus!
