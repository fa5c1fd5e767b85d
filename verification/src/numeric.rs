//! The arithmetic that the pallets ask of their number types, with the
//! unsigned integers that provide it.

use vstd::prelude::*;

verus! {

/// A number that counts events: it starts at zero and grows by addition.
pub trait Counter: Copy + Sized {
    /// The natural number that `self` stands for.
    spec fn value(&self) -> nat;

    /// The largest number that the type can hold.
    spec fn max_value() -> nat;

    /// The counter that stands for zero.
    fn zero() -> (r: Self)
        ensures
            r.value() == 0,
    ;

    /// The counter that stands for one.
    fn one() -> (r: Self)
        ensures
            r.value() == 1,
    ;

    /// The sum of two counters, where the type can hold it.
    fn plus(self, rhs: Self) -> (r: Self)
        requires
            self.value() + rhs.value() <= Self::max_value(),
        ensures
            r.value() == self.value() + rhs.value(),
    ;
}

/// A quantity that is moved between owners under checked arithmetic.
pub trait Amount: Copy + Sized {
    /// The natural number that `self` stands for.
    spec fn value(&self) -> nat;

    /// The largest number that the type can hold.
    spec fn max_value() -> nat;

    /// The amount that stands for zero.
    fn zero() -> (r: Self)
        ensures
            r.value() == 0,
    ;

    /// The sum of `self` and `v`, or `None` where the type cannot hold it.
    fn checked_add(&self, v: &Self) -> (r: Option<Self>)
        ensures
            match r {
                Some(sum) => sum.value() == self.value() + v.value() && sum.value()
                    <= Self::max_value(),
                None => self.value() + v.value() > Self::max_value(),
            },
    ;

    /// `self` less `v`, or `None` where `v` is the larger.
    fn checked_sub(&self, v: &Self) -> (r: Option<Self>)
        ensures
            match r {
                Some(rest) => rest.value() + v.value() == self.value(),
                None => self.value() < v.value(),
            },
    ;
}

/// Calls `num::traits::Zero::zero` for `u32`. Taken on trust: it returns
/// `0`, which is how the crate defines it for the integer types.
#[verifier::external_body]
fn zero_u32() -> (r: u32)
    ensures
        r == 0,
{
    num::traits::Zero::zero()
}

/// Calls `num::traits::One::one` for `u32`. Taken on trust: it returns
/// `1`, which is how the crate defines it for the integer types.
#[verifier::external_body]
fn one_u32() -> (r: u32)
    ensures
        r == 1,
{
    num::traits::One::one()
}

/// Calls `num::traits::Zero::zero` for `u128`. Taken on trust: it returns
/// `0`, which is how the crate defines it for the integer types.
#[verifier::external_body]
fn zero_u128() -> (r: u128)
    ensures
        r == 0,
{
    num::traits::Zero::zero()
}

/// Calls `num::traits::CheckedAdd::checked_add` for `u128`, which the
/// crate forwards to `u128::checked_add`. Taken on trust: it returns the
/// sum where the sum fits in `u128`, and `None` where it does not.
#[verifier::external_body]
fn checked_add_u128(a: &u128, b: &u128) -> (r: Option<u128>)
    ensures
        match r {
            Some(sum) => sum == *a + *b,
            None => *a + *b > u128::MAX,
        },
{
    num::traits::CheckedAdd::checked_add(a, b)
}

/// Calls `num::traits::CheckedSub::checked_sub` for `u128`, which the
/// crate forwards to `u128::checked_sub`. Taken on trust: it returns the
/// difference where `a` is at least `b`, and `None` where it is not.
#[verifier::external_body]
fn checked_sub_u128(a: &u128, b: &u128) -> (r: Option<u128>)
    ensures
        match r {
            Some(rest) => rest == *a - *b,
            None => *a < *b,
        },
{
    num::traits::CheckedSub::checked_sub(a, b)
}

impl Counter for u32 {
    open spec fn value(&self) -> nat {
        *self as nat
    }

    open spec fn max_value() -> nat {
        u32::MAX as nat
    }

    fn zero() -> (r: Self) {
        zero_u32()
    }

    fn one() -> (r: Self) {
        one_u32()
    }

    fn plus(self, rhs: Self) -> (r: Self) {
        self + rhs
    }
}

impl Amount for u128 {
    open spec fn value(&self) -> nat {
        *self as nat
    }

    open spec fn max_value() -> nat {
        u128::MAX as nat
    }

    fn zero() -> (r: Self) {
        zero_u128()
    }

    fn checked_add(&self, v: &Self) -> (r: Option<Self>) {
        checked_add_u128(self, v)
    }

    fn checked_sub(&self, v: &Self) -> (r: Option<Self>) {
        checked_sub_u128(self, v)
    }
}

} // verus!
