//! Arithmetic on the numeric type of a query.
//!
//! The queries compute in whatever floating-point-like type the caller works
//! in, through the `Float` trait of the `num_traits` crate. Rounding is the
//! type's own affair: no operation promises anything about the number it
//! returns. What a contract can say of a number is how it was made: each
//! operation comes with a relation that holds between its arguments and
//! whatever it returned for them.

use num_traits::Float;
use vstd::prelude::*;

verus! {

/// Calls `num_traits::identities::zero`: the additive identity of `F`.
///
/// Trusted: nothing is claimed of the value returned.
#[verifier::external_body]
fn native_zero<F: Float>() -> F {
    num_traits::identities::zero()
}

/// Calls `num_traits::identities::one`: the multiplicative identity of `F`.
///
/// Trusted: nothing is claimed of the value returned.
#[verifier::external_body]
fn native_one<F: Float>() -> F {
    num_traits::identities::one()
}

/// Calls `core::ops::Add::add` of `F`.
///
/// Trusted: nothing is claimed of the value returned.
#[verifier::external_body]
fn native_sum<F: Float>(a: F, b: F) -> F {
    a + b
}

/// Calls `core::ops::Sub::sub` of `F`.
///
/// Trusted: nothing is claimed of the value returned.
#[verifier::external_body]
fn native_difference<F: Float>(a: F, b: F) -> F {
    a - b
}

/// Calls `core::ops::Mul::mul` of `F`.
///
/// Trusted: nothing is claimed of the value returned.
#[verifier::external_body]
fn native_product<F: Float>(a: F, b: F) -> F {
    a * b
}

/// Calls `core::ops::Div::div` of `F`.
///
/// Trusted: nothing is claimed of the value returned. For the primitive
/// floating-point types a zero divisor gives an infinity or a NaN, no panic.
#[verifier::external_body]
fn native_quotient<F: Float>(a: F, b: F) -> F {
    a / b
}

/// Calls `num_traits::Float::ln`.
///
/// Trusted: nothing is claimed of the value returned.
#[verifier::external_body]
fn native_log<F: Float>(x: F) -> F {
    x.ln()
}

/// Calls `num_traits::Float::sqrt`.
///
/// Trusted: nothing is claimed of the value returned.
#[verifier::external_body]
fn native_root<F: Float>(x: F) -> F {
    x.sqrt()
}

/// `r` is what `F` gave for its additive identity.
pub closed spec fn zero_is<F: Float>(r: F) -> bool {
    call_ensures(native_zero::<F>, (), r)
}

/// `answer` is what `F` gave for `a < b`.
pub open spec fn less_than_is<F: Float>(a: F, b: F, answer: bool) -> bool {
    call_ensures(<F as PartialOrd>::lt, (&a, &b), answer)
}

/// `answer` is what `F` gave for `a <= b`.
pub open spec fn at_most_is<F: Float>(a: F, b: F, answer: bool) -> bool {
    call_ensures(<F as PartialOrd>::le, (&a, &b), answer)
}

/// `r` is what `F` gave for its multiplicative identity.
pub closed spec fn one_is<F: Float>(r: F) -> bool {
    call_ensures(native_one::<F>, (), r)
}

/// `r` is what `F` gave for `a + b`.
pub closed spec fn sum_is<F: Float>(a: F, b: F, r: F) -> bool {
    call_ensures(native_sum::<F>, (a, b), r)
}

/// `r` is what `F` gave for `a - b`.
pub closed spec fn difference_is<F: Float>(a: F, b: F, r: F) -> bool {
    call_ensures(native_difference::<F>, (a, b), r)
}

/// `r` is what `F` gave for `a * b`.
pub closed spec fn product_is<F: Float>(a: F, b: F, r: F) -> bool {
    call_ensures(native_product::<F>, (a, b), r)
}

/// `r` is what `F` gave for `a / b`.
pub closed spec fn quotient_is<F: Float>(a: F, b: F, r: F) -> bool {
    call_ensures(native_quotient::<F>, (a, b), r)
}

/// `r` is what `F` gave for the natural logarithm of `x`.
pub closed spec fn log_is<F: Float>(x: F, r: F) -> bool {
    call_ensures(native_log::<F>, (x,), r)
}

/// `r` is what `F` gave for the square root of `x`.
pub closed spec fn root_is<F: Float>(x: F, r: F) -> bool {
    call_ensures(native_root::<F>, (x,), r)
}

/// `r` is a two of `F`: the sum of one and one.
pub open spec fn two_is<F: Float>(r: F) -> bool {
    exists|a: F, b: F| #![trigger one_is(a), one_is(b)] one_is(a) && one_is(b) && sum_is(a, b, r)
}

/// `r` is a half of `F`: one divided by two.
pub open spec fn half_is<F: Float>(r: F) -> bool {
    exists|n: F, two: F|
        #![trigger one_is(n), two_is(two)]
        one_is(n) && two_is(two) && quotient_is(n, two, r)
}

/// The additive identity of `F`.
pub(crate) fn zero<F: Float>() -> (r: F)
    ensures
        zero_is(r),
{
    native_zero()
}

/// Whether `a < b`, in the order of `F`.
pub(crate) fn less_than<F: Float>(a: F, b: F) -> (answer: bool)
    ensures
        less_than_is(a, b, answer),
{
    a < b
}

/// Whether `a <= b`, in the order of `F`.
pub(crate) fn at_most<F: Float>(a: F, b: F) -> (answer: bool)
    ensures
        at_most_is(a, b, answer),
{
    a <= b
}

/// The multiplicative identity of `F`.
pub(crate) fn one<F: Float>() -> (r: F)
    ensures
        one_is(r),
{
    native_one()
}

/// `a + b`, in the arithmetic of `F`.
pub(crate) fn sum<F: Float>(a: F, b: F) -> (r: F)
    ensures
        sum_is(a, b, r),
{
    native_sum(a, b)
}

/// `a - b`, in the arithmetic of `F`.
pub(crate) fn difference<F: Float>(a: F, b: F) -> (r: F)
    ensures
        difference_is(a, b, r),
{
    native_difference(a, b)
}

/// `a * b`, in the arithmetic of `F`.
pub(crate) fn product<F: Float>(a: F, b: F) -> (r: F)
    ensures
        product_is(a, b, r),
{
    native_product(a, b)
}

/// `a / b`, in the arithmetic of `F`.
pub(crate) fn quotient<F: Float>(a: F, b: F) -> (r: F)
    ensures
        quotient_is(a, b, r),
{
    native_quotient(a, b)
}

/// The natural logarithm of `x`, in the arithmetic of `F`.
pub(crate) fn natural_log<F: Float>(x: F) -> (r: F)
    ensures
        log_is(x, r),
{
    native_log(x)
}

/// The square root of `x`, in the arithmetic of `F`.
pub(crate) fn square_root<F: Float>(x: F) -> (r: F)
    ensures
        root_is(x, r),
{
    native_root(x)
}

/// Two, as `1 + 1`.
pub(crate) fn two<F: Float>() -> (r: F)
    ensures
        two_is(r),
{
    let a: F = one();
    let b: F = one();
    sum(a, b)
}

/// One half, as `1 / (1 + 1)`.
pub(crate) fn half<F: Float>() -> (r: F)
    ensures
        half_is(r),
{
    let n: F = one();
    let halves: F = two();
    quotient(n, halves)
}

} // verus!
