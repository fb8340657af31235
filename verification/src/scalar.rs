//! Scalar arithmetic, as `num_traits::Float` provides it.
//!
//! Floating-point results are not taken to be functions of their operands.
//! Contracts speak of them through the relations below, which stand for
//! "this is a value that the operation may give" and are otherwise left
//! open: the solver is verified for whatever the operations return.
use num_traits::Float;
use vstd::prelude::*;
use vstd::std_specs::cmp::{eq_ensures, ge_ensures, lt_ensures};
use vstd::std_specs::ops::{add_ensures, div_ensures, mul_ensures, sub_ensures};

verus! {

/// `r` may be what `a + b` gives.
pub open spec fn sum_is<T>(a: T, b: T, r: T) -> bool {
    add_ensures::<T>(a, b, r)
}

/// `r` may be what `a - b` gives.
pub open spec fn difference_is<T>(a: T, b: T, r: T) -> bool {
    sub_ensures::<T>(a, b, r)
}

/// `r` may be what `a * b` gives.
pub open spec fn product_is<T>(a: T, b: T, r: T) -> bool {
    mul_ensures::<T>(a, b, r)
}

/// `r` may be what `a / b` gives.
pub open spec fn quotient_is<T>(a: T, b: T, r: T) -> bool {
    div_ensures::<T>(a, b, r)
}

/// `r` may be the answer to `a == b`.
pub open spec fn same_is<T>(a: T, b: T, r: bool) -> bool {
    eq_ensures::<T>(a, b, r)
}

/// `r` may be the answer to `a < b`.
pub open spec fn below_is<T>(a: T, b: T, r: bool) -> bool {
    lt_ensures::<T>(a, b, r)
}

/// `r` may be the answer to `a >= b`.
pub open spec fn at_least_is<T>(a: T, b: T, r: bool) -> bool {
    ge_ensures::<T>(a, b, r)
}

/// `num_traits::Zero::zero`: the additive identity of `T`. Nothing is claimed
/// of the value.
#[verifier::external_body]
pub(crate) fn zero<T: Float>() -> (r: T) {
    T::zero()
}

/// `num_traits::One::one`: the multiplicative identity of `T`. Nothing is
/// claimed of the value.
#[verifier::external_body]
pub(crate) fn one<T: Float>() -> (r: T) {
    T::one()
}

/// `core::ops::Add::add`, which `num_traits::NumOps` asks of `T`: `a + b`.
/// The contract only gives the result the name by which vstd speaks of
/// floating-point addition; no value is claimed.
#[verifier::external_body]
pub(crate) fn sum<T: Float>(a: T, b: T) -> (r: T)
    ensures
        sum_is(a, b, r),
{
    a + b
}

/// `core::ops::Sub::sub`, which `num_traits::NumOps` asks of `T`: `a - b`.
/// The contract only gives the result the name by which vstd speaks of
/// floating-point subtraction; no value is claimed.
#[verifier::external_body]
pub(crate) fn difference<T: Float>(a: T, b: T) -> (r: T)
    ensures
        difference_is(a, b, r),
{
    a - b
}

/// `core::ops::Mul::mul`, which `num_traits::NumOps` asks of `T`: `a * b`.
/// The contract only gives the result the name by which vstd speaks of
/// floating-point multiplication; no value is claimed.
#[verifier::external_body]
pub(crate) fn product<T: Float>(a: T, b: T) -> (r: T)
    ensures
        product_is(a, b, r),
{
    a * b
}

/// `core::ops::Div::div`, which `num_traits::NumOps` asks of `T`: `a / b`.
/// The contract only gives the result the name by which vstd speaks of
/// floating-point division; no value is claimed.
#[verifier::external_body]
pub(crate) fn quotient<T: Float>(a: T, b: T) -> (r: T)
    ensures
        quotient_is(a, b, r),
{
    a / b
}

/// `num_traits::Float::abs`: the absolute value of `a`. Nothing is claimed of
/// the value.
#[verifier::external_body]
pub(crate) fn magnitude<T: Float>(a: T) -> (r: T) {
    a.abs()
}

/// `PartialEq::eq`, which `num_traits::Num` asks of `T`: `a == b`. The
/// contract only gives the answer the name by which vstd speaks of
/// floating-point equality; no answer is claimed.
#[verifier::external_body]
pub(crate) fn same<T: Float>(a: T, b: T) -> (r: bool)
    ensures
        same_is(a, b, r),
{
    a == b
}

/// `PartialOrd::lt`, which `num_traits::Float` asks of `T`: `a < b`. The
/// contract only gives the answer the name by which vstd speaks of the
/// floating-point comparison; no answer is claimed.
#[verifier::external_body]
pub(crate) fn below<T: Float>(a: T, b: T) -> (r: bool)
    ensures
        below_is(a, b, r),
{
    a < b
}

/// `PartialOrd::ge`, which `num_traits::Float` asks of `T`: `a >= b`. The
/// contract only gives the answer the name by which vstd speaks of the
/// floating-point comparison; no answer is claimed.
#[verifier::external_body]
pub(crate) fn at_least<T: Float>(a: T, b: T) -> (r: bool)
    ensures
        at_least_is(a, b, r),
{
    a >= b
}

/// The whole number `n` in `T`, summed up from ones, highest binary digit
/// first. Exact where `n` has no more significant binary digits than `T`
/// holds.
pub(crate) fn whole<T: Float>(n: u64) -> (r: T)
    ensures
        whole_is(n as int, r),
{
    let unit: T = one();
    let two: T = sum(unit, unit);
    let r: T = counted(n, unit, two);
    proof {
        assert(counted_is(n as int, unit, two, r));
    }
    r
}

/// The fraction `numerator / denominator` in `T`: one division of the two
/// whole numbers, each counted in `T` first.
pub(crate) fn ratio<T: Float>(numerator: u64, denominator: u64) -> (r: T)
    ensures
        ratio_is(numerator as int, denominator as int, r),
{
    let above: T = whole(numerator);
    let below: T = whole(denominator);
    quotient(above, below)
}

/// Whether `r` can be the whole number `n` counted with `unit` for one and
/// `two` for two. Of zero nothing is said: it is whatever the scalar type
/// gives for it. A larger number is its half, rounded down, times `two`, and
/// `unit` more where the number is odd.
pub open spec fn counted_is<T>(n: int, unit: T, two: T, r: T) -> bool
    decreases n,
{
    if n <= 0 {
        true
    } else {
        exists|half: T, doubled: T|
            #![trigger product_is(half, two, doubled)]
            counted_is(n / 2, unit, two, half) && product_is(half, two, doubled) && if n % 2
                == 1 {
                sum_is(doubled, unit, r)
            } else {
                r == doubled
            }
    }
}

/// Whether `r` can be the whole number `n` in `T`: counted with some value
/// that the scalar type gives for one, and with the sum of that value and
/// itself for two.
pub open spec fn whole_is<T>(n: int, r: T) -> bool {
    exists|unit: T, two: T| sum_is(unit, unit, two) && #[trigger] counted_is(n, unit, two, r)
}

/// Whether `r` can be the fraction `numerator / denominator` in `T`: a
/// quotient of the two whole numbers.
pub open spec fn ratio_is<T>(numerator: int, denominator: int, r: T) -> bool {
    exists|above: T, below: T|
        whole_is(numerator, above) && whole_is(denominator, below) && #[trigger] quotient_is(
            above,
            below,
            r,
        )
}

/// The whole number `n` counted with `unit` for one and `two` for two: the
/// half of `n` first, then its double, then `unit` more where `n` is odd.
fn counted<T: Float>(n: u64, unit: T, two: T) -> (r: T)
    ensures
        counted_is(n as int, unit, two, r),
    decreases n,
{
    if n == 0 {
        zero()
    } else {
        let half: T = counted(n / 2, unit, two);
        let doubled: T = product(half, two);
        let r: T = if n % 2 == 1 {
            sum(doubled, unit)
        } else {
            doubled
        };
        proof {
            assert(counted_is((n as int) / 2, unit, two, half));
        }
        r
    }
}

} // verus!
