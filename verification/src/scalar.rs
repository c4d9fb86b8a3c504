//! The numeric primitives that a payload width supplies.
//!
//! Nothing is assumed of how a width computes: a primitive may round, and it
//! need not even be a function of its arguments. Each primitive is therefore
//! described by a relation between its arguments and an outcome, and the rest
//! of the library states which primitives were applied to what, in which
//! order.
use vstd::prelude::*;

verus! {

/// A numeric width that can carry an angle.
///
/// The methods take no precondition: every one of them is total, and passes
/// on whatever the width's arithmetic gives for unusual values.
pub trait Scalar: Sized {
    /// The width's value for a small whole number.
    fn from_u16(n: u16) -> Self;

    /// The product of `self` and `rhs`.
    fn times(self, rhs: Self) -> Self;

    /// The quotient of `self` by `rhs`.
    fn over(self, rhs: Self) -> Self;

    /// The platform's conversion of a value in degrees to radians.
    fn to_radians(self) -> Self;

    /// The platform's conversion of a value in radians to degrees.
    fn to_degrees(self) -> Self;
}

/// `c` is an outcome of lifting the whole number `n` into the width.
pub open spec fn lifted<S: Scalar>(n: u16, c: S) -> bool {
    call_ensures(S::from_u16, (n,), c)
}

/// `r` is an outcome of multiplying `a` by `b`.
pub open spec fn product<S: Scalar>(a: S, b: S, r: S) -> bool {
    call_ensures(S::times, (a, b), r)
}

/// `r` is an outcome of dividing `a` by `b`.
pub open spec fn quotient<S: Scalar>(a: S, b: S, r: S) -> bool {
    call_ensures(S::over, (a, b), r)
}

/// `r` is an outcome of the platform's degree-to-radian conversion of `x`.
pub open spec fn radians_of_degrees<S: Scalar>(x: S, r: S) -> bool {
    call_ensures(S::to_radians, (x,), r)
}

/// `r` is an outcome of the platform's radian-to-degree conversion of `x`.
pub open spec fn degrees_of_radians<S: Scalar>(x: S, r: S) -> bool {
    call_ensures(S::to_degrees, (x,), r)
}

/// `r` is an outcome of dividing `x` by the whole number `n`: the number is
/// lifted into the width, then `x` is divided by it.
pub open spec fn divided_by<S: Scalar>(x: S, n: u16, r: S) -> bool {
    exists|c: S| #[trigger] lifted(n, c) && quotient(x, c, r)
}

/// `r` is an outcome of multiplying the whole number `n` by `x`: the number
/// is lifted into the width and stands on the left of the product.
pub open spec fn multiplied_by<S: Scalar>(n: u16, x: S, r: S) -> bool {
    exists|c: S| #[trigger] lifted(n, c) && product(c, x, r)
}

/// `r` is an outcome of taking `x` times the reciprocal of the whole number
/// `n`: one is divided by the lifted number first, and `x` is multiplied by
/// that quotient. This differs from `divided_by` wherever the width rounds.
pub open spec fn scaled_down_by<S: Scalar>(x: S, n: u16, r: S) -> bool {
    exists|one: S, f: S| #[trigger] divided_by(one, n, f) && lifted(1u16, one) && product(x, f, r)
}

/// Divides `x` by the whole number `n`.
pub fn div_by<S: Scalar>(x: S, n: u16) -> (r: S)
    ensures
        divided_by(x, n, r),
{
    let c = S::from_u16(n);
    assert(lifted(n, c));
    x.over(c)
}

/// Multiplies the whole number `n` by `x`.
pub fn mul_by<S: Scalar>(n: u16, x: S) -> (r: S)
    ensures
        multiplied_by(n, x, r),
{
    let c = S::from_u16(n);
    assert(lifted(n, c));
    c.times(x)
}

/// Multiplies `x` by the reciprocal of the whole number `n`.
pub fn scale_down<S: Scalar>(x: S, n: u16) -> (r: S)
    ensures
        scaled_down_by(x, n, r),
{
    let one = S::from_u16(1);
    x.times(div_by(one, n))
}

} // verus!
