//! Arithmetic on tagged angles.
//!
//! Every operator converts its angle operands to radians first and then
//! applies the payload type's own operator. The outcome is a bare number in
//! radians (for the ratio of two angles, a bare ratio): it carries no tag,
//! so that no unit is invented for a derived quantity.
//!
//! The payload type's operators are described the way conversions are: by
//! what they allow as an outcome. An operator on angles can be applied where
//! the payload's operator can be applied to every radian reading of the
//! operands.
use vstd::prelude::*;
use vstd::std_specs::ops::{AddSpec, AddSpecImpl, DivSpec, DivSpecImpl, MulSpec, MulSpecImpl, SubSpec, SubSpecImpl};
use core::ops::{Add, Div, Mul, Sub};
use crate::angle::SkyAngle;
use crate::conversion::Conversion;

verus! {

impl<T> SkyAngle<T> where T: Conversion<T> + Add<Output = T> {
    /// `out` is a sum of radian readings of `self` and `rhs`.
    pub open spec fn sum_ensures(self, rhs: Self, out: T) -> bool {
        exists|a: T, b: T|
            self.in_radians(a) && rhs.in_radians(b) && #[trigger] call_ensures(T::add, (a, b), out)
    }
}

impl<T> SkyAngle<T> where T: Conversion<T> + Sub<Output = T> {
    /// `out` is a radian reading of `self` less one of `rhs`.
    pub open spec fn difference_ensures(self, rhs: Self, out: T) -> bool {
        exists|a: T, b: T|
            self.in_radians(a) && rhs.in_radians(b) && #[trigger] call_ensures(T::sub, (a, b), out)
    }
}

impl<T> SkyAngle<T> where T: Conversion<T> + Div<Output = T> {
    /// `out` is a radian reading of `self` divided by one of `rhs`.
    pub open spec fn ratio_ensures(self, rhs: Self, out: T) -> bool {
        exists|a: T, b: T|
            self.in_radians(a) && rhs.in_radians(b) && #[trigger] call_ensures(T::div, (a, b), out)
    }

    /// `out` is a radian reading of `self` divided by the bare number `rhs`.
    pub open spec fn shrunk_ensures(self, rhs: T, out: T) -> bool {
        exists|a: T| #[trigger] self.in_radians(a) && call_ensures(T::div, (a, rhs), out)
    }
}

impl<T> SkyAngle<T> where T: Conversion<T> + Mul<Output = T> {
    /// `out` is a radian reading of `self` multiplied by the bare number
    /// `rhs`.
    pub open spec fn scaled_ensures(self, rhs: T, out: T) -> bool {
        exists|a: T| #[trigger] self.in_radians(a) && call_ensures(T::mul, (a, rhs), out)
    }
}

impl<T> AddSpecImpl for SkyAngle<T> where T: Conversion<T> + Add<Output = T> {
    open spec fn obeys_add_spec() -> bool {
        false
    }

    open spec fn add_req(self, rhs: SkyAngle<T>) -> bool {
        forall|a: T, b: T| self.in_radians(a) && rhs.in_radians(b) ==> #[trigger] a.add_req(b)
    }

    open spec fn add_spec(self, rhs: SkyAngle<T>) -> T {
        choose|out: T| self.sum_ensures(rhs, out)
    }
}

/// Angle plus angle: the sum of the two in radians, as a bare number.
impl<T> Add for SkyAngle<T> where T: Conversion<T> + Add<Output = T> {
    type Output = T;

    fn add(self, rhs: Self) -> (out: T)
        ensures
            self.sum_ensures(rhs, out),
    {
        self.to_radians() + rhs.to_radians()
    }
}

impl<T> SubSpecImpl for SkyAngle<T> where T: Conversion<T> + Sub<Output = T> {
    open spec fn obeys_sub_spec() -> bool {
        false
    }

    open spec fn sub_req(self, rhs: SkyAngle<T>) -> bool {
        forall|a: T, b: T| self.in_radians(a) && rhs.in_radians(b) ==> #[trigger] a.sub_req(b)
    }

    open spec fn sub_spec(self, rhs: SkyAngle<T>) -> T {
        choose|out: T| self.difference_ensures(rhs, out)
    }
}

/// Angle minus angle: the difference of the two in radians, as a bare number.
impl<T> Sub for SkyAngle<T> where T: Conversion<T> + Sub<Output = T> {
    type Output = T;

    fn sub(self, rhs: Self) -> (out: T)
        ensures
            self.difference_ensures(rhs, out),
    {
        self.to_radians() - rhs.to_radians()
    }
}

impl<T> DivSpecImpl for SkyAngle<T> where T: Conversion<T> + Div<Output = T> {
    open spec fn obeys_div_spec() -> bool {
        false
    }

    open spec fn div_req(self, rhs: SkyAngle<T>) -> bool {
        forall|a: T, b: T| self.in_radians(a) && rhs.in_radians(b) ==> #[trigger] a.div_req(b)
    }

    open spec fn div_spec(self, rhs: SkyAngle<T>) -> T {
        choose|out: T| self.ratio_ensures(rhs, out)
    }
}

/// Angle by angle: the ratio of the two, a bare number without dimension.
impl<T> Div for SkyAngle<T> where T: Conversion<T> + Div<Output = T> {
    type Output = T;

    fn div(self, rhs: Self) -> (out: T)
        ensures
            self.ratio_ensures(rhs, out),
    {
        self.to_radians() / rhs.to_radians()
    }
}

impl<T> DivSpecImpl<T> for SkyAngle<T> where T: Conversion<T> + Div<Output = T> {
    open spec fn obeys_div_spec() -> bool {
        false
    }

    open spec fn div_req(self, rhs: T) -> bool {
        forall|a: T| self.in_radians(a) ==> #[trigger] a.div_req(rhs)
    }

    open spec fn div_spec(self, rhs: T) -> T {
        choose|out: T| self.shrunk_ensures(rhs, out)
    }
}

/// Angle by bare number: the angle in radians divided by the number, as a
/// bare number.
impl<T> Div<T> for SkyAngle<T> where T: Conversion<T> + Div<Output = T> {
    type Output = T;

    fn div(self, rhs: T) -> (out: T)
        ensures
            self.shrunk_ensures(rhs, out),
    {
        self.to_radians() / rhs
    }
}

impl<T> MulSpecImpl<T> for SkyAngle<T> where T: Conversion<T> + Mul<Output = T> {
    open spec fn obeys_mul_spec() -> bool {
        false
    }

    open spec fn mul_req(self, rhs: T) -> bool {
        forall|a: T| self.in_radians(a) ==> #[trigger] a.mul_req(rhs)
    }

    open spec fn mul_spec(self, rhs: T) -> T {
        choose|out: T| self.scaled_ensures(rhs, out)
    }
}

/// Angle times bare number: the angle in radians multiplied by the number, as
/// a bare number.
impl<T> Mul<T> for SkyAngle<T> where T: Conversion<T> + Mul<Output = T> {
    type Output = T;

    fn mul(self, rhs: T) -> (out: T)
        ensures
            self.scaled_ensures(rhs, out),
    {
        self.to_radians() * rhs
    }
}

} // verus!
