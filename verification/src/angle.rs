//! The tagged angle.
use vstd::prelude::*;
use crate::conversion::Conversion;

verus! {

/// An angle: a number and the unit that the number is expressed in.
///
/// The tag alone decides how the payload is read. Every variant is a valid
/// angle for every payload, so the type has no further invariant.
#[derive(Debug, Copy)]
pub enum SkyAngle<T: Conversion<T>> {
    Radian(T),
    Degree(T),
    Arcminute(T),
    Arcsecond(T),
    MilliArcsec(T),
}

impl<T: Conversion<T>> SkyAngle<T> {
    /// The number that the angle carries, in whatever unit it is tagged with.
    pub open spec fn magnitude(self) -> T {
        match self {
            SkyAngle::Radian(val) => val,
            SkyAngle::Degree(val) => val,
            SkyAngle::Arcminute(val) => val,
            SkyAngle::Arcsecond(val) => val,
            SkyAngle::MilliArcsec(val) => val,
        }
    }

    /// This angle carries the tag of `other`, whatever the two payloads are.
    pub open spec fn same_unit(self, other: Self) -> bool {
        match self {
            SkyAngle::Radian(_) => other is Radian,
            SkyAngle::Degree(_) => other is Degree,
            SkyAngle::Arcminute(_) => other is Arcminute,
            SkyAngle::Arcsecond(_) => other is Arcsecond,
            SkyAngle::MilliArcsec(_) => other is MilliArcsec,
        }
    }

    /// `r` is this angle expressed in radians: the payload itself where the
    /// tag is the radian, else an outcome of the conversion from the tagged
    /// unit.
    pub open spec fn in_radians(self, r: T) -> bool {
        match self {
            SkyAngle::Radian(val) => r == val,
            SkyAngle::Degree(val) => val.from_degree_ensures(r),
            SkyAngle::Arcminute(val) => val.from_arcmin_ensures(r),
            SkyAngle::Arcsecond(val) => val.from_arcsec_ensures(r),
            SkyAngle::MilliArcsec(val) => val.from_mas_ensures(r),
        }
    }

    /// This angle is the radian value `r` expressed in the unit of its tag:
    /// the payload is `r` itself where the tag is the radian, else an outcome
    /// of the conversion of `r` to the tagged unit.
    pub open spec fn expresses(self, r: T) -> bool {
        match self {
            SkyAngle::Radian(val) => val == r,
            SkyAngle::Degree(val) => r.to_degree_ensures(val),
            SkyAngle::Arcminute(val) => r.to_arcmin_ensures(val),
            SkyAngle::Arcsecond(val) => r.to_arcsec_ensures(val),
            SkyAngle::MilliArcsec(val) => r.to_mas_ensures(val),
        }
    }

    /// This angle is the angle `v` expressed anew in the unit of this angle's
    /// tag, by way of radians: `v` is read in radians, and that reading is
    /// converted to the unit. No conversion goes from unit to unit directly.
    pub open spec fn restates(self, v: Self) -> bool {
        exists|r: T| #[trigger] v.in_radians(r) && self.expresses(r)
    }

    /// The payload, whatever the unit. This is all that the textual form of
    /// an angle shows: the number, without a unit suffix.
    pub fn payload(&self) -> (val: &T)
        ensures
            *val == self.magnitude(),
    {
        match self {
            SkyAngle::Radian(val) => val,
            SkyAngle::Degree(val) => val,
            SkyAngle::Arcminute(val) => val,
            SkyAngle::Arcsecond(val) => val,
            SkyAngle::MilliArcsec(val) => val,
        }
    }

    /// The angle in radians.
    pub fn to_radians(self) -> (r: T)
        ensures
            self.in_radians(r),
    {
        match self {
            SkyAngle::Radian(val) => val,
            SkyAngle::Degree(val) => T::from_degree(val),
            SkyAngle::Arcminute(val) => T::from_arcmin(val),
            SkyAngle::Arcsecond(val) => T::from_arcsec(val),
            SkyAngle::MilliArcsec(val) => T::from_mas(val),
        }
    }

    /// The same angle, expressed in degrees.
    pub fn into_degree(self) -> (out: Self)
        ensures
            out is Degree,
            out.restates(self),
    {
        SkyAngle::Degree(self.to_radians().to_degree())
    }

    /// The same angle, expressed in arcminutes.
    pub fn into_arcmin(self) -> (out: Self)
        ensures
            out is Arcminute,
            out.restates(self),
    {
        SkyAngle::Arcminute(self.to_radians().to_arcmin())
    }

    /// The same angle, expressed in arcseconds.
    pub fn into_arcsec(self) -> (out: Self)
        ensures
            out is Arcsecond,
            out.restates(self),
    {
        SkyAngle::Arcsecond(self.to_radians().to_arcsec())
    }

    /// The same angle, expressed in milliarcseconds.
    pub fn into_mas(self) -> (out: Self)
        ensures
            out is MilliArcsec,
            out.restates(self),
    {
        SkyAngle::MilliArcsec(self.to_radians().to_mas())
    }
}

/// A copy of an angle keeps the tag, and carries a copy of the payload.
impl<T: Conversion<T> + Clone> Clone for SkyAngle<T> {
    fn clone(&self) -> (copy: Self)
        ensures
            copy.same_unit(*self),
            cloned(self.magnitude(), copy.magnitude()),
    {
        match self {
            SkyAngle::Radian(val) => SkyAngle::Radian(val.clone()),
            SkyAngle::Degree(val) => SkyAngle::Degree(val.clone()),
            SkyAngle::Arcminute(val) => SkyAngle::Arcminute(val.clone()),
            SkyAngle::Arcsecond(val) => SkyAngle::Arcsecond(val.clone()),
            SkyAngle::MilliArcsec(val) => SkyAngle::MilliArcsec(val.clone()),
        }
    }
}

} // verus!
