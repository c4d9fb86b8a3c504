//! The conversion capability and the unit ladder.
use vstd::prelude::*;
use crate::scalar::{
    degrees_of_radians, div_by, divided_by, mul_by, multiplied_by, radians_of_degrees, scale_down,
    scaled_down_by, Scalar,
};

verus! {

/// Sixty arcminutes make a degree, and sixty arcseconds an arcminute.
pub const SIXTY: u16 = 60;

/// A thousand milliarcseconds make an arcsecond.
pub const THOUSAND: u16 = 1000;

/// Conversion between angle units.
///
/// The `from_` methods read `self` in the named unit and give radians; the
/// `to_` methods read `self` in radians and give the named unit. Each method
/// comes with a relation of the same name that says which outcomes an
/// implementation allows for an input; the method promises an outcome that its
/// relation holds of.
pub trait Conversion<T>: Sized {
    /// `r` is `self`, a value in degrees, expressed in radians.
    spec fn from_degree_ensures(self, r: T) -> bool;

    /// `r` is `self`, a value in arcminutes, expressed in radians.
    spec fn from_arcmin_ensures(self, r: T) -> bool;

    /// `r` is `self`, a value in arcseconds, expressed in radians.
    spec fn from_arcsec_ensures(self, r: T) -> bool;

    /// `r` is `self`, a value in milliarcseconds, expressed in radians.
    spec fn from_mas_ensures(self, r: T) -> bool;

    /// `r` is `self`, a value in radians, expressed in degrees.
    spec fn to_degree_ensures(self, r: T) -> bool;

    /// `r` is `self`, a value in radians, expressed in arcminutes.
    spec fn to_arcmin_ensures(self, r: T) -> bool;

    /// `r` is `self`, a value in radians, expressed in arcseconds.
    spec fn to_arcsec_ensures(self, r: T) -> bool;

    /// `r` is `self`, a value in radians, expressed in milliarcseconds.
    spec fn to_mas_ensures(self, r: T) -> bool;

    /// Converts an angle in degrees to radians.
    fn from_degree(self) -> (r: T)
        ensures
            self.from_degree_ensures(r),
    ;

    /// Converts an angle in arcminutes to radians.
    fn from_arcmin(self) -> (r: T)
        ensures
            self.from_arcmin_ensures(r),
    ;

    /// Converts an angle in arcseconds to radians.
    fn from_arcsec(self) -> (r: T)
        ensures
            self.from_arcsec_ensures(r),
    ;

    /// Converts an angle in milliarcseconds to radians.
    fn from_mas(self) -> (r: T)
        ensures
            self.from_mas_ensures(r),
    ;

    /// Converts an angle in radians to degrees.
    fn to_degree(self) -> (r: T)
        ensures
            self.to_degree_ensures(r),
    ;

    /// Converts an angle in radians to arcminutes.
    fn to_arcmin(self) -> (r: T)
        ensures
            self.to_arcmin_ensures(r),
    ;

    /// Converts an angle in radians to arcseconds.
    fn to_arcsec(self) -> (r: T)
        ensures
            self.to_arcsec_ensures(r),
    ;

    /// Converts an angle in radians to milliarcseconds.
    fn to_mas(self) -> (r: T)
        ensures
            self.to_mas_ensures(r),
    ;
}

/// The unit ladder of a numeric width.
///
/// Only the degree touches the platform's conversion. Every other unit is
/// defined from its neighbour on the ladder: towards radians the value is
/// scaled down and the next coarser unit converts it; away from radians the
/// next coarser unit converts and its outcome is scaled up.
impl<S: Scalar> Conversion<S> for S {
    open spec fn from_degree_ensures(self, r: S) -> bool {
        radians_of_degrees(self, r)
    }

    open spec fn from_arcmin_ensures(self, r: S) -> bool {
        exists|d: S| #[trigger] divided_by(self, SIXTY, d) && d.from_degree_ensures(r)
    }

    open spec fn from_arcsec_ensures(self, r: S) -> bool {
        exists|m: S| #[trigger] divided_by(self, SIXTY, m) && m.from_arcmin_ensures(r)
    }

    open spec fn from_mas_ensures(self, r: S) -> bool {
        exists|s: S| #[trigger] scaled_down_by(self, THOUSAND, s) && s.from_arcsec_ensures(r)
    }

    open spec fn to_degree_ensures(self, r: S) -> bool {
        degrees_of_radians(self, r)
    }

    open spec fn to_arcmin_ensures(self, r: S) -> bool {
        exists|d: S| #[trigger] self.to_degree_ensures(d) && multiplied_by(SIXTY, d, r)
    }

    open spec fn to_arcsec_ensures(self, r: S) -> bool {
        exists|m: S| #[trigger] self.to_arcmin_ensures(m) && multiplied_by(SIXTY, m, r)
    }

    open spec fn to_mas_ensures(self, r: S) -> bool {
        exists|s: S| #[trigger] self.to_arcsec_ensures(s) && multiplied_by(THOUSAND, s, r)
    }

    fn from_degree(self) -> (r: S) {
        self.to_radians()
    }

    fn from_arcmin(self) -> (r: S) {
        div_by(self, SIXTY).from_degree()
    }

    fn from_arcsec(self) -> (r: S) {
        div_by(self, SIXTY).from_arcmin()
    }

    fn from_mas(self) -> (r: S) {
        scale_down(self, THOUSAND).from_arcsec()
    }

    fn to_degree(self) -> (r: S) {
        self.to_degrees()
    }

    fn to_arcmin(self) -> (r: S) {
        mul_by(SIXTY, self.to_degree())
    }

    fn to_arcsec(self) -> (r: S) {
        mul_by(SIXTY, self.to_arcmin())
    }

    fn to_mas(self) -> (r: S) {
        mul_by(THOUSAND, self.to_arcsec())
    }
}

} // verus!
