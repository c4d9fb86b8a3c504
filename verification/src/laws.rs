//! What holds of the conversions taken together.
//!
//! The library fixes which primitive step is applied to what, and never how
//! a width rounds. So the laws here are exact: they name the chain of steps
//! behind a composite operation, and say what follows at the values where a
//! width's steps happen to undo each other without error. How close the
//! outcome of a chain comes to the ideal number otherwise is a property of
//! the width, and no law here speaks of it.
use vstd::prelude::*;
use crate::angle::SkyAngle;
use crate::conversion::{Conversion, SIXTY, THOUSAND};
use crate::scalar::{
    degrees_of_radians, divided_by, multiplied_by, radians_of_degrees, scaled_down_by, Scalar,
};

verus! {

/// The ladder away from radians is one chain. Whatever a width gives for a
/// radian value in milliarcseconds is a thousand times something it gives in
/// arcseconds, which is sixty times something it gives in arcminutes, which
/// is sixty times something it gives in degrees; and whatever such a chain
/// ends in, is a value in milliarcseconds.
pub proof fn lemma_ladder_from_radians<S: Scalar>(x: S, r: S)
    ensures
        x.to_mas_ensures(r) <==> exists|d: S, m: S, s: S|
            #![trigger multiplied_by(SIXTY, d, m), multiplied_by(SIXTY, m, s)]
            {
                &&& x.to_degree_ensures(d)
                &&& x.to_arcmin_ensures(m)
                &&& x.to_arcsec_ensures(s)
                &&& multiplied_by(SIXTY, d, m)
                &&& multiplied_by(SIXTY, m, s)
                &&& multiplied_by(THOUSAND, s, r)
            },
{
    if x.to_mas_ensures(r) {
        let s = choose|s: S| #[trigger] x.to_arcsec_ensures(s) && multiplied_by(THOUSAND, s, r);
        let m = choose|m: S| #[trigger] x.to_arcmin_ensures(m) && multiplied_by(SIXTY, m, s);
        let d = choose|d: S| #[trigger] x.to_degree_ensures(d) && multiplied_by(SIXTY, d, m);
        assert(multiplied_by(SIXTY, d, m) && multiplied_by(SIXTY, m, s));
    }
}

/// The ladder towards radians is one chain too. Whatever a width gives for a
/// value in milliarcseconds in radians comes from scaling the value down by
/// a thousand, dividing by sixty twice, and converting the degrees that this
/// leaves; each value on the way converts, as the unit it stands in, to the
/// same radians.
pub proof fn lemma_ladder_to_radians<S: Scalar>(x: S, r: S)
    ensures
        x.from_mas_ensures(r) <==> exists|s: S, m: S, d: S|
            #![trigger divided_by(s, SIXTY, m), divided_by(m, SIXTY, d)]
            {
                &&& scaled_down_by(x, THOUSAND, s)
                &&& divided_by(s, SIXTY, m)
                &&& divided_by(m, SIXTY, d)
                &&& s.from_arcsec_ensures(r)
                &&& m.from_arcmin_ensures(r)
                &&& d.from_degree_ensures(r)
            },
{
    if x.from_mas_ensures(r) {
        let s = choose|s: S| #[trigger] scaled_down_by(x, THOUSAND, s) && s.from_arcsec_ensures(r);
        let m = choose|m: S| #[trigger] divided_by(s, SIXTY, m) && m.from_arcmin_ensures(r);
        let d = choose|d: S| #[trigger] divided_by(m, SIXTY, d) && d.from_degree_ensures(r);
        assert(divided_by(s, SIXTY, m) && divided_by(m, SIXTY, d));
    }
}

/// A sequence converts alike whether it is owned or borrowed: what one
/// conversion allows as an outcome for the owned sequence, it allows for a
/// borrowed sequence of the same elements, and the other way round.
pub proof fn lemma_borrowed_as_owned<T: Conversion<T> + Copy>(owned: Vec<T>, borrowed: &[T], r: Vec<T>)
    requires
        borrowed@ == owned@,
    ensures
        owned.from_degree_ensures(r) <==> borrowed.from_degree_ensures(r),
        owned.from_arcmin_ensures(r) <==> borrowed.from_arcmin_ensures(r),
        owned.from_arcsec_ensures(r) <==> borrowed.from_arcsec_ensures(r),
        owned.from_mas_ensures(r) <==> borrowed.from_mas_ensures(r),
        owned.to_degree_ensures(r) <==> borrowed.to_degree_ensures(r),
        owned.to_arcmin_ensures(r) <==> borrowed.to_arcmin_ensures(r),
        owned.to_arcsec_ensures(r) <==> borrowed.to_arcsec_ensures(r),
        owned.to_mas_ensures(r) <==> borrowed.to_mas_ensures(r),
{
}

/// The steps of the width `S` undo each other without error, in either
/// order: the platform's two conversions undo each other, multiplying by a
/// whole number undoes dividing by it and scaling down by it, and dividing or
/// scaling down by a whole number undoes multiplying by it.
pub open spec fn steps_undone_exactly<S: Scalar>() -> bool {
    &&& forall|d: S, r: S, e: S|
        #![trigger radians_of_degrees(d, r), degrees_of_radians(r, e)]
        radians_of_degrees(d, r) && degrees_of_radians(r, e) ==> e == d
    &&& forall|r: S, d: S, b: S|
        #![trigger degrees_of_radians(r, d), radians_of_degrees(d, b)]
        degrees_of_radians(r, d) && radians_of_degrees(d, b) ==> b == r
    &&& forall|x: S, n: u16, q: S, y: S|
        #![trigger divided_by(x, n, q), multiplied_by(n, q, y)]
        divided_by(x, n, q) && multiplied_by(n, q, y) ==> y == x
    &&& forall|x: S, n: u16, p: S, y: S|
        #![trigger multiplied_by(n, x, p), divided_by(p, n, y)]
        multiplied_by(n, x, p) && divided_by(p, n, y) ==> y == x
    &&& forall|x: S, n: u16, q: S, y: S|
        #![trigger scaled_down_by(x, n, q), multiplied_by(n, q, y)]
        scaled_down_by(x, n, q) && multiplied_by(n, q, y) ==> y == x
    &&& forall|x: S, n: u16, p: S, y: S|
        #![trigger multiplied_by(n, x, p), scaled_down_by(p, n, y)]
        multiplied_by(n, x, p) && scaled_down_by(p, n, y) ==> y == x
}

/// The ladder adds no error of its own on the way there and back. In a width
/// whose steps undo each other without error, a value taken from any unit to
/// radians and back to that unit is the value itself.
pub proof fn lemma_round_trip_of_exact_steps<S: Scalar>(x: S, r: S, y: S)
    requires
        steps_undone_exactly::<S>(),
    ensures
        x.from_degree_ensures(r) && r.to_degree_ensures(y) ==> y == x,
        x.from_arcmin_ensures(r) && r.to_arcmin_ensures(y) ==> y == x,
        x.from_arcsec_ensures(r) && r.to_arcsec_ensures(y) ==> y == x,
        x.from_mas_ensures(r) && r.to_mas_ensures(y) ==> y == x,
{
}

/// Expressing an angle anew changes its tag and its payload, not what it
/// stands for. In a width whose steps undo each other without error, an
/// angle that restates another reads in radians exactly as the other does.
pub proof fn lemma_restated_of_exact_steps<S: Scalar>(v: SkyAngle<S>, w: SkyAngle<S>, back: S)
    requires
        steps_undone_exactly::<S>(),
        w.restates(v),
        w.in_radians(back),
    ensures
        v.in_radians(back),
{
}

} // verus!
