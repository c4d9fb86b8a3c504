//! The unit ladder, run on the two IEEE widths.

use skyangle::scalar::{div_by, mul_by, scale_down};
use skyangle::{Conversion, Scalar};
use std::f32::consts::PI as PI32;
use std::f64::consts::PI;

#[derive(Debug, Clone, Copy, PartialEq)]
struct Double(f64);

impl Scalar for Double {
    fn from_u16(n: u16) -> Self {
        Double(f64::from(n))
    }
    fn times(self, rhs: Self) -> Self {
        Double(self.0 * rhs.0)
    }
    fn over(self, rhs: Self) -> Self {
        Double(self.0 / rhs.0)
    }
    fn to_radians(self) -> Self {
        Double(self.0.to_radians())
    }
    fn to_degrees(self) -> Self {
        Double(self.0.to_degrees())
    }
}

#[derive(Debug, Clone, Copy, PartialEq)]
struct Single(f32);

impl Scalar for Single {
    fn from_u16(n: u16) -> Self {
        Single(f32::from(n))
    }
    fn times(self, rhs: Self) -> Self {
        Single(self.0 * rhs.0)
    }
    fn over(self, rhs: Self) -> Self {
        Single(self.0 / rhs.0)
    }
    fn to_radians(self) -> Self {
        Single(self.0.to_radians())
    }
    fn to_degrees(self) -> Self {
        Single(self.0.to_degrees())
    }
}

const SAMPLES: [f64; 12] = [
    0.0, 1.0, -1.0, 0.5, 7.4, 9.0, 13.69, 37.25, 180.0, 359.999, 1.0e-7, 1.234_567_89e9,
];

fn rel_err(got: f64, want: f64) -> f64 {
    if want == 0.0 {
        got.abs()
    } else {
        ((got - want) / want).abs()
    }
}

#[test]
fn whole_numbers_lift_exactly() {
    assert_eq!(Double::from_u16(60), Double(60.0));
    assert_eq!(Double::from_u16(1000), Double(1000.0));
    assert_eq!(Single::from_u16(60), Single(60.0));
    assert_eq!(Single::from_u16(1000), Single(1000.0));
}

#[test]
fn div_by_divides_by_the_lifted_number() {
    assert_eq!(div_by(Double(90.0), 60), Double(1.5));
    assert_eq!(div_by(Double(7.0), 60), Double(7.0 / 60.0));
    assert_eq!(div_by(Single(7.0), 60), Single(7.0 / 60.0));
}

#[test]
fn mul_by_multiplies_by_the_lifted_number() {
    assert_eq!(mul_by(60, Double(1.5)), Double(90.0));
    assert_eq!(mul_by(1000, Double(0.1)), Double(1000.0 * 0.1));
    assert_eq!(mul_by(1000, Single(0.1)), Single(1000.0 * 0.1));
}

#[test]
fn scale_down_multiplies_by_the_reciprocal() {
    assert_eq!(scale_down(Double(1.0), 1000), Double(1e-3));
    assert_eq!(scale_down(Single(1.0), 1000), Single(1e-3));
    for x in SAMPLES {
        assert_eq!(scale_down(Double(x), 1000), Double(x * 1e-3));
        assert_eq!(scale_down(Single(x as f32), 1000), Single(x as f32 * 1e-3));
    }
}

#[test]
fn scale_down_is_not_division() {
    // In double precision nine thousandths is not nine times one thousandth.
    let x = 9.0_f64;
    assert_ne!(x * 1e-3, x / 1000.0);
    assert_eq!(scale_down(Double(x), 1000), Double(x * 1e-3));
    assert_eq!(div_by(Double(x), 1000), Double(x / 1000.0));
}

#[test]
fn from_degree_is_the_platform_conversion() {
    assert_eq!(Double(180.0).from_degree(), Double(PI));
    assert_eq!(Single(180.0).from_degree(), Single(PI32));
    for x in SAMPLES {
        assert_eq!(Double(x).from_degree(), Double(x.to_radians()));
        assert_eq!(Single(x as f32).from_degree(), Single((x as f32).to_radians()));
    }
}

#[test]
fn from_arcmin_divides_then_converts() {
    assert_eq!(Double(60.0).from_arcmin(), Double(1.0_f64.to_radians()));
    assert_eq!(Double(10800.0).from_arcmin(), Double(PI));
    for x in SAMPLES {
        assert_eq!(Double(x).from_arcmin(), Double((x / 60.0).to_radians()));
        assert_eq!(Single(x as f32).from_arcmin(), Single((x as f32 / 60.0).to_radians()));
    }
}

#[test]
fn from_arcmin_divides_before_it_converts() {
    // Converting first and dividing afterwards rounds differently here.
    let x = 7.4_f64;
    assert_ne!((x / 60.0).to_radians(), x.to_radians() / 60.0);
    assert_eq!(Double(x).from_arcmin(), Double((x / 60.0).to_radians()));
}

#[test]
fn from_arcsec_divides_twice_then_converts() {
    assert_eq!(Double(3600.0).from_arcsec(), Double(1.0_f64.to_radians()));
    assert_eq!(Double(648000.0).from_arcsec(), Double(PI));
    for x in SAMPLES {
        assert_eq!(Double(x).from_arcsec(), Double((x / 60.0 / 60.0).to_radians()));
        assert_eq!(Double(x).from_arcsec(), Double(x / 60.0).from_arcmin());
        assert_eq!(
            Single(x as f32).from_arcsec(),
            Single((x as f32 / 60.0 / 60.0).to_radians())
        );
    }
}

#[test]
fn from_mas_scales_down_then_follows_the_arcsecond() {
    for x in SAMPLES {
        assert_eq!(Double(x).from_mas(), Double((x * 1e-3 / 60.0 / 60.0).to_radians()));
        assert_eq!(Double(x).from_mas(), Double(x * 1e-3).from_arcsec());
        assert_eq!(
            Single(x as f32).from_mas(),
            Single((x as f32 * 1e-3 / 60.0 / 60.0).to_radians())
        );
    }
    let one_degree = Double(3_600_000.0).from_mas();
    assert!(rel_err(one_degree.0, 1.0_f64.to_radians()) <= 1e-15);
}

#[test]
fn to_degree_is_the_platform_conversion() {
    assert_eq!(Double(PI).to_degree(), Double(180.0));
    assert_eq!(Single(PI32).to_degree(), Single(180.0));
    for x in SAMPLES {
        assert_eq!(Double(x).to_degree(), Double(x.to_degrees()));
        assert_eq!(Single(x as f32).to_degree(), Single((x as f32).to_degrees()));
    }
}

#[test]
fn to_arcmin_is_sixty_times_the_degrees() {
    assert_eq!(Double(PI).to_arcmin(), Double(10800.0));
    for x in SAMPLES {
        assert_eq!(Double(x).to_arcmin(), Double(60.0 * x.to_degrees()));
        assert_eq!(Single(x as f32).to_arcmin(), Single(60.0 * (x as f32).to_degrees()));
    }
}

#[test]
fn to_arcsec_is_sixty_times_the_arcminutes() {
    assert_eq!(Double(PI).to_arcsec(), Double(648000.0));
    for x in SAMPLES {
        assert_eq!(Double(x).to_arcsec(), Double(60.0 * (60.0 * x.to_degrees())));
        assert_eq!(Double(x).to_arcsec(), Double(60.0 * Double(x).to_arcmin().0));
        assert_eq!(
            Single(x as f32).to_arcsec(),
            Single(60.0 * (60.0 * (x as f32).to_degrees()))
        );
    }
}

#[test]
fn to_mas_is_a_thousand_times_the_arcseconds() {
    assert_eq!(Double(PI).to_mas(), Double(648_000_000.0));
    for x in SAMPLES {
        assert_eq!(Double(x).to_mas(), Double(1e3 * (60.0 * (60.0 * x.to_degrees()))));
        assert_eq!(Double(x).to_mas(), Double(1e3 * Double(x).to_arcsec().0));
        assert_eq!(
            Single(x as f32).to_mas(),
            Single(1e3 * (60.0 * (60.0 * (x as f32).to_degrees())))
        );
    }
}

#[test]
fn ladder_agrees_with_the_factors_from_the_degree() {
    for x in SAMPLES {
        let deg = Double(x).to_degree().0;
        assert!(rel_err(Double(x).to_arcmin().0, 60.0 * deg) <= 1e-15);
        assert!(rel_err(Double(x).to_arcsec().0, 3600.0 * deg) <= 1e-15);
        assert!(rel_err(Double(x).to_mas().0, 3_600_000.0 * deg) <= 1e-15);
        assert!(rel_err(Double(x).to_mas().0, 60_000.0 * Double(x).to_arcmin().0) <= 1e-15);
        let deg32 = f64::from(Single(x as f32).to_degree().0);
        assert!(rel_err(f64::from(Single(x as f32).to_mas().0), 3_600_000.0 * deg32) <= 1e-6);
    }
}

#[test]
fn round_trip_in_double_precision() {
    for x in SAMPLES {
        assert!(rel_err(Double(x).from_degree().to_degree().0, x) <= 1e-9);
        assert!(rel_err(Double(x).from_arcmin().to_arcmin().0, x) <= 1e-9);
        assert!(rel_err(Double(x).from_arcsec().to_arcsec().0, x) <= 1e-9);
        assert!(rel_err(Double(x).from_mas().to_mas().0, x) <= 1e-9);
    }
}

#[test]
fn round_trip_in_single_precision() {
    for x in SAMPLES {
        let x = x as f32;
        let back = |y: Single| rel_err(f64::from(y.0), f64::from(x));
        assert!(back(Single(x).from_degree().to_degree()) <= 1e-5);
        assert!(back(Single(x).from_arcmin().to_arcmin()) <= 1e-5);
        assert!(back(Single(x).from_arcsec().to_arcsec()) <= 1e-5);
        assert!(back(Single(x).from_mas().to_mas()) <= 1e-5);
    }
}

#[test]
fn the_two_widths_agree() {
    // Every sample here is the same number in both widths.
    for x in [0.0_f32, 1.0, -2.0, 0.5, 37.25, 180.0, 4096.0] {
        let wide = Double(f64::from(x));
        let narrow = Single(x);
        let agree = |n: Single, w: Double| rel_err(f64::from(n.0), w.0) <= 4.0 * f64::from(f32::EPSILON);
        assert!(agree(narrow.from_degree(), wide.from_degree()));
        assert!(agree(narrow.from_arcmin(), wide.from_arcmin()));
        assert!(agree(narrow.from_arcsec(), wide.from_arcsec()));
        assert!(agree(narrow.from_mas(), wide.from_mas()));
        assert!(agree(narrow.to_degree(), wide.to_degree()));
        assert!(agree(narrow.to_arcmin(), wide.to_arcmin()));
        assert!(agree(narrow.to_arcsec(), wide.to_arcsec()));
        assert!(agree(narrow.to_mas(), wide.to_mas()));
    }
}

#[test]
fn zero_stays_zero() {
    assert_eq!(Double(0.0).from_mas(), Double(0.0));
    assert_eq!(Double(0.0).to_mas(), Double(0.0));
    assert_eq!(Single(0.0).from_arcsec(), Single(0.0));
    assert_eq!(Single(0.0).to_arcsec(), Single(0.0));
}

#[test]
fn not_a_number_passes_through() {
    assert!(Double(f64::NAN).from_degree().0.is_nan());
    assert!(Double(f64::NAN).from_arcmin().0.is_nan());
    assert!(Double(f64::NAN).from_arcsec().0.is_nan());
    assert!(Double(f64::NAN).from_mas().0.is_nan());
    assert!(Double(f64::NAN).to_degree().0.is_nan());
    assert!(Double(f64::NAN).to_arcmin().0.is_nan());
    assert!(Double(f64::NAN).to_arcsec().0.is_nan());
    assert!(Single(f32::NAN).to_mas().0.is_nan());
}

#[test]
fn infinity_passes_through() {
    assert_eq!(Double(f64::INFINITY).from_arcsec(), Double(f64::INFINITY));
    assert_eq!(Double(f64::NEG_INFINITY).from_mas(), Double(f64::NEG_INFINITY));
    assert_eq!(Double(f64::INFINITY).to_mas(), Double(f64::INFINITY));
    assert_eq!(Single(f32::NEG_INFINITY).to_arcmin(), Single(f32::NEG_INFINITY));
}

#[test]
fn overflow_gives_infinity() {
    assert_eq!(Double(f64::MAX).to_mas(), Double(f64::INFINITY));
    assert_eq!(Single(f32::MAX).to_degree(), Single(f32::INFINITY));
}
