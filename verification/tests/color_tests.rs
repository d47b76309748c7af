use paints::color::alpha_color::AlphaColor;
use paints::color::common::{
    black, blue, cyan, gray, green, magenta, red, transparent, white, yellow,
};
use paints::color::solid_color::SolidColor;
use paints::color::{ColoringError, CssProp, UniformColor};
use paints::fraction::Fraction;

#[test]
fn rgb_css_prop_small_values() {
    assert_eq!(SolidColor::rgb(10, 20, 30).to_css_prop(), "rgb(10,20,30)");
}

#[test]
fn rgb_css_prop_extremes() {
    assert_eq!(SolidColor::rgb(0, 0, 0).to_css_prop(), "rgb(0,0,0)");
    assert_eq!(SolidColor::rgb(255, 255, 255).to_css_prop(), "rgb(255,255,255)");
    assert_eq!(SolidColor::rgb(1, 100, 255).to_css_prop(), "rgb(1,100,255)");
}

#[test]
fn rgb_as_rgb_round_trip() {
    let c = SolidColor::rgb(7, 8, 9);
    assert_eq!(c.as_rgb(), (7, 8, 9));
}

#[test]
fn rgba_accepts_unit_range() {
    let a = AlphaColor::rgba(1, 2, 3, Fraction::zero()).unwrap();
    assert_eq!(a.as_rgba().0, 1);
    let b = AlphaColor::rgba(1, 2, 3, Fraction::one()).unwrap();
    assert_eq!(b.as_rgba().3, Fraction::one());
    assert!(AlphaColor::rgba(1, 2, 3, Fraction::from_micros(500_000)).is_ok());
}

#[test]
fn rgba_rejects_out_of_range_alpha() {
    let low = AlphaColor::rgba(1, 2, 3, Fraction::from_micros(-1));
    match low {
        Err(ColoringError::InvalidProperty(m)) => {
            assert_eq!(m, "Alpha value must be between 0. and 1.");
        }
        _ => panic!("an alpha below zero must be rejected"),
    }
    let high = AlphaColor::rgba(1, 2, 3, Fraction::from_micros(1_000_001));
    assert!(matches!(high, Err(ColoringError::InvalidProperty(_))));
}

#[test]
fn with_alpha_accepts_unit_range() {
    let c = SolidColor::rgb(4, 5, 6);
    let a = c.with_alpha(Fraction::from_micros(250_000)).unwrap();
    assert_eq!(a.as_rgba(), (4, 5, 6, Fraction::from_micros(250_000)));
}

#[test]
fn with_alpha_rejects_out_of_range_alpha() {
    let c = SolidColor::rgb(4, 5, 6);
    let e = c.with_alpha(Fraction::from_micros(2_000_000));
    match e {
        Err(ColoringError::CantConvert(m)) => {
            assert_eq!(m, "The property Alpha value must be between 0. and 1. is invalid.");
        }
        _ => panic!("an alpha above one must be rejected"),
    }
}

#[test]
fn rgba_css_prop_whole_alpha() {
    let a = AlphaColor::rgba(1, 2, 3, Fraction::one()).unwrap();
    assert_eq!(a.to_css_prop(), "rgba(1,2,3,1)");
    let b = AlphaColor::rgba(1, 2, 3, Fraction::zero()).unwrap();
    assert_eq!(b.to_css_prop(), "rgba(1,2,3,0)");
}

#[test]
fn rgba_css_prop_fractional_alpha() {
    let a = AlphaColor::rgba(10, 20, 30, Fraction::from_micros(500_000)).unwrap();
    assert_eq!(a.to_css_prop(), "rgba(10,20,30,0.5)");
    let b = AlphaColor::rgba(10, 20, 30, Fraction::from_micros(250_000)).unwrap();
    assert_eq!(b.to_css_prop(), "rgba(10,20,30,0.25)");
    let c = AlphaColor::rgba(10, 20, 30, Fraction::from_micros(123_456)).unwrap();
    assert_eq!(c.to_css_prop(), "rgba(10,20,30,0.123456)");
    let d = AlphaColor::rgba(10, 20, 30, Fraction::from_micros(10)).unwrap();
    assert_eq!(d.to_css_prop(), "rgba(10,20,30,0.00001)");
}

#[test]
fn transparent_is_clear_black() {
    assert_eq!(transparent().to_css_prop(), "rgba(0,0,0,0)");
}

#[test]
fn palette_values() {
    assert_eq!(black().as_rgb(), (0, 0, 0));
    assert_eq!(red().as_rgb(), (255, 0, 0));
    assert_eq!(green().as_rgb(), (0, 255, 0));
    assert_eq!(blue().as_rgb(), (0, 0, 255));
    assert_eq!(white().as_rgb(), (255, 255, 255));
    assert_eq!(gray().as_rgb(), (128, 128, 128));
    assert_eq!(yellow().as_rgb(), (255, 255, 0));
    assert_eq!(cyan().as_rgb(), (0, 255, 255));
    assert_eq!(magenta().as_rgb(), (255, 0, 255));
}

#[test]
fn uniform_eq_solid_and_full_alpha() {
    let solid = UniformColor::Solid(SolidColor::rgb(10, 20, 30));
    let alpha = UniformColor::Alpha(AlphaColor::rgba(10, 20, 30, Fraction::one()).unwrap());
    assert!(alpha == solid);
    assert!(solid == alpha);
}

#[test]
fn uniform_eq_rejects_partial_alpha() {
    let solid = UniformColor::Solid(SolidColor::rgb(10, 20, 30));
    let almost = UniformColor::Alpha(
        AlphaColor::rgba(10, 20, 30, Fraction::from_micros(990_000)).unwrap(),
    );
    assert!(!(almost == solid));
    assert!(!(solid == almost));
}

#[test]
fn uniform_eq_same_variant() {
    let a = UniformColor::Solid(SolidColor::rgb(1, 2, 3));
    let b = UniformColor::Solid(SolidColor::rgb(1, 2, 3));
    let c = UniformColor::Solid(SolidColor::rgb(1, 2, 4));
    assert!(a == b);
    assert!(!(a == c));
    let x = UniformColor::Alpha(AlphaColor::rgba(1, 2, 3, Fraction::one()).unwrap());
    let y = UniformColor::Alpha(AlphaColor::rgba(1, 2, 3, Fraction::one()).unwrap());
    let z = UniformColor::Alpha(AlphaColor::rgba(1, 2, 3, Fraction::zero()).unwrap());
    assert!(x == y);
    assert!(!(x == z));
}

#[test]
fn uniform_css_prop_dispatches() {
    let solid = UniformColor::Solid(SolidColor::rgb(1, 2, 3));
    assert_eq!(solid.to_css_prop(), "rgb(1,2,3)");
    let alpha = UniformColor::Alpha(AlphaColor::rgba(1, 2, 3, Fraction::one()).unwrap());
    assert_eq!(alpha.to_css_prop(), "rgba(1,2,3,1)");
}

#[test]
fn css_prop_is_idempotent() {
    let c = SolidColor::rgb(12, 34, 56);
    assert_eq!(c.to_css_prop(), c.to_css_prop());
    let a = AlphaColor::rgba(12, 34, 56, Fraction::from_micros(730_000)).unwrap();
    assert_eq!(a.to_css_prop(), a.to_css_prop());
}

#[test]
fn error_messages() {
    let p = ColoringError::property(String::from("radius"));
    assert_eq!(p.message(), "The property radius is invalid.");
    let c = ColoringError::conversion(String::from("bad hue"));
    assert_eq!(c.message(), "An error occurred during a color conversion: bad hue");
}
