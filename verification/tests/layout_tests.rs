use paints::color::common::{blue, red};
use paints::color::gradient::Gradient;
use paints::color::paint::Paint;
use paints::color::solid_color::SolidColor;
use paints::color::{CssProp, UniformColor};
use paints::fraction::Fraction;
use paints::placement::rotation::Rotation;
use paints::placement::vector::Vec2;
use paints::style::{Stylable, Styled};
use paints::viewbox::ViewBox;

#[test]
fn linear_gradient_css() {
    let g = Gradient::linear(
        Rotation::degrees(Fraction::whole(90)),
        vec![
            (UniformColor::Solid(red()), Fraction::zero()),
            (UniformColor::Solid(blue()), Fraction::one()),
        ],
    );
    assert_eq!(g.to_css_prop(), "linear-gradient(90deg, rgb(255,0,0) 0%,rgb(0,0,255) 100%)");
}

#[test]
fn linear_gradient_empty_stops() {
    let g = Gradient::linear(Rotation::degrees(Fraction::whole(45)), vec![]);
    assert_eq!(g.to_css_prop(), "");
}

#[test]
fn linear_gradient_single_stop() {
    let g = Gradient::linear(
        Rotation::zero(),
        vec![(UniformColor::Solid(SolidColor::rgb(1, 2, 3)), Fraction::from_micros(500_000))],
    );
    assert_eq!(g.to_css_prop(), "linear-gradient(0deg, rgb(1,2,3) 50%)");
}

#[test]
fn linear_gradient_rounds_angle_and_stops() {
    let g = Gradient::linear(
        Rotation::degrees(Fraction::from_micros(89_500_000)),
        vec![(UniformColor::Solid(SolidColor::rgb(0, 0, 0)), Fraction::from_micros(345_000))],
    );
    assert_eq!(g.to_css_prop(), "linear-gradient(90deg, rgb(0,0,0) 35%)");
    let h = Gradient::linear(
        Rotation::degrees(Fraction::from_micros(89_499_999)),
        vec![(UniformColor::Solid(SolidColor::rgb(0, 0, 0)), Fraction::from_micros(344_999))],
    );
    assert_eq!(h.to_css_prop(), "linear-gradient(89deg, rgb(0,0,0) 34%)");
}

#[test]
fn linear_gradient_clamps_angle() {
    let negative = Gradient::linear(
        Rotation::degrees(Fraction::whole(-90)),
        vec![(UniformColor::Solid(SolidColor::rgb(0, 0, 0)), Fraction::zero())],
    );
    assert_eq!(negative.to_css_prop(), "linear-gradient(0deg, rgb(0,0,0) 0%)");
    let huge = Gradient::linear(
        Rotation::degrees(Fraction::whole(70_000)),
        vec![(UniformColor::Solid(SolidColor::rgb(0, 0, 0)), Fraction::zero())],
    );
    assert_eq!(huge.to_css_prop(), "linear-gradient(65535deg, rgb(0,0,0) 0%)");
}

#[test]
fn linear_gradient_negative_stop_offset() {
    let g = Gradient::linear(
        Rotation::zero(),
        vec![(UniformColor::Solid(SolidColor::rgb(0, 0, 0)), Fraction::from_micros(-500_000))],
    );
    assert_eq!(g.to_css_prop(), "linear-gradient(0deg, rgb(0,0,0) -50%)");
}

#[test]
fn linear_gradient_alpha_stop() {
    let g = Gradient::linear(
        Rotation::degrees(Fraction::whole(180)),
        vec![
            (
                UniformColor::Alpha(
                    SolidColor::rgb(9, 8, 7).with_alpha(Fraction::from_micros(500_000)).unwrap(),
                ),
                Fraction::from_micros(250_000),
            ),
            (UniformColor::Solid(SolidColor::rgb(1, 1, 1)), Fraction::one()),
        ],
    );
    assert_eq!(
        g.to_css_prop(),
        "linear-gradient(180deg, rgba(9,8,7,0.5) 25%,rgb(1,1,1) 100%)"
    );
}

#[test]
fn gradient_constructors_keep_their_parts() {
    let stops = vec![(UniformColor::Solid(red()), Fraction::zero())];
    match Gradient::linear(Rotation::quarter(), stops.clone()) {
        Gradient::Linear { colors, .. } => assert_eq!(colors.len(), 1),
        _ => panic!("linear must build the linear variant"),
    }
    match Gradient::radial(Vec2::new(Fraction::zero(), Fraction::one()), stops) {
        Gradient::Radial { center, colors } => {
            assert_eq!(center.x, Fraction::zero());
            assert_eq!(center.y, Fraction::one());
            assert_eq!(colors.len(), 1);
        }
        _ => panic!("radial must build the radial variant"),
    }
}

#[test]
fn paint_css_prop_dispatches() {
    let o = Paint::Opaque(SolidColor::rgb(1, 2, 3));
    assert_eq!(o.to_css_prop(), "rgb(1,2,3)");
    let a = Paint::Alpha(SolidColor::rgb(1, 2, 3).with_alpha(Fraction::one()).unwrap());
    assert_eq!(a.to_css_prop(), "rgba(1,2,3,1)");
    let g = Paint::Gradient(Gradient::linear(
        Rotation::zero(),
        vec![(UniformColor::Solid(SolidColor::rgb(1, 2, 3)), Fraction::one())],
    ));
    assert_eq!(g.to_css_prop(), "linear-gradient(0deg, rgb(1,2,3) 100%)");
}

#[test]
fn rotation_degree_constructors() {
    assert_eq!(Rotation::zero().as_degrees(), Fraction::zero());
    assert_eq!(Rotation::flip().as_degrees(), Fraction::whole(180));
    assert_eq!(Rotation::quarter().as_degrees(), Fraction::whole(90));
    assert_eq!(
        Rotation::degrees(Fraction::from_micros(12_500_000)).as_degrees(),
        Fraction::from_micros(12_500_000),
    );
}

#[test]
fn viewbox_new_and_accessors() {
    let v = ViewBox::new(-10, -20, 30, 40);
    assert_eq!(v.min_x(), -10);
    assert_eq!(v.min_y(), -20);
    assert_eq!(v.max_x(), 30);
    assert_eq!(v.max_y(), 40);
    assert_eq!(v.width(), 40);
    assert_eq!(v.height(), 60);
}

#[test]
fn viewbox_default_is_empty() {
    let v = ViewBox::default();
    assert_eq!(v.min_x, None);
    assert_eq!(v.min_x(), 0);
    assert_eq!(v.width(), 0);
}

#[test]
fn viewbox_add_combines_bounds() {
    let a = ViewBox::new(0, 0, 10, 10);
    let b = ViewBox::new(-5, 3, 7, 20);
    let c = a.add(&b);
    assert_eq!(c, ViewBox::new(-5, 0, 10, 20));
    let partial = ViewBox { min_x: Some(2), min_y: None, max_x: None, max_y: Some(1) };
    let d = partial.add(&ViewBox::default());
    assert_eq!(d, partial);
    let e = partial.add(&a);
    assert_eq!(e, ViewBox::new(0, 0, 10, 10));
}

#[test]
fn viewbox_with_margin() {
    let v = ViewBox::new(0, 1, 2, 3).with_margin(5);
    assert_eq!(v, ViewBox::new(-5, -4, 7, 8));
    let partial = ViewBox { min_x: Some(2), min_y: None, max_x: None, max_y: Some(1) }
        .with_margin(1);
    assert_eq!(partial, ViewBox { min_x: Some(1), min_y: None, max_x: None, max_y: Some(2) });
}

#[derive(Clone, Copy, PartialEq, Debug)]
struct Dot {
    x: i64,
    y: i64,
}

struct DotStyle {
    radius: i64,
}

impl Stylable for Dot {
    type StyleWith = DotStyle;

    fn with_style(&self, style: DotStyle) -> Styled<Dot> {
        Styled::new(*self, style)
    }
}

#[test]
fn styled_keeps_value_and_style() {
    let d = Dot { x: 1, y: 2 };
    let mut s = d.with_style(DotStyle { radius: 4 });
    assert_eq!(*s.inner(), d);
    assert_eq!(s.style().radius, 4);
    s.style_mut().radius = 9;
    assert_eq!(s.style().radius, 9);
    assert_eq!(*s.inner(), d);
}
