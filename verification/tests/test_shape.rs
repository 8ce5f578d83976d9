use commitcanvas::model::shape::options::{Color, Roughness, Thickness};
use commitcanvas::model::shape::text::FontSize;
use commitcanvas::model::{
    ArrowDetails, Options, PartialShapeConfig, RectDetails, ShapeConfig, ShapeDetails,
    TextDetails,
};
use commitcanvas::types::{Point, PointGrid};

fn base() -> ShapeConfig<i32> {
    ShapeConfig {
        start: Point { x: 1, y: 2 },
        end: Point { x: 3, y: 4 },
        details: ShapeDetails::Arrow(ArrowDetails::default()),
        options: Options::default(),
    }
}

#[test]
fn empty_patch_changes_nothing() {
    let mut shape = base();
    shape.update(PartialShapeConfig { start: None, end: None, details: None, options: None });
    assert_eq!(shape, base());
}

#[test]
fn each_present_field_is_overwritten() {
    let mut shape = base();
    shape.update(PartialShapeConfig {
        start: Some(Point { x: 10, y: 20 }),
        end: None,
        details: None,
        options: None,
    });
    assert_eq!(shape.start, Point { x: 10, y: 20 });
    assert_eq!(shape.end, Point { x: 3, y: 4 });

    shape.update(PartialShapeConfig {
        start: None,
        end: Some(Point { x: -5, y: -6 }),
        details: None,
        options: None,
    });
    assert_eq!(shape.start, Point { x: 10, y: 20 });
    assert_eq!(shape.end, Point { x: -5, y: -6 });

    let details = ShapeDetails::Rect(RectDetails { background: Color::Teal });
    shape.update(PartialShapeConfig {
        start: None,
        end: None,
        details: Some(details.clone()),
        options: None,
    });
    assert_eq!(shape.details, details);
    assert_eq!(shape.options, Options::default());

    let options = Options {
        stroke_color: Color::Red,
        roughness: Roughness::High,
        thickness: Thickness::Thick,
    };
    shape.update(PartialShapeConfig {
        start: None,
        end: None,
        details: None,
        options: Some(options.clone()),
    });
    assert_eq!(shape.options, options);
    assert_eq!(shape.details, details);
    assert_eq!(shape.end, Point { x: -5, y: -6 });
}

#[test]
fn whole_patch_replaces_everything() {
    let mut shape = base();
    let other = ShapeConfig {
        start: Point { x: 7, y: 7 },
        end: Point { x: 0, y: 0 },
        details: ShapeDetails::Text(TextDetails {
            content: String::from("note"),
            font_size: FontSize::Small,
        }),
        options: Options {
            stroke_color: Color::Blue,
            roughness: Roughness::Low,
            thickness: Thickness::Medium,
        },
    };
    shape.update(PartialShapeConfig {
        start: Some(other.start),
        end: Some(other.end),
        details: Some(other.details.clone()),
        options: Some(other.options.clone()),
    });
    assert_eq!(shape, other);
}

#[test]
fn defaults() {
    assert_eq!(Color::default(), Color::Transparent);
    assert_eq!(Roughness::default(), Roughness::Medium);
    assert_eq!(Thickness::default(), Thickness::Thin);
    assert_eq!(FontSize::default(), FontSize::Medium);
    assert_eq!(RectDetails::default().background, Color::Transparent);
    assert_eq!(TextDetails::default().content, "");
    assert_eq!(TextDetails::default().font_size, FontSize::Medium);
    let options = Options::default();
    assert_eq!(options.stroke_color, Color::Transparent);
    assert_eq!(options.roughness, Roughness::Medium);
    assert_eq!(options.thickness, Thickness::Thin);
}

#[test]
fn color_class_names() {
    let expected = [
        (Color::Transparent, "cc_fill_none"),
        (Color::Red, "cc_fill_red"),
        (Color::Organge, "cc_fill_orange"),
        (Color::Amber, "cc_fill_amber"),
        (Color::Yellow, "cc_fill_yellow"),
        (Color::Lime, "cc_fill_lime"),
        (Color::Green, "cc_fill_green"),
        (Color::Emerald, "cc_fill_emerald"),
        (Color::Teal, "cc_fill_teal"),
        (Color::Cyan, "cc_fill_cyan"),
        (Color::Sky, "cc_fill_sky"),
        (Color::Blue, "cc_fill_blue"),
        (Color::Indigo, "cc_fill_indigo"),
        (Color::Purple, "cc_fill_purple"),
        (Color::Fuchsia, "cc_fill_fuchsia"),
        (Color::Pink, "cc_fill_pink"),
        (Color::Rose, "cc_fill_rose"),
    ];
    for (color, name) in expected.iter() {
        let class: &'static str = color.into();
        assert_eq!(class, *name);
    }
}

#[test]
fn thickness_and_font_size_texts() {
    let thin: &'static str = (&Thickness::Thin).into();
    let medium: &'static str = (&Thickness::Medium).into();
    let thick: &'static str = (&Thickness::Thick).into();
    assert_eq!((thin, medium, thick), ("1.0", "2.0", "3.0"));

    let small: &'static str = (&FontSize::Small).into();
    let medium: &'static str = (&FontSize::Medium).into();
    let large: &'static str = (&FontSize::Large).into();
    assert_eq!((small, medium, large), ("12px", "16px", "24px"));
}

#[test]
fn grid_point_round_trip() {
    let point: PointGrid = (3, -4).into();
    assert_eq!(point, Point { x: 3, y: -4 });
    let copy = point;
    let pair: (i32, i32) = point.into();
    assert_eq!(pair, (3, -4));
    assert_eq!(copy.clone(), Point { x: 3, y: -4 });
}
