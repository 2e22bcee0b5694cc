use figma_css::decls::Declarations;
use figma_css::layout::{LayoutAlignItems, LayoutMode, LayoutSizingMode, LayoutWrap};
use figma_css::model::{Frame, Rectangle, StrokeWeights, TypeStyle, VectorCommon, NodeCommon};
use figma_css::num::Num;
use figma_css::paint::{Colour, Effect, EffectType, Paint, PaintData, Vector};
use figma_css::layout::{BlendMode, TextAlignHorizontal, TextCase, TextDecoration, TextTruncation};

fn n(v: i64) -> Num {
    Num { micros: v * 1_000_000 }
}

/// A decimal number as the library holds it, in millionths.
fn f(x: f32) -> Num {
    Num { micros: (f64::from(x) * 1_000_000.0).round() as i64 }
}

fn micros(v: i64) -> Num {
    Num { micros: v }
}

fn get(d: &Declarations, key: &str) -> Option<String> {
    d.entries.iter().find(|(k, _)| k == key).map(|(_, v)| v.clone())
}

fn keys(d: &Declarations) -> Vec<String> {
    d.entries.iter().map(|(k, _)| k.clone()).collect()
}

fn solid(a: i64, r: i64, g: i64, b: i64) -> Paint {
    Paint {
        visible: true,
        opacity: n(1),
        data: PaintData::Solid { color: Colour { a: micros(a), r: micros(r), g: micros(g), b: micros(b) } },
    }
}

#[test]
fn is_transparent() {
    assert!(Colour { a: f(0.0), r: f(0.0), g: f(0.0), b: f(0.0) }.is_transparent());
    assert!(!Colour { a: f(1.0), r: f(0.0), g: f(0.0), b: f(0.0) }.is_transparent());
}

#[test]
fn rgba() {
    assert_eq!(Colour { a: f(0.0), r: f(0.0), g: f(0.0), b: f(0.0) }.rgba(), "rgba(0,0,0,0)");
    assert_eq!(Colour { a: f(0.5), r: f(0.1), g: f(0.2), b: f(0.3) }.rgba(), "rgba(25.5,51,76.5,0.5)");
}

#[test]
fn rectangle_corner_radii() {
    /* top-left | top-right | bottom-right | bottom-left */
    assert_eq!(
        Frame { rectangle_corner_radii: Some([f(1.0), f(2.0), f(3.0), f(4.0)]), ..Frame::default() }
            .rectangle_corner_radii(),
        "1px 2px 3px 4px"
    );
    /* top-left-and-bottom-right | top-right-and-bottom-left */
    assert_eq!(
        Frame { rectangle_corner_radii: Some([f(1.0), f(2.0), f(1.0), f(2.0)]), ..Frame::default() }
            .rectangle_corner_radii(),
        "1px 2px"
    );
    /* top-left | top-right-and-bottom-left | bottom-right */
    assert_eq!(
        Frame { rectangle_corner_radii: Some([f(1.0), f(2.0), f(3.0), f(2.0)]), ..Frame::default() }
            .rectangle_corner_radii(),
        "1px 2px 3px"
    );
}

#[test]
fn rotation() {
    assert_eq!(Frame { rotation: Some(f(-1.5707964)), ..Frame::default() }.rotation(), "rotate(-90deg)");
    assert_eq!(Frame { rotation: Some(f(-0.7853982)), ..Frame::default() }.rotation(), "rotate(-45deg)");
    // very close to 0, so no rotation
    assert_eq!(Frame { rotation: Some(f(-5.551115e-17)), ..Frame::default() }.rotation(), "");
}

#[test]
fn rotation_rounding_to_zero_and_unset() {
    // 0.008 rad is about 0.46 degrees
    assert_eq!(Frame { rotation: Some(micros(8_000)), ..Frame::default() }.rotation(), "");
    assert_eq!(Frame::default().rotation(), "");
    // pi rad
    assert_eq!(Frame { rotation: Some(micros(3_141_593)), ..Frame::default() }.rotation(), "rotate(180deg)");
    // 0.5 rad is 28.65 degrees
    assert_eq!(Frame { rotation: Some(micros(500_000)), ..Frame::default() }.rotation(), "rotate(29deg)");
}

#[test]
fn corner_radii_equal_corners_give_two_values() {
    assert_eq!(
        Frame { rectangle_corner_radii: Some([n(5), n(5), n(5), n(5)]), ..Frame::default() }.rectangle_corner_radii(),
        "5px 5px"
    );
    assert_eq!(Frame::default().rectangle_corner_radii(), "");
}

#[test]
fn border_radius_prefers_uniform_radius() {
    let f = Frame {
        corner_radius: Some(micros(2_500_000)),
        rectangle_corner_radii: Some([n(1), n(2), n(3), n(4)]),
        ..Frame::default()
    };
    assert_eq!(f.border_radius(), "2.5px");
}

#[test]
fn padding_shorthand() {
    let all = Frame { padding_top: n(8), padding_right: n(8), padding_bottom: n(8), padding_left: n(8), ..Frame::default() };
    assert_eq!(all.padding(), "8px");
    let two = Frame { padding_top: n(4), padding_right: n(8), padding_bottom: n(4), padding_left: n(8), ..Frame::default() };
    assert_eq!(two.padding(), "4px 8px");
    let three = Frame { padding_top: n(1), padding_right: n(2), padding_bottom: n(3), padding_left: n(2), ..Frame::default() };
    assert_eq!(three.padding(), "1px 2px 3px");
    let four = Frame { padding_top: n(1), padding_right: n(2), padding_bottom: n(3), padding_left: n(4), ..Frame::default() };
    assert_eq!(four.padding(), "1px 2px 3px 4px");
}

#[test]
fn decimal_text_of_quantities() {
    assert_eq!(micros(-125_000).text(), "-0.125");
    assert_eq!(micros(12_000_000).px(), "12px");
    assert_eq!(micros(1).text(), "0.000001");
    assert_eq!(micros(-3_000_000).text(), "-3");
}

#[test]
fn background_uses_first_visible_solid() {
    let hidden = Paint { visible: false, ..solid(1_000_000, 1_000_000, 0, 0) };
    let f = Frame { fills: vec![hidden, solid(1_000_000, 0, 1_000_000, 0), solid(1_000_000, 0, 0, 1_000_000)], ..Frame::default() };
    assert_eq!(f.background(), "rgba(0,255,0,1)");
    assert_eq!(Frame::default().background(), "");
}

#[test]
fn auto_layout_frame_css() {
    let f = Frame {
        layout_mode: LayoutMode::Vertical,
        layout_wrap: LayoutWrap::Wrap,
        layout_sizing_horizontal: LayoutSizingMode::Hug,
        layout_sizing_vertical: LayoutSizingMode::Fill,
        counter_axis_align_items: LayoutAlignItems::Center,
        primary_axis_align_items: LayoutAlignItems::SpaceBetween,
        item_spacing: Some(n(10)),
        padding_top: n(4),
        padding_right: n(8),
        padding_bottom: n(4),
        padding_left: n(8),
        ..Frame::default()
    };
    let css = f.css(&Frame::default());
    assert_eq!(get(&css, "display").as_deref(), Some("flex"));
    assert_eq!(get(&css, "flex-direction").as_deref(), Some("column"));
    assert_eq!(get(&css, "flex-wrap").as_deref(), Some("wrap"));
    assert_eq!(get(&css, "width").as_deref(), Some("fit-content"));
    assert_eq!(get(&css, "height").as_deref(), Some("100%"));
    assert_eq!(get(&css, "align-items").as_deref(), Some("center"));
    assert_eq!(get(&css, "justify-content").as_deref(), Some("space-between"));
    assert_eq!(get(&css, "gap").as_deref(), Some("10px"));
    assert_eq!(get(&css, "padding").as_deref(), Some("4px 8px"));
    assert_eq!(get(&css, "align-content"), None);
}

#[test]
fn hidden_clipped_frame_in_free_layout() {
    let f = Frame {
        node: NodeCommon { id: String::new(), name: String::new(), visible: false, children: vec![] },
        clips_content: true,
        absolute_bounding_box: Some(Rectangle { x: None, y: None, width: Some(n(100)), height: None }),
        ..Frame::default()
    };
    let css = f.css(&Frame::default());
    assert_eq!(keys(&css), vec!["display", "overflow", "width"]);
    assert_eq!(get(&css, "display").as_deref(), Some("none"));
    assert_eq!(get(&css, "width").as_deref(), Some("100px"));
}

#[test]
fn child_of_auto_layout_sizes() {
    let parent = Frame { layout_mode: LayoutMode::Horizontal, ..Frame::default() };
    let fill = Frame { layout_sizing_horizontal: LayoutSizingMode::Fill, layout_sizing_vertical: LayoutSizingMode::Hug, ..Frame::default() };
    let css = fill.sizes(&parent);
    assert_eq!(get(&css, "flex").as_deref(), Some("1 0 0"));
    assert_eq!(get(&css, "flex-shrink"), None);
    let fixed = Frame {
        absolute_bounding_box: Some(Rectangle { x: None, y: None, width: Some(n(20)), height: Some(n(30)) }),
        ..Frame::default()
    };
    let css = fixed.sizes(&parent);
    assert_eq!(get(&css, "width").as_deref(), Some("20px"));
    assert_eq!(get(&css, "height").as_deref(), Some("30px"));
    assert_eq!(get(&css, "flex-shrink").as_deref(), Some("0"));
}

#[test]
fn borders() {
    let uniform = Frame { strokes: vec![solid(1_000_000, 0, 0, 0)], stroke_weight: Some(n(1)), ..Frame::default() };
    assert_eq!(get(&uniform.border(), "border").as_deref(), Some("1px solid rgba(0,0,0,1)"));
    let sides = Frame {
        strokes: vec![solid(1_000_000, 0, 0, 0)],
        stroke_weight: Some(n(1)),
        stroke_dashes: Some(vec![n(2)]),
        individual_stroke_weights: Some(StrokeWeights { top: n(2), right: n(0), bottom: n(0), left: n(3) }),
        ..Frame::default()
    };
    let b = sides.border();
    assert_eq!(keys(&b), vec!["border-top", "border-left"]);
    assert_eq!(get(&b, "border-left").as_deref(), Some("3px dashed rgba(0,0,0,1)"));
    let no_colour = Frame { stroke_weight: Some(n(1)), ..Frame::default() };
    assert!(no_colour.border().entries.is_empty());
}

fn effect(kind: EffectType, radius: i64) -> Effect {
    Effect {
        effect_type: kind,
        visible: true,
        radius: n(radius),
        color: Colour { a: micros(250_000), r: n(0), g: n(0), b: n(0) },
        blend_mode: BlendMode::Normal,
        offset: Vector { x: Some(n(1)), y: None },
        spread: n(0),
    }
}

#[test]
fn shadows_and_blurs() {
    let f = Frame {
        effects: vec![
            effect(EffectType::LayerBlur, 4),
            effect(EffectType::DropShadow, 2),
            Effect { visible: false, ..effect(EffectType::BackgroundBlur, 9) },
            effect(EffectType::InnerShadow, 3),
            effect(EffectType::BackgroundBlur, 6),
            effect(EffectType::LayerBlur, 7),
        ],
        ..Frame::default()
    };
    assert_eq!(f.box_shadow(), "1px 0px 2px 0px rgba(0,0,0,0.25), inset 1px 0px 3px 0px rgba(0,0,0,0.25)");
    assert_eq!(f.blur(), "blur(4px)");
    assert_eq!(f.background_blur(), "blur(6px)");
    let css = f.css(&Frame::default());
    assert_eq!(get(&css, "filter").as_deref(), Some("blur(4px)"));
    assert_eq!(get(&css, "backdrop-filter").as_deref(), Some("blur(6px)"));
}

fn vector(name: &str) -> VectorCommon {
    VectorCommon {
        node: NodeCommon { id: "1:2".to_string(), name: name.to_string(), visible: true, children: vec![] },
        min_width: None,
        max_width: Some(n(200)),
        min_height: None,
        max_height: None,
        absolute_bounding_box: None,
        layout_sizing_horizontal: LayoutSizingMode::Fill,
        layout_sizing_vertical: LayoutSizingMode::Hug,
        effects: vec![],
        fills: vec![solid(1_000_000, 1_000_000, 1_000_000, 1_000_000)],
        strokes: vec![],
        stroke_weight: None,
        styles: vec![],
    }
}

#[test]
fn text_css() {
    let style = TypeStyle {
        font_family: "Inter".to_string(),
        font_weight: n(600),
        font_size: micros(15_500_000),
        text_case: TextCase::SmallCaps,
        text_decoration: TextDecoration::Underline,
        text_truncation: TextTruncation::Ending,
        max_lines: Some(n(2)),
        text_align_horizontal: TextAlignHorizontal::Center,
        letter_spacing: n(0),
        line_height_percent_font_size: n(150),
    };
    let css = vector("Label").css(&style);
    assert_eq!(get(&css, "color").as_deref(), Some("rgba(255,255,255,1)"));
    assert_eq!(get(&css, "font-family").as_deref(), Some("Inter"));
    assert_eq!(get(&css, "font-size").as_deref(), Some("16px"));
    assert_eq!(get(&css, "font-weight").as_deref(), Some("600"));
    assert_eq!(get(&css, "line-height").as_deref(), Some("1.5"));
    assert_eq!(get(&css, "letter-spacing"), None);
    assert_eq!(get(&css, "max-width").as_deref(), Some("200px"));
    assert_eq!(get(&css, "width").as_deref(), Some("100%"));
    assert_eq!(get(&css, "text-align").as_deref(), Some("center"));
    assert_eq!(get(&css, "text-decoration-line").as_deref(), Some("underline"));
    assert_eq!(get(&css, "font-variant").as_deref(), Some("small-caps"));
    assert_eq!(get(&css, "text-transform"), None);
    assert_eq!(get(&css, "text-overflow").as_deref(), Some("ellipsis"));
    assert_eq!(get(&css, "-webkit-line-clamp").as_deref(), Some("2"));
}

#[test]
fn line_height_defaults_to_one() {
    let style = TypeStyle {
        font_family: String::new(),
        font_weight: n(0),
        font_size: n(0),
        text_case: TextCase::Original,
        text_decoration: TextDecoration::NoDecoration,
        text_truncation: TextTruncation::Disabled,
        max_lines: None,
        text_align_horizontal: TextAlignHorizontal::Left,
        letter_spacing: n(0),
        line_height_percent_font_size: n(0),
    };
    assert_eq!(style.line_height(), n(1));
    assert_eq!(style.text_align(), "");
    let css = vector("Label").css(&style);
    assert_eq!(get(&css, "line-height").as_deref(), Some("1"));
    assert_eq!(get(&css, "font-family"), None);
}
