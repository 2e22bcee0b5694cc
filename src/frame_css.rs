use vstd::arithmetic::div_mod::{lemma_div_is_ordered, lemma_div_is_ordered_by_denominator};
use vstd::prelude::*;
use vstd::string::StringExecFns;

use crate::decls::{put, upsert, upsert_all, DeclSeq, Declarations};
use crate::layout::{LayoutAlign, LayoutAlignContent, LayoutAlignItems, LayoutMode, LayoutSizingMode, LayoutWrap};
use crate::model::{Frame, Rectangle};
use crate::num::{decimal_text, int_chars, int_text, round_div, round_div_exec, Num, SCALE};
use crate::paint::{coord_or_zero, first_solid_rgba, rgba_text, solid_text, Effect, EffectType};
use crate::text::string_of_chars;

verus! {

/// pi * 10^18, rounded: the angle of a half turn in the units that rotations use.
pub const PI_E18: i128 = 3141592653589793238;

/// A quantity in pixels: `8px`, `0.5px`.
pub open spec fn px_text(n: Num) -> Seq<char> {
    decimal_text(n.micros as int) + "px"@
}

/// A quantity in pixels where it is present; empty where it is not.
pub open spec fn opt_px(o: Option<Num>) -> Seq<char> {
    match o {
        Some(n) => px_text(n),
        None => Seq::empty(),
    }
}

/// A rotation of `r` (in millionths of a radian) in whole degrees, rounded to
/// the nearest, halves away from zero.
pub open spec fn rotation_degrees(r: Num) -> int {
    round_div(r.micros * 180 * 1000000000000, PI_E18 as int)
}

/// `rotate(Ndeg)`, empty where no rotation is set or it rounds to 0 degrees.
pub open spec fn rotation_text(o: Option<Num>) -> Seq<char> {
    match o {
        Some(r) => if rotation_degrees(r) == 0 {
            Seq::empty()
        } else {
            "rotate("@ + int_text(rotation_degrees(r)) + "deg)"@
        },
        None => Seq::empty(),
    }
}

/// Corner radii in CSS shorthand: two values where opposite corners agree,
/// three where only top-right and bottom-left agree, else four.
pub open spec fn radii_text(o: Option<[Num; 4]>) -> Seq<char> {
    match o {
        Some(rr) => {
            let (a, b, c, d) = (rr@[0], rr@[1], rr@[2], rr@[3]);
            if a == c && b == d {
                px_text(a) + " "@ + px_text(b)
            } else if b == d {
                px_text(a) + " "@ + px_text(b) + " "@ + px_text(c)
            } else {
                px_text(a) + " "@ + px_text(b) + " "@ + px_text(c) + " "@ + px_text(d)
            }
        },
        None => Seq::empty(),
    }
}

/// The uniform corner radius where set, else the per-corner radii.
pub open spec fn border_radius_text(f: &Frame) -> Seq<char> {
    if f.corner_radius.is_some() {
        opt_px(f.corner_radius)
    } else {
        radii_text(f.rectangle_corner_radii)
    }
}

/// Padding in CSS shorthand (top right bottom left), as short as it can be.
pub open spec fn padding_text(top: Num, right: Num, bottom: Num, left: Num) -> Seq<char> {
    if top == bottom && right == left && top == right {
        px_text(top)
    } else if top == bottom && right == left {
        px_text(top) + " "@ + px_text(right)
    } else if right == left {
        px_text(top) + " "@ + px_text(right) + " "@ + px_text(bottom)
    } else {
        px_text(top) + " "@ + px_text(right) + " "@ + px_text(bottom) + " "@ + px_text(left)
    }
}

/// Width of the bounding box in pixels; empty where it is absent.
pub open spec fn box_width(b: Option<Rectangle>) -> Seq<char> {
    match b {
        Some(rec) => opt_px(rec.width),
        None => Seq::empty(),
    }
}

/// Height of the bounding box in pixels; empty where it is absent.
pub open spec fn box_height(b: Option<Rectangle>) -> Seq<char> {
    match b {
        Some(rec) => opt_px(rec.height),
        None => Seq::empty(),
    }
}

/// `wrap` where children wrap, else empty.
pub open spec fn wrap_text(w: LayoutWrap) -> Seq<char> {
    if w == LayoutWrap::Wrap { "wrap"@ } else { Seq::empty() }
}

/// `align-items` value for the counter axis; empty for space-between.
pub open spec fn align_items_text(a: LayoutAlignItems) -> Seq<char> {
    match a {
        LayoutAlignItems::Center => "center"@,
        LayoutAlignItems::Max => "flex-end"@,
        LayoutAlignItems::SpaceBetween => Seq::empty(),
        LayoutAlignItems::Baseline => "baseline"@,
        LayoutAlignItems::Min => "flex-start"@,
    }
}

/// `justify-content` value for the primary axis.
pub open spec fn justify_text(a: LayoutAlignItems) -> Seq<char> {
    match a {
        LayoutAlignItems::Center => "center"@,
        LayoutAlignItems::Max => "flex-end"@,
        LayoutAlignItems::SpaceBetween => "space-between"@,
        _ => "flex-start"@,
    }
}

/// Alignment declarations of an auto-layout frame.
pub open spec fn alignment_of(f: &Frame) -> DeclSeq {
    let s1 = put(DeclSeq::empty(), "align-items"@, align_items_text(f.counter_axis_align_items));
    let s2 = put(s1, "justify-content"@, justify_text(f.primary_axis_align_items));
    if f.counter_axis_align_content == LayoutAlignContent::SpaceBetween && f.layout_wrap
        == LayoutWrap::Wrap {
        upsert(s2, "align-content"@, "space-between"@)
    } else {
        s2
    }
}

/// Sizing of a free-form frame inside an auto-layout parent.
pub open spec fn flex_child_sizes(s: DeclSeq, f: &Frame) -> DeclSeq {
    let hfill = f.layout_sizing_horizontal == LayoutSizingMode::Fill;
    let c1 = if f.layout_sizing_horizontal == LayoutSizingMode::Fixed {
        put(s, "width"@, box_width(f.absolute_bounding_box))
    } else {
        s
    };
    let c2 = if !hfill && f.layout_grow.micros == 0 {
        upsert(c1, "flex-shrink"@, "0"@)
    } else {
        c1
    };
    let c3 = if hfill {
        if f.layout_align == LayoutAlign::Stretch {
            upsert(c2, "align-self"@, "stretch"@)
        } else {
            upsert(c2, "flex"@, "1 0 0"@)
        }
    } else {
        c2
    };
    let c4 = if f.layout_sizing_vertical == LayoutSizingMode::Fixed {
        put(c3, "height"@, box_height(f.absolute_bounding_box))
    } else {
        c3
    };
    if f.layout_sizing_vertical == LayoutSizingMode::Fill {
        if f.layout_grow.micros == SCALE {
            upsert(c4, "flex"@, "1 0 0"@)
        } else {
            upsert(c4, "align-self"@, "stretch"@)
        }
    } else {
        c4
    }
}

/// Size of an auto-layout frame along one axis.
pub open spec fn axis_size(s: DeclSeq, k: Seq<char>, m: LayoutSizingMode, fixed: Seq<char>) -> DeclSeq {
    match m {
        LayoutSizingMode::Hug => upsert(s, k, "fit-content"@),
        LayoutSizingMode::Fixed => put(s, k, fixed),
        LayoutSizingMode::Fill => upsert(s, k, "100%"@),
    }
}

/// Size declarations of frame `f` whose parent is `p`.
pub open spec fn sizes_of(f: &Frame, p: &Frame) -> DeclSeq {
    let s1 = put(DeclSeq::empty(), "min-width"@, opt_px(f.min_width));
    let s2 = put(s1, "max-width"@, opt_px(f.max_width));
    let s3 = put(s2, "min-height"@, opt_px(f.min_height));
    let s4 = put(s3, "max-height"@, opt_px(f.max_height));
    if f.layout_mode == LayoutMode::NoLayout {
        if p.layout_mode != LayoutMode::NoLayout {
            flex_child_sizes(s4, f)
        } else {
            put(put(s4, "width"@, box_width(f.absolute_bounding_box)), "height"@, box_height(f.absolute_bounding_box))
        }
    } else {
        let w = axis_size(s4, "width"@, f.layout_sizing_horizontal, box_width(f.absolute_bounding_box));
        axis_size(w, "height"@, f.layout_sizing_vertical, box_height(f.absolute_bounding_box))
    }
}

/// `dashed` where the stroke has dashes, else `solid`.
pub open spec fn border_style_text(f: &Frame) -> Seq<char> {
    if f.stroke_dashes.is_some() { "dashed"@ } else { "solid"@ }
}

/// One border declaration value: width, style and colour.
pub open spec fn border_value(w: Seq<char>, style: Seq<char>, colour: Seq<char>) -> Seq<char> {
    w + " "@ + style + " "@ + colour
}

/// A border side, declared where its weight is positive and a colour resolves.
pub open spec fn border_side(s: DeclSeq, k: Seq<char>, w: Num, f: &Frame) -> DeclSeq {
    if w.micros > 0 && solid_text(f.strokes@).len() > 0 {
        upsert(s, k, border_value(px_text(w), border_style_text(f), solid_text(f.strokes@)))
    } else {
        s
    }
}

/// Per-side borders.
pub open spec fn border_individual_of(f: &Frame) -> DeclSeq {
    match f.individual_stroke_weights {
        Some(w) => border_side(
            border_side(
                border_side(border_side(DeclSeq::empty(), "border-top"@, w.top, f), "border-right"@, w.right, f),
                "border-bottom"@,
                w.bottom,
                f,
            ),
            "border-left"@,
            w.left,
            f,
        ),
        None => DeclSeq::empty(),
    }
}

/// The uniform border, where both its width and its colour resolve.
pub open spec fn border_all_of(f: &Frame) -> DeclSeq {
    if opt_px(f.stroke_weight).len() > 0 && solid_text(f.strokes@).len() > 0 {
        upsert(DeclSeq::empty(), "border"@, border_value(opt_px(f.stroke_weight), border_style_text(f), solid_text(f.strokes@)))
    } else {
        DeclSeq::empty()
    }
}

/// Per-side borders where there are any, else the uniform border.
pub open spec fn border_of(f: &Frame) -> DeclSeq {
    if border_individual_of(f).len() > 0 {
        border_individual_of(f)
    } else {
        border_all_of(f)
    }
}

/// One shadow: x and y offset, blur radius, spread and colour.
pub open spec fn shadow_text(e: Effect) -> Seq<char> {
    px_text(coord_or_zero(e.offset.x)) + " "@ + px_text(coord_or_zero(e.offset.y)) + " "@
        + px_text(e.radius) + " "@ + px_text(e.spread) + " "@ + rgba_text(e.color)
}

/// A visible drop or inner shadow.
pub open spec fn is_shadow(e: Effect) -> bool {
    e.visible && (e.effect_type == EffectType::DropShadow || e.effect_type == EffectType::InnerShadow)
}

/// A shadow as an item of `box-shadow`; inner shadows are marked `inset`.
pub open spec fn shadow_item(e: Effect) -> Seq<char> {
    if e.effect_type == EffectType::InnerShadow {
        "inset "@ + shadow_text(e)
    } else {
        shadow_text(e)
    }
}

/// The visible shadows of `es`, in order, joined with `, `.
pub open spec fn box_shadow_text(es: Seq<Effect>) -> Seq<char>
    decreases es.len(),
{
    if es.len() == 0 {
        Seq::empty()
    } else {
        let prev = box_shadow_text(es.drop_last());
        if is_shadow(es.last()) {
            if prev.len() == 0 {
                shadow_item(es.last())
            } else {
                prev + ", "@ + shadow_item(es.last())
            }
        } else {
            prev
        }
    }
}

/// Radius of the first visible effect of kind `k`.
pub open spec fn first_effect_radius(es: Seq<Effect>, k: EffectType) -> Option<Num>
    decreases es.len(),
{
    if es.len() == 0 {
        None
    } else {
        match first_effect_radius(es.drop_last(), k) {
            Some(r) => Some(r),
            None => if es.last().visible && es.last().effect_type == k {
                Some(es.last().radius)
            } else {
                None
            },
        }
    }
}

/// `blur(Npx)` of the first visible effect of kind `k`; empty where there is none.
pub open spec fn blur_text(es: Seq<Effect>, k: EffectType) -> Seq<char> {
    match first_effect_radius(es, k) {
        Some(r) => "blur("@ + px_text(r) + ")"@,
        None => Seq::empty(),
    }
}

/// Declarations that an auto-layout frame adds to `d`.
pub open spec fn auto_layout_decls(d: DeclSeq, f: &Frame) -> DeclSeq {
    let a1 = if f.node.visible { upsert(d, "display"@, "flex"@) } else { d };
    let a2 = put(a1, "flex-wrap"@, wrap_text(f.layout_wrap));
    let a3 = if f.layout_mode == LayoutMode::Vertical {
        upsert(a2, "flex-direction"@, "column"@)
    } else {
        a2
    };
    let a4 = upsert_all(a3, alignment_of(f));
    let a5 = put(a4, "gap"@, opt_px(f.item_spacing));
    upsert(a5, "padding"@, padding_text(f.padding_top, f.padding_right, f.padding_bottom, f.padding_left))
}

/// The CSS declarations of frame `f` laid out in parent `p`.
pub open spec fn frame_css_of(f: &Frame, p: &Frame) -> DeclSeq {
    let d1 = if !f.node.visible { upsert(DeclSeq::empty(), "display"@, "none"@) } else { DeclSeq::empty() };
    let d2 = if f.clips_content { upsert(d1, "overflow"@, "hidden"@) } else { d1 };
    let d3 = upsert_all(d2, sizes_of(f, p));
    let d4 = if f.layout_mode != LayoutMode::NoLayout { auto_layout_decls(d3, f) } else { d3 };
    let d5 = put(d4, "transform"@, rotation_text(f.rotation));
    let d6 = put(d5, "border-radius"@, border_radius_text(f));
    let d7 = upsert_all(d6, border_of(f));
    let d8 = put(d7, "background"@, solid_text(f.fills@));
    let d9 = put(d8, "box-shadow"@, box_shadow_text(f.effects@));
    let d10 = put(d9, "filter"@, blur_text(f.effects@, EffectType::LayerBlur));
    put(d10, "backdrop-filter"@, blur_text(f.effects@, EffectType::BackgroundBlur))
}

/// Text of `n` pixels.
pub fn px(n: Num) -> (r: String)
    ensures
        r@ == px_text(n),
{
    n.px()
}

/// Text of `o` pixels; empty where `o` is absent.
pub fn opt_px_string(o: Option<Num>) -> (r: String)
    ensures
        r@ == opt_px(o),
{
    match o {
        Some(n) => n.px(),
        None => String::new(),
    }
}

/// `a b` with one space between.
fn spaced(a: String, b: &String) -> (r: String)
    ensures
        r@ == a@ + " "@ + b@,
{
    a.concat(" ").concat(b.as_str())
}

/// `rotate(Ndeg)` text for a rotation of `r`.
fn rotation_string(r: Num) -> (out: String)
    ensures
        out@ == rotation_text(Some(r)),
{
    let n: i128 = (r.micros as i128) * 180000000000000;
    proof {
        let m: int = if n >= 0 { n as int } else { -(n as int) };
        assert(2 * m + PI_E18 <= 4000000000000000000000000000000000) by (nonlinear_arith)
            requires m <= 9223372036854775808 * 180000000000000, m >= 0;
        lemma_div_is_ordered_by_denominator(2 * m + PI_E18, 2000000000000000000, 2 * PI_E18);
        lemma_div_is_ordered(2 * m + PI_E18, 4000000000000000000000000000000000, 2000000000000000000);
    }
    let deg = round_div_exec(n, PI_E18);
    if deg == 0 {
        String::new()
    } else {
        let digits = string_of_chars(int_chars(deg as i64));
        String::from_str("rotate(").concat(digits.as_str()).concat("deg)")
    }
}

impl Frame {
    /// Text of the rotation in whole degrees: `rotate(-90deg)`; empty where
    /// none is set or it rounds to 0 degrees.
    pub fn rotation(&self) -> (r: String)
        ensures
            r@ == rotation_text(self.rotation),
    {
        match self.rotation {
            Some(x) => rotation_string(x),
            None => String::new(),
        }
    }

    /// Per-corner radii in shorthand, in top-left, top-right, bottom-right,
    /// bottom-left order: `1px 2px` where opposite corners agree,
    /// `1px 2px 3px` where only top-right and bottom-left agree, else four values.
    pub fn rectangle_corner_radii(&self) -> (r: String)
        ensures
            r@ == radii_text(self.rectangle_corner_radii),
    {
        match self.rectangle_corner_radii {
            Some(rr) => {
                let a = rr[0];
                let b = rr[1];
                let c = rr[2];
                let d = rr[3];
                if a == c && b == d {
                    spaced(px(a), &px(b))
                } else if b == d {
                    spaced(spaced(px(a), &px(b)), &px(c))
                } else {
                    spaced(spaced(spaced(px(a), &px(b)), &px(c)), &px(d))
                }
            },
            None => String::new(),
        }
    }

    /// The uniform corner radius in pixels; empty where unset.
    pub fn corner_radius(&self) -> (r: String)
        ensures
            r@ == opt_px(self.corner_radius),
    {
        opt_px_string(self.corner_radius)
    }

    /// The uniform corner radius where set, else the per-corner radii.
    pub fn border_radius(&self) -> (r: String)
        ensures
            r@ == border_radius_text(self),
    {
        if self.corner_radius.is_some() {
            self.corner_radius()
        } else {
            self.rectangle_corner_radii()
        }
    }

    /// Padding in shorthand: `8px` where all sides agree, `4px 8px` where top
    /// and bottom agree and left and right agree, three values where only left
    /// and right agree, else four (top right bottom left).
    pub fn padding(&self) -> (r: String)
        ensures
            r@ == padding_text(self.padding_top, self.padding_right, self.padding_bottom, self.padding_left),
    {
        let top = self.padding_top;
        let right = self.padding_right;
        let bottom = self.padding_bottom;
        let left = self.padding_left;
        if top == bottom && right == left && top == right {
            px(top)
        } else if top == bottom && right == left {
            spaced(px(top), &px(right))
        } else if right == left {
            spaced(spaced(px(top), &px(right)), &px(bottom))
        } else {
            spaced(spaced(spaced(px(top), &px(right)), &px(bottom)), &px(left))
        }
    }

    /// Width of the bounding box in pixels; empty where it is absent.
    pub fn width(&self) -> (r: String)
        ensures
            r@ == box_width(self.absolute_bounding_box),
    {
        match self.absolute_bounding_box {
            Some(rec) => opt_px_string(rec.width),
            None => String::new(),
        }
    }

    /// Height of the bounding box in pixels; empty where it is absent.
    pub fn height(&self) -> (r: String)
        ensures
            r@ == box_height(self.absolute_bounding_box),
    {
        match self.absolute_bounding_box {
            Some(rec) => opt_px_string(rec.height),
            None => String::new(),
        }
    }

    /// `wrap` where children wrap, else empty.
    pub fn layout_wrap(&self) -> (r: String)
        ensures
            r@ == wrap_text(self.layout_wrap),
    {
        match self.layout_wrap {
            LayoutWrap::Wrap => String::from_str("wrap"),
            LayoutWrap::NoWrap => String::new(),
        }
    }

    /// Item spacing in pixels; empty where unset.
    pub fn gap(&self) -> (r: String)
        ensures
            r@ == opt_px(self.item_spacing),
    {
        opt_px_string(self.item_spacing)
    }

    /// Colour of the first visible solid fill.
    pub fn background(&self) -> (r: String)
        ensures
            r@ == solid_text(self.fills@),
    {
        first_solid_rgba(&self.fills)
    }

    /// Colour of the first visible solid stroke.
    pub fn border_colour(&self) -> (r: String)
        ensures
            r@ == solid_text(self.strokes@),
    {
        first_solid_rgba(&self.strokes)
    }

    /// `dashed` where the stroke has dashes, else `solid`.
    pub fn border_style(&self) -> (r: String)
        ensures
            r@ == border_style_text(self),
    {
        if self.stroke_dashes.is_some() {
            String::from_str("dashed")
        } else {
            String::from_str("solid")
        }
    }

    /// Alignment declarations of an auto-layout frame.
    pub fn alignment(&self) -> (r: Declarations)
        ensures
            r@ == alignment_of(self),
    {
        let mut styles = Declarations::new();
        let align = match self.counter_axis_align_items {
            LayoutAlignItems::Center => String::from_str("center"),
            LayoutAlignItems::Max => String::from_str("flex-end"),
            LayoutAlignItems::SpaceBetween => String::new(),
            LayoutAlignItems::Baseline => String::from_str("baseline"),
            LayoutAlignItems::Min => String::from_str("flex-start"),
        };
        let justify = match self.primary_axis_align_items {
            LayoutAlignItems::Center => String::from_str("center"),
            LayoutAlignItems::Max => String::from_str("flex-end"),
            LayoutAlignItems::SpaceBetween => String::from_str("space-between"),
            _ => String::from_str("flex-start"),
        };
        styles.put("align-items", align);
        styles.put("justify-content", justify);
        if self.counter_axis_align_content == LayoutAlignContent::SpaceBetween && self.layout_wrap
            == LayoutWrap::Wrap {
            styles.insert("align-content", String::from_str("space-between"));
        }
        styles
    }

    /// Size declarations of the frame laid out in `parent`.
    pub fn sizes(&self, parent: &Frame) -> (r: Declarations)
        ensures
            r@ == sizes_of(self, parent),
    {
        let mut styles = Declarations::new();
        styles.put("min-width", opt_px_string(self.min_width));
        styles.put("max-width", opt_px_string(self.max_width));
        styles.put("min-height", opt_px_string(self.min_height));
        styles.put("max-height", opt_px_string(self.max_height));
        if self.layout_mode.is_none() {
            if parent.layout_mode.is_auto_layout() {
                let hfill = self.layout_sizing_horizontal == LayoutSizingMode::Fill;
                if self.layout_sizing_horizontal == LayoutSizingMode::Fixed {
                    styles.put("width", self.width());
                }
                if !hfill && self.layout_grow.micros == 0 {
                    styles.insert("flex-shrink", String::from_str("0"));
                }
                if hfill {
                    if self.layout_align == LayoutAlign::Stretch {
                        styles.insert("align-self", String::from_str("stretch"));
                    } else {
                        styles.insert("flex", String::from_str("1 0 0"));
                    }
                }
                if self.layout_sizing_vertical == LayoutSizingMode::Fixed {
                    styles.put("height", self.height());
                }
                if self.layout_sizing_vertical == LayoutSizingMode::Fill {
                    if self.layout_grow.micros == SCALE {
                        styles.insert("flex", String::from_str("1 0 0"));
                    } else {
                        styles.insert("align-self", String::from_str("stretch"));
                    }
                }
            } else {
                styles.put("width", self.width());
                styles.put("height", self.height());
            }
        } else {
            match self.layout_sizing_horizontal {
                LayoutSizingMode::Hug => styles.insert("width", String::from_str("fit-content")),
                LayoutSizingMode::Fixed => styles.put("width", self.width()),
                LayoutSizingMode::Fill => styles.insert("width", String::from_str("100%")),
            }
            match self.layout_sizing_vertical {
                LayoutSizingMode::Hug => styles.insert("height", String::from_str("fit-content")),
                LayoutSizingMode::Fixed => styles.put("height", self.height()),
                LayoutSizingMode::Fill => styles.insert("height", String::from_str("100%")),
            }
        }
        styles
    }

    /// Per-side borders: each side with a positive weight, where a stroke
    /// colour resolves.
    pub fn border_individual(&self) -> (r: Declarations)
        ensures
            r@ == border_individual_of(self),
    {
        let mut borders = Declarations::new();
        match self.individual_stroke_weights {
            Some(w) => {
                let colour = self.border_colour();
                let style = self.border_style();
                let has_colour = !colour.as_str().is_empty();
                if w.top.micros > 0 && has_colour {
                    borders.insert("border-top", spaced(spaced(px(w.top), &style), &colour));
                }
                if w.right.micros > 0 && has_colour {
                    borders.insert("border-right", spaced(spaced(px(w.right), &style), &colour));
                }
                if w.bottom.micros > 0 && has_colour {
                    borders.insert("border-bottom", spaced(spaced(px(w.bottom), &style), &colour));
                }
                if w.left.micros > 0 && has_colour {
                    borders.insert("border-left", spaced(spaced(px(w.left), &style), &colour));
                }
            },
            None => {},
        }
        borders
    }

    /// The uniform border, where both its width and its colour resolve.
    pub fn border_all(&self) -> (r: Declarations)
        ensures
            r@ == border_all_of(self),
    {
        let mut borders = Declarations::new();
        let width = opt_px_string(self.stroke_weight);
        let colour = self.border_colour();
        if !width.as_str().is_empty() && !colour.as_str().is_empty() {
            let style = self.border_style();
            borders.insert("border", spaced(spaced(width, &style), &colour));
        }
        borders
    }

    /// Per-side borders where there are any, else the uniform border.
    pub fn border(&self) -> (r: Declarations)
        ensures
            r@ == border_of(self),
    {
        let individual = self.border_individual();
        if individual.entries.len() > 0 {
            individual
        } else {
            self.border_all()
        }
    }

    /// One shadow: `Xpx Ypx Rpx Spx rgba(...)`.
    pub fn shadow(effect: &Effect) -> (r: String)
        ensures
            r@ == shadow_text(*effect),
    {
        let x = effect.offset.x();
        let y = effect.offset.y();
        spaced(spaced(spaced(spaced(px(x), &px(y)), &px(effect.radius)), &px(effect.spread)), &effect.color.rgba())
    }

    /// The visible drop and inner shadows, in order, joined with `, `; inner
    /// shadows are marked `inset`.
    pub fn box_shadow(&self) -> (r: String)
        ensures
            r@ == box_shadow_text(self.effects@),
    {
        effects_box_shadow(&self.effects)
    }

    /// `blur(Npx)` of the first visible layer blur.
    pub fn blur(&self) -> (r: String)
        ensures
            r@ == blur_text(self.effects@, EffectType::LayerBlur),
    {
        first_blur(&self.effects, EffectType::LayerBlur)
    }

    /// `blur(Npx)` of the first visible background blur.
    pub fn background_blur(&self) -> (r: String)
        ensures
            r@ == blur_text(self.effects@, EffectType::BackgroundBlur),
    {
        first_blur(&self.effects, EffectType::BackgroundBlur)
    }

    /// The CSS declarations of the frame laid out in `parent`.
    pub fn css(&self, parent: &Frame) -> (r: Declarations)
        ensures
            r@ == frame_css_of(self, parent),
    {
        let mut rules = Declarations::new();
        if !self.node.visible {
            rules.insert("display", String::from_str("none"));
        }
        if self.clips_content {
            rules.insert("overflow", String::from_str("hidden"));
        }
        rules.extend(self.sizes(parent));
        if self.layout_mode.is_auto_layout() {
            if self.node.visible {
                rules.insert("display", String::from_str("flex"));
            }
            rules.put("flex-wrap", self.layout_wrap());
            if self.layout_mode.is_vertical() {
                rules.insert("flex-direction", String::from_str("column"));
            }
            rules.extend(self.alignment());
            rules.put("gap", self.gap());
            rules.insert("padding", self.padding());
        }
        rules.put("transform", self.rotation());
        rules.put("border-radius", self.border_radius());
        rules.extend(self.border());
        rules.put("background", self.background());
        rules.put("box-shadow", self.box_shadow());
        rules.put("filter", self.blur());
        rules.put("backdrop-filter", self.background_blur());
        rules
    }
}

/// The visible drop and inner shadows of `effects`, joined with `, `.
pub fn effects_box_shadow(effects: &Vec<Effect>) -> (r: String)
    ensures
        r@ == box_shadow_text(effects@),
{
    let mut out = String::new();
    let mut i: usize = 0;
    while i < effects.len()
        invariant
            i <= effects@.len(),
            out@ == box_shadow_text(effects@.subrange(0, i as int)),
        decreases effects@.len() - i,
    {
        assert(effects@.subrange(0, i + 1).drop_last() == effects@.subrange(0, i as int));
        let e = &effects[i];
        if e.visible && (e.effect_type == EffectType::DropShadow || e.effect_type
            == EffectType::InnerShadow) {
            let item = if e.effect_type == EffectType::InnerShadow {
                String::from_str("inset ").concat(Frame::shadow(e).as_str())
            } else {
                Frame::shadow(e)
            };
            if out.as_str().is_empty() {
                out = item;
            } else {
                out = out.concat(", ").concat(item.as_str());
            }
        }
        i = i + 1;
    }
    assert(effects@.subrange(0, i as int) == effects@);
    out
}

/// `blur(Npx)` of the first visible effect of kind `kind`; empty where there is none.
pub fn first_blur(effects: &Vec<Effect>, kind: EffectType) -> (r: String)
    ensures
        r@ == blur_text(effects@, kind),
{
    let mut found: Option<Num> = None;
    let mut i: usize = 0;
    while i < effects.len()
        invariant
            i <= effects@.len(),
            found == first_effect_radius(effects@.subrange(0, i as int), kind),
        decreases effects@.len() - i,
    {
        assert(effects@.subrange(0, i + 1).drop_last() == effects@.subrange(0, i as int));
        if found.is_none() && effects[i].visible && effects[i].effect_type == kind {
            found = Some(effects[i].radius);
        }
        i = i + 1;
    }
    assert(effects@.subrange(0, i as int) == effects@);
    match found {
        Some(r) => String::from_str("blur(").concat(px(r).as_str()).concat(")"),
        None => String::new(),
    }
}

} // verus!
