use vstd::prelude::*;
use vstd::string::StringExecFns;

use vstd::arithmetic::div_mod::lemma_div_is_ordered;

use crate::decls::{put, upsert, upsert_all, DeclSeq, Declarations};
use crate::frame_css::{box_height, box_shadow_text, box_width, effects_box_shadow, opt_px, opt_px_string};
use crate::layout::{LayoutSizingMode, TextAlignHorizontal, TextCase, TextDecoration, TextTruncation};
use crate::model::{TypeStyle, VectorCommon};
use crate::names::{kebab, kebab_of};
use crate::num::{decimal_chars, decimal_text, int_chars, int_text, round_div, round_div_exec, Num, SCALE};
use crate::paint::{first_solid_rgba, solid_text};
use crate::text::string_of_chars;

verus! {

/// `n` rounded to a whole number, halves away from zero.
pub open spec fn rounded_text(n: Num) -> Seq<char> {
    int_text(round_div(n.micros as int, SCALE as int))
}

/// Text of `n` rounded to a whole number: `16` for 15.5.
pub fn rounded(n: Num) -> (r: String)
    ensures
        r@ == rounded_text(n),
{
    let q = round_div_exec(n.micros as i128, 1000000);
    proof {
        let m: int = if n.micros >= 0 { n.micros as int } else { -(n.micros as int) };
        lemma_div_is_ordered(2 * m + 1000000, 20000000000000000000, 2000000);
    }
    string_of_chars(int_chars(q as i64))
}

/// Line height as a multiple of the font size: 1 where unset.
pub open spec fn line_height_of(t: &TypeStyle) -> Num {
    if t.line_height_percent_font_size.micros == 0 {
        Num { micros: SCALE }
    } else {
        let p = t.line_height_percent_font_size.micros as int;
        Num { micros: (if p >= 0 { p / 100 } else { -((-p) / 100) }) as i64 }
    }
}

pub open spec fn text_align_text(t: &TypeStyle) -> Seq<char> {
    match t.text_align_horizontal {
        TextAlignHorizontal::Right => "right"@,
        TextAlignHorizontal::Center => "center"@,
        TextAlignHorizontal::Justified => "justify"@,
        _ => Seq::empty(),
    }
}

pub open spec fn text_decoration_text(t: &TypeStyle) -> Seq<char> {
    match t.text_decoration {
        TextDecoration::Strikethrough => "strikethrough"@,
        TextDecoration::Underline => "underline"@,
        _ => Seq::empty(),
    }
}

pub open spec fn text_transform_text(t: &TypeStyle) -> Seq<char> {
    match t.text_case {
        TextCase::Upper => "uppercase"@,
        TextCase::Lower => "lowercase"@,
        TextCase::Title => "capitalize"@,
        _ => Seq::empty(),
    }
}

pub open spec fn font_variant_text(t: &TypeStyle) -> Seq<char> {
    match t.text_case {
        TextCase::SmallCaps => "small-caps"@,
        TextCase::SmallCapsForced => "all-small-caps"@,
        _ => Seq::empty(),
    }
}

impl TypeStyle {
    /// Line height as a multiple of the font size: 1 where unset.
    pub fn line_height(&self) -> (r: Num)
        ensures
            r == line_height_of(self),
    {
        if self.line_height_percent_font_size.micros == 0 {
            Num { micros: 1000000 }
        } else {
            let p = self.line_height_percent_font_size.micros as i128;
            let q: i128 = if p >= 0 { p / 100 } else { -((-p) / 100) };
            Num { micros: q as i64 }
        }
    }

    pub fn text_align(&self) -> (r: String)
        ensures
            r@ == text_align_text(self),
    {
        match self.text_align_horizontal {
            TextAlignHorizontal::Right => String::from_str("right"),
            TextAlignHorizontal::Center => String::from_str("center"),
            TextAlignHorizontal::Justified => String::from_str("justify"),
            _ => String::new(),
        }
    }

    pub fn text_decoration(&self) -> (r: String)
        ensures
            r@ == text_decoration_text(self),
    {
        match self.text_decoration {
            TextDecoration::Strikethrough => String::from_str("strikethrough"),
            TextDecoration::Underline => String::from_str("underline"),
            _ => String::new(),
        }
    }

    pub fn text_transform(&self) -> (r: String)
        ensures
            r@ == text_transform_text(self),
    {
        match self.text_case {
            TextCase::Upper => String::from_str("uppercase"),
            TextCase::Lower => String::from_str("lowercase"),
            TextCase::Title => String::from_str("capitalize"),
            _ => String::new(),
        }
    }

    pub fn font_variant(&self) -> (r: String)
        ensures
            r@ == font_variant_text(self),
    {
        match self.text_case {
            TextCase::SmallCaps => String::from_str("small-caps"),
            TextCase::SmallCapsForced => String::from_str("all-small-caps"),
            _ => String::new(),
        }
    }
}

/// Size of a vector node along one axis.
pub open spec fn vector_axis(s: DeclSeq, k: Seq<char>, m: LayoutSizingMode, fixed: Seq<char>) -> DeclSeq {
    match m {
        LayoutSizingMode::Fixed => put(s, k, fixed),
        LayoutSizingMode::Fill => upsert(s, k, "100%"@),
        LayoutSizingMode::Hug => s,
    }
}

/// Size declarations of a vector or text node.
pub open spec fn vector_sizes_of(v: &VectorCommon) -> DeclSeq {
    let s1 = put(DeclSeq::empty(), "min-width"@, opt_px(v.min_width));
    let s2 = put(s1, "max-width"@, opt_px(v.max_width));
    let s3 = put(s2, "min-height"@, opt_px(v.min_height));
    let s4 = put(s3, "max-height"@, opt_px(v.max_height));
    let w = vector_axis(s4, "width"@, v.layout_sizing_horizontal, box_width(v.absolute_bounding_box));
    vector_axis(w, "height"@, v.layout_sizing_vertical, box_height(v.absolute_bounding_box))
}

/// Declarations of text truncation.
pub open spec fn truncation_decls(d: DeclSeq, t: &TypeStyle) -> DeclSeq {
    if t.text_truncation == TextTruncation::Ending {
        let e1 = upsert(d, "text-overflow"@, "ellipsis"@);
        match t.max_lines {
            Some(m) => upsert(upsert(e1, "-webkit-box-orient"@, "vertical"@), "-webkit-line-clamp"@, rounded_text(m)),
            None => e1,
        }
    } else {
        d
    }
}

/// The CSS declarations of a text node with shape `v` and typography `t`.
pub open spec fn text_css_of(v: &VectorCommon, t: &TypeStyle) -> DeclSeq {
    let d1 = put(DeclSeq::empty(), "color"@, solid_text(v.fills@));
    let d2 = put(d1, "font-family"@, t.font_family@);
    let d3 = if t.font_size.micros != 0 { upsert(d2, "font-size"@, rounded_text(t.font_size) + "px"@) } else { d2 };
    let d4 = if t.font_weight.micros != 0 { upsert(d3, "font-weight"@, rounded_text(t.font_weight)) } else { d3 };
    let d5 = if line_height_of(t).micros > 0 {
        upsert(d4, "line-height"@, decimal_text(line_height_of(t).micros as int))
    } else {
        d4
    };
    let d6 = if t.letter_spacing.micros != 0 {
        upsert(d5, "letter-spacing"@, rounded_text(t.letter_spacing) + "px"@)
    } else {
        d5
    };
    let d7 = upsert_all(d6, vector_sizes_of(v));
    let d8 = put(d7, "text-align"@, text_align_text(t));
    let d9 = put(d8, "text-decoration-line"@, text_decoration_text(t));
    let d10 = put(d9, "text-transform"@, text_transform_text(t));
    let d11 = put(d10, "font-variant"@, font_variant_text(t));
    truncation_decls(d11, t)
}

impl VectorCommon {
    /// Kebab case of the node's name.
    pub fn get_name(&self) -> (r: String)
        ensures
            r@ == kebab_of(self.node.name@),
    {
        kebab(self.node.name.as_str())
    }

    /// Colour of the first visible solid fill.
    pub fn text_colour(&self) -> (r: String)
        ensures
            r@ == solid_text(self.fills@),
    {
        first_solid_rgba(&self.fills)
    }

    /// Colour of the first visible solid stroke.
    pub fn border_colour(&self) -> (r: String)
        ensures
            r@ == solid_text(self.strokes@),
    {
        first_solid_rgba(&self.strokes)
    }

    /// The visible drop and inner shadows, joined with `, `.
    pub fn box_shadow(&self) -> (r: String)
        ensures
            r@ == box_shadow_text(self.effects@),
    {
        effects_box_shadow(&self.effects)
    }

    /// Width of the bounding box in pixels; empty where it is absent.
    pub fn width(&self) -> (r: String)
        ensures
            r@ == box_width(self.absolute_bounding_box),
    {
        match self.absolute_bounding_box {
            Some(rec) => opt_px_string(rec.width),
            None => String::new(),
        }
    }

    /// Height of the bounding box in pixels; empty where it is absent.
    pub fn height(&self) -> (r: String)
        ensures
            r@ == box_height(self.absolute_bounding_box),
    {
        match self.absolute_bounding_box {
            Some(rec) => opt_px_string(rec.height),
            None => String::new(),
        }
    }

    /// Size declarations of the node.
    pub fn sizes(&self) -> (r: Declarations)
        ensures
            r@ == vector_sizes_of(self),
    {
        let mut styles = Declarations::new();
        styles.put("min-width", opt_px_string(self.min_width));
        styles.put("max-width", opt_px_string(self.max_width));
        styles.put("min-height", opt_px_string(self.min_height));
        styles.put("max-height", opt_px_string(self.max_height));
        match self.layout_sizing_horizontal {
            LayoutSizingMode::Fixed => styles.put("width", self.width()),
            LayoutSizingMode::Fill => styles.insert("width", String::from_str("100%")),
            LayoutSizingMode::Hug => {},
        }
        match self.layout_sizing_vertical {
            LayoutSizingMode::Fixed => styles.put("height", self.height()),
            LayoutSizingMode::Fill => styles.insert("height", String::from_str("100%")),
            LayoutSizingMode::Hug => {},
        }
        styles
    }

    /// The CSS declarations of the node as text with typography `style`.
    pub fn css(&self, style: &TypeStyle) -> (r: Declarations)
        ensures
            r@ == text_css_of(self, style),
    {
        let mut rules = Declarations::new();
        rules.put("color", self.text_colour());
        rules.put("font-family", style.font_family.clone());
        if style.font_size.micros != 0 {
            rules.insert("font-size", rounded(style.font_size).concat("px"));
        }
        if style.font_weight.micros != 0 {
            rules.insert("font-weight", rounded(style.font_weight));
        }
        let lh = style.line_height();
        if lh.micros > 0 {
            rules.insert("line-height", string_of_chars(decimal_chars(lh.micros as i128)));
        }
        if style.letter_spacing.micros != 0 {
            rules.insert("letter-spacing", rounded(style.letter_spacing).concat("px"));
        }
        rules.extend(self.sizes());
        rules.put("text-align", style.text_align());
        rules.put("text-decoration-line", style.text_decoration());
        rules.put("text-transform", style.text_transform());
        rules.put("font-variant", style.font_variant());
        if style.text_truncation == TextTruncation::Ending {
            rules.insert("text-overflow", String::from_str("ellipsis"));
            match style.max_lines {
                Some(m) => {
                    rules.insert("-webkit-box-orient", String::from_str("vertical"));
                    rules.insert("-webkit-line-clamp", rounded(m));
                },
                None => {},
            }
        }
        rules
    }
}

} // verus!
