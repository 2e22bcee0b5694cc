use vstd::prelude::*;

use crate::layout::BlendMode;
use crate::num::{decimal_chars, decimal_text, Num};
use crate::text::{push_chars, push_str, string_of_chars};

verus! {

/// A colour with channels `a`, `r`, `g`, `b` in [0, 1].
#[derive(Clone, Copy, Debug, PartialEq, Eq, Structural)]
pub struct Colour {
    pub a: Num,
    pub r: Num,
    pub g: Num,
    pub b: Num,
}

/// `rgba(R,G,B,A)` with each colour channel scaled by 255 and alpha as is.
pub open spec fn rgba_text(c: Colour) -> Seq<char> {
    "rgba("@ + decimal_text(c.r.micros * 255) + ","@ + decimal_text(c.g.micros * 255) + ","@
        + decimal_text(c.b.micros * 255) + ","@ + decimal_text(c.a.micros as int) + ")"@
}

impl Colour {
    pub fn is_transparent(&self) -> (r: bool)
        ensures
            r == (self.a.micros == 0),
    {
        self.a.micros == 0
    }

    /// CSS `rgba(...)` text of the colour: `rgba(25.5,51,76.5,0.5)`.
    pub fn rgba(&self) -> (r: String)
        ensures
            r@ == rgba_text(*self),
    {
        let mut out: Vec<char> = Vec::new();
        push_str(&mut out, "rgba(");
        push_chars(&mut out, &decimal_chars((self.r.micros as i128) * 255));
        push_str(&mut out, ",");
        push_chars(&mut out, &decimal_chars((self.g.micros as i128) * 255));
        push_str(&mut out, ",");
        push_chars(&mut out, &decimal_chars((self.b.micros as i128) * 255));
        push_str(&mut out, ",");
        push_chars(&mut out, &decimal_chars(self.a.micros as i128));
        push_str(&mut out, ")");
        string_of_chars(out)
    }
}

/// A colour at a position of a gradient.
#[derive(Clone, Copy, Debug, PartialEq, Eq, Structural)]
pub struct ColourStop {
    pub position: Num,
    pub color: Colour,
}

/// A colour stop of a gradient.
#[derive(Clone, Copy, Debug, PartialEq, Eq, Structural)]
pub struct ColorStop {
    pub position: Num,
    pub color: Colour,
}

/// A 2D vector whose coordinates may be absent.
#[derive(Clone, Copy, Debug, PartialEq, Eq, Structural)]
pub struct Vector {
    pub x: Option<Num>,
    pub y: Option<Num>,
}

/// A coordinate, zero where it is absent.
pub open spec fn coord_or_zero(c: Option<Num>) -> Num {
    match c {
        Some(v) => v,
        None => Num { micros: 0 },
    }
}

impl Vector {
    pub fn is_valid(&self) -> (r: bool)
        ensures
            r == (self.x.is_some() && self.y.is_some()),
    {
        self.x.is_some() && self.y.is_some()
    }

    pub fn x(&self) -> (r: Num)
        ensures
            r == coord_or_zero(self.x),
    {
        match self.x {
            Some(v) => v,
            None => Num { micros: 0 },
        }
    }

    pub fn y(&self) -> (r: Num)
        ensures
            r == coord_or_zero(self.y),
    {
        match self.y {
            Some(v) => v,
            None => Num { micros: 0 },
        }
    }
}

/// Colour stops and handle positions of a gradient paint.
#[derive(Debug)]
pub struct Gradient {
    pub blend_mode: BlendMode,
    pub gradient_handle_positions: Vec<Vector>,
    pub gradient_stops: Vec<ColorStop>,
}

/// What a paint lays down: a solid colour or one of the gradients.
#[derive(Debug)]
pub enum PaintData {
    Solid { color: Colour },
    GradientLinear { gradient: Gradient },
    GradientRadial { gradient: Gradient },
    GradientAngular { gradient: Gradient },
    GradientDiamond { gradient: Gradient },
}

/// The colour of a solid paint.
pub open spec fn solid_of(d: PaintData) -> Option<Colour> {
    match d {
        PaintData::Solid { color } => Some(color),
        _ => None,
    }
}

impl PaintData {
    pub fn get_solid(&self) -> (r: Option<Colour>)
        ensures
            r == solid_of(*self),
    {
        match self {
            PaintData::Solid { color } => Some(*color),
            _ => None,
        }
    }
}

/// One fill or stroke of a node.
#[derive(Debug)]
pub struct Paint {
    pub visible: bool,
    pub opacity: Num,
    pub data: PaintData,
}

/// Fill of a paint override.
#[derive(Debug)]
pub struct PaintOverride {
    pub fills: Vec<Paint>,
    pub inherit_fil_style_id: String,
}

/// The colour of the first visible solid paint of `ps`.
pub open spec fn first_solid(ps: Seq<Paint>) -> Option<Colour>
    decreases ps.len(),
{
    if ps.len() == 0 {
        None
    } else {
        match first_solid(ps.drop_last()) {
            Some(c) => Some(c),
            None => if ps.last().visible { solid_of(ps.last().data) } else { None },
        }
    }
}

/// `rgba(...)` of the first visible solid paint, empty where there is none.
pub open spec fn solid_text(ps: Seq<Paint>) -> Seq<char> {
    match first_solid(ps) {
        Some(c) => rgba_text(c),
        None => Seq::empty(),
    }
}

/// The CSS colour of the first visible solid paint of `paints`; later solids
/// and gradients are not used.
pub fn first_solid_rgba(paints: &Vec<Paint>) -> (r: String)
    ensures
        r@ == solid_text(paints@),
{
    let mut i: usize = 0;
    let mut found: Option<Colour> = None;
    while i < paints.len()
        invariant
            i <= paints@.len(),
            found == first_solid(paints@.subrange(0, i as int)),
        decreases paints@.len() - i,
    {
        assert(paints@.subrange(0, i + 1).drop_last() == paints@.subrange(0, i as int));
        if found.is_none() && paints[i].visible {
            found = paints[i].data.get_solid();
        }
        i = i + 1;
    }
    assert(paints@.subrange(0, i as int) == paints@);
    match found {
        Some(c) => c.rgba(),
        None => String::new(),
    }
}

#[derive(Clone, Copy, Debug, PartialEq, Eq, Structural)]
pub enum EffectType {
    InnerShadow,
    DropShadow,
    LayerBlur,
    BackgroundBlur,
}

/// A shadow or blur applied to a node.
#[derive(Clone, Copy, Debug, PartialEq, Eq, Structural)]
pub struct Effect {
    pub effect_type: EffectType,
    pub visible: bool,
    pub radius: Num,
    pub color: Colour,
    pub blend_mode: BlendMode,
    pub offset: Vector,
    pub spread: Num,
}

} // verus!
