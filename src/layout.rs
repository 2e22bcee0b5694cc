use vstd::prelude::*;

verus! {

/// How a frame lays out its children.
#[derive(Clone, Copy, Debug, PartialEq, Eq, Structural)]
pub enum LayoutMode {
    NoLayout,
    Horizontal,
    Vertical,
}

impl LayoutMode {
    pub fn is_none(&self) -> (r: bool)
        ensures
            r == (*self == LayoutMode::NoLayout),
    {
        match self {
            LayoutMode::NoLayout => true,
            _ => false,
        }
    }

    pub fn is_vertical(&self) -> (r: bool)
        ensures
            r == (*self == LayoutMode::Vertical),
    {
        match self {
            LayoutMode::Vertical => true,
            _ => false,
        }
    }

    pub fn is_horizontal(&self) -> (r: bool)
        ensures
            r == (*self == LayoutMode::Horizontal),
    {
        match self {
            LayoutMode::Horizontal => true,
            _ => false,
        }
    }

    /// Horizontal or vertical auto-layout.
    pub fn is_auto_layout(&self) -> (r: bool)
        ensures
            r == (*self != LayoutMode::NoLayout),
    {
        self.is_vertical() || self.is_horizontal()
    }
}

/// How a node is sized along one axis.
#[derive(Clone, Copy, Debug, PartialEq, Eq, Structural)]
pub enum LayoutSizingMode {
    Hug,
    Fixed,
    Fill,
}

/// How an auto-layout frame sizes itself along an axis.
#[derive(Clone, Copy, Debug, PartialEq, Eq, Structural)]
pub enum AxisSizingMode {
    Fixed,
    Auto,
}

/// How a child of an auto-layout frame is aligned along the counter axis.
#[derive(Clone, Copy, Debug, PartialEq, Eq, Structural)]
pub enum LayoutAlign {
    Inherit,
    Stretch,
    Min,
    Center,
    Max,
}

/// Placement of children along an axis of an auto-layout frame.
#[derive(Clone, Copy, Debug, PartialEq, Eq, Structural)]
pub enum LayoutAlignItems {
    Min,
    Center,
    Max,
    SpaceBetween,
    Baseline,
}

#[derive(Clone, Copy, Debug, PartialEq, Eq, Structural)]
pub enum LayoutWrap {
    Wrap,
    NoWrap,
}

/// Placement of wrapped rows along the counter axis.
#[derive(Clone, Copy, Debug, PartialEq, Eq, Structural)]
pub enum LayoutAlignContent {
    SpaceBetween,
    Auto,
}

#[derive(Clone, Copy, Debug, PartialEq, Eq, Structural)]
pub enum LayoutPositioning {
    Absolute,
    Auto,
}

#[derive(Clone, Copy, Debug, PartialEq, Eq, Structural)]
pub enum LayoutGridPattern {
    Columns,
    Rows,
    Grid,
}

#[derive(Clone, Copy, Debug, PartialEq, Eq, Structural)]
pub enum LayoutGridAlignment {
    Min,
    Stretch,
    Center,
}

#[derive(Clone, Copy, Debug, PartialEq, Eq, Structural)]
pub enum VerticalLayoutConstraintValue {
    Top,
    Bottom,
    Center,
    TopBottom,
    Scale,
}

#[derive(Clone, Copy, Debug, PartialEq, Eq, Structural)]
pub enum HorizontalLayoutConstraintValue {
    Left,
    Right,
    Center,
    LeftRight,
    Scale,
}

/// How a node reacts when its parent is resized.
#[derive(Clone, Copy, Debug, PartialEq, Eq, Structural)]
pub struct LayoutConstraint {
    pub vertical: VerticalLayoutConstraintValue,
    pub horizontal: HorizontalLayoutConstraintValue,
}

/// Directions in which a frame's content scrolls.
#[derive(Clone, Copy, Debug, PartialEq, Eq, Structural)]
pub enum OverflowDirection {
    NoScrolling,
    HorizontalScrolling,
    VerticalScrolling,
    HorizontalAndVerticalScrolling,
}

impl OverflowDirection {
    pub fn scrolls_horizontal(&self) -> (r: bool)
        ensures
            r == (*self == OverflowDirection::HorizontalScrolling
                || *self == OverflowDirection::HorizontalAndVerticalScrolling),
    {
        match self {
            OverflowDirection::HorizontalScrolling => true,
            OverflowDirection::HorizontalAndVerticalScrolling => true,
            _ => false,
        }
    }

    pub fn scrolls_vertical(&self) -> (r: bool)
        ensures
            r == (*self == OverflowDirection::VerticalScrolling
                || *self == OverflowDirection::HorizontalAndVerticalScrolling),
    {
        match self {
            OverflowDirection::VerticalScrolling => true,
            OverflowDirection::HorizontalAndVerticalScrolling => true,
            _ => false,
        }
    }

    pub fn scrolls(&self) -> (r: bool)
        ensures
            r == (*self != OverflowDirection::NoScrolling),
    {
        match self {
            OverflowDirection::NoScrolling => false,
            _ => true,
        }
    }
}

/// Letter case applied to a text run.
#[derive(Clone, Copy, Debug, PartialEq, Eq, Structural)]
pub enum TextCase {
    Original,
    Upper,
    Lower,
    Title,
    SmallCaps,
    SmallCapsForced,
}

#[derive(Clone, Copy, Debug, PartialEq, Eq, Structural)]
pub enum TextDecoration {
    NoDecoration,
    Strikethrough,
    Underline,
}

#[derive(Clone, Copy, Debug, PartialEq, Eq, Structural)]
pub enum TextAutoResize {
    NoResize,
    Height,
    WidthAndHeight,
}

#[derive(Clone, Copy, Debug, PartialEq, Eq, Structural)]
pub enum TextAlignHorizontal {
    Left,
    Right,
    Center,
    Justified,
}

#[derive(Clone, Copy, Debug, PartialEq, Eq, Structural)]
pub enum TextAlignVertical {
    Top,
    Center,
    Bottom,
}

#[derive(Clone, Copy, Debug, PartialEq, Eq, Structural)]
pub enum TextTruncation {
    Disabled,
    Ending,
}

#[derive(Clone, Copy, Debug, PartialEq, Eq, Structural)]
pub enum LineHeightUnit {
    Pixels,
    FontSizePercentage,
    IntrinsicPercentage,
}

/// How a layer is blended with the layers below it.
#[derive(Clone, Copy, Debug, PartialEq, Eq, Structural)]
pub enum BlendMode {
    PassThrough,
    Normal,
    Darken,
    Multiply,
    LinearBurn,
    ColorBurn,
    Lighten,
    Screen,
    LinearDodge,
    ColorDodge,
    Overlay,
    SoftLight,
    HardLight,
    Difference,
    Exclusion,
    Hue,
    Saturation,
    Color,
    Luminosity,
}

/// Timing curve of a prototype transition.
#[derive(Clone, Copy, Debug, PartialEq, Eq, Structural)]
pub enum EasingType {
    EaseIn,
    EaseOut,
    EaseInAndOut,
    Linear,
}

/// How a constraint value is measured.
#[derive(Clone, Copy, Debug, PartialEq, Eq, Structural)]
pub enum ConstraintType {
    Scale,
    Width,
    Height,
}

} // verus!
