use vstd::prelude::*;

use crate::layout::{
    ConstraintType, LayoutAlign, LayoutGridAlignment, LayoutGridPattern, LayoutAlignContent, LayoutAlignItems, LayoutMode, LayoutSizingMode,
    LayoutWrap, TextAlignHorizontal, TextCase, TextDecoration, TextTruncation,
};
use crate::num::Num;
use crate::paint::{Colour, Effect, Paint, Vector};

verus! {

/// Position and size of a node; any part may be absent.
#[derive(Clone, Copy, Debug, PartialEq, Eq, Structural)]
pub struct Rectangle {
    pub x: Option<Num>,
    pub y: Option<Num>,
    pub width: Option<Num>,
    pub height: Option<Num>,
}

/// Width and height.
#[derive(Clone, Copy, Debug, PartialEq, Eq, Structural)]
pub struct Size {
    pub width: Num,
    pub height: Num,
}

/// Stroke weight of each side.
#[derive(Clone, Copy, Debug, PartialEq, Eq, Structural)]
pub struct StrokeWeights {
    pub top: Num,
    pub right: Num,
    pub bottom: Num,
    pub left: Num,
}

/// A resizing constraint with its value.
#[derive(Clone, Copy, Debug, PartialEq, Eq, Structural)]
pub struct Constraint {
    pub constraint_type: ConstraintType,
    pub value: Num,
}

/// A vector path in SVG syntax.
#[derive(Debug)]
pub struct Path {
    pub path: String,
    pub winding_rule: String,
}

/// The property a node takes from a named style.
#[derive(Clone, Copy, Debug, PartialEq, Eq, Structural)]
pub enum StyleProperty {
    Fills,
    Strokes,
    Effect,
    Grid,
    Text,
}

/// The kind of a named style.
#[derive(Clone, Copy, Debug, PartialEq, Eq, Structural)]
pub enum StyleType {
    Fill,
    Text,
    Effect,
    Grid,
}

/// A named style of the document, keyed by its id in the style table.
#[derive(Debug)]
pub struct Style {
    pub key: String,
    pub name: String,
    pub description: String,
    pub style_type: StyleType,
}

/// A component of the document, keyed by its id in the component table.
#[derive(Debug)]
pub struct Component {
    pub key: String,
    pub name: String,
    pub description: String,
    /// Id of the component set that holds it; empty where there is none.
    pub component_set_id: String,
}

/// A set of variants of one component, keyed by its id in the set table.
#[derive(Debug)]
pub struct ComponentSet {
    pub key: String,
    pub name: String,
    pub description: String,
}

/// What every node has.
#[derive(Debug)]
pub struct NodeCommon {
    pub id: String,
    pub name: String,
    pub visible: bool,
    pub children: Vec<Node>,
}

/// A frame-shaped node: frame, group, component, component set or instance.
#[derive(Debug)]
pub struct Frame {
    pub node: NodeCommon,
    pub fills: Vec<Paint>,
    pub strokes: Vec<Paint>,
    pub stroke_weight: Option<Num>,
    pub stroke_dashes: Option<Vec<Num>>,
    pub individual_stroke_weights: Option<StrokeWeights>,
    pub corner_radius: Option<Num>,
    /// Top-left, top-right, bottom-right, bottom-left.
    pub rectangle_corner_radii: Option<[Num; 4]>,
    /// In radians.
    pub rotation: Option<Num>,
    pub layout_align: LayoutAlign,
    pub layout_grow: Num,
    pub absolute_bounding_box: Option<Rectangle>,
    pub min_width: Option<Num>,
    pub max_width: Option<Num>,
    pub min_height: Option<Num>,
    pub max_height: Option<Num>,
    pub clips_content: bool,
    pub layout_mode: LayoutMode,
    pub layout_sizing_horizontal: LayoutSizingMode,
    pub layout_sizing_vertical: LayoutSizingMode,
    pub layout_wrap: LayoutWrap,
    pub primary_axis_align_items: LayoutAlignItems,
    pub counter_axis_align_items: LayoutAlignItems,
    pub counter_axis_align_content: LayoutAlignContent,
    pub padding_left: Num,
    pub padding_right: Num,
    pub padding_top: Num,
    pub padding_bottom: Num,
    pub item_spacing: Option<Num>,
    pub effects: Vec<Effect>,
    /// Named styles that the node uses, by property.
    pub styles: Vec<(StyleProperty, String)>,
}

/// Shape shared by vector-like nodes and text.
#[derive(Debug)]
pub struct VectorCommon {
    pub node: NodeCommon,
    pub min_width: Option<Num>,
    pub max_width: Option<Num>,
    pub min_height: Option<Num>,
    pub max_height: Option<Num>,
    pub absolute_bounding_box: Option<Rectangle>,
    pub layout_sizing_horizontal: LayoutSizingMode,
    pub layout_sizing_vertical: LayoutSizingMode,
    pub effects: Vec<Effect>,
    pub fills: Vec<Paint>,
    pub strokes: Vec<Paint>,
    pub stroke_weight: Option<Num>,
    /// Named styles that the node uses, by property.
    pub styles: Vec<(StyleProperty, String)>,
}

/// Typography of a text node.
#[derive(Debug)]
pub struct TypeStyle {
    pub font_family: String,
    pub font_weight: Num,
    pub font_size: Num,
    pub text_case: TextCase,
    pub text_decoration: TextDecoration,
    pub text_truncation: TextTruncation,
    pub max_lines: Option<Num>,
    pub text_align_horizontal: TextAlignHorizontal,
    pub letter_spacing: Num,
    /// Line height as a percentage of the font size; 0 where unset.
    pub line_height_percent_font_size: Num,
}

/// A node of the document tree.
#[derive(Debug)]
pub enum Node {
    Document(NodeCommon),
    Canvas(NodeCommon),
    Frame(Frame),
    Group(Frame),
    Component(Frame),
    ComponentSet(Frame),
    Instance { frame: Frame, component_id: String },
    Vector(VectorCommon),
    BooleanOperation { vector: VectorCommon, boolean_operation: String },
    Star(VectorCommon),
    Line(VectorCommon),
    Ellipse(VectorCommon),
    RegularPolygon(VectorCommon),
    Rectangle { vector: VectorCommon, corner_radius: Option<Num>, rectangle_corner_radii: Option<[Num; 4]> },
    Text { vector: VectorCommon, characters: String, style: TypeStyle },
    Slice(NodeCommon),
}

/// The fields that every kind of node has.
pub open spec fn common_of(n: &Node) -> &NodeCommon {
    match n {
        Node::Document(c) => c,
        Node::Canvas(c) => c,
        Node::Frame(f) => &f.node,
        Node::Group(f) => &f.node,
        Node::Component(f) => &f.node,
        Node::ComponentSet(f) => &f.node,
        Node::Instance { frame, .. } => &frame.node,
        Node::Vector(v) => &v.node,
        Node::BooleanOperation { vector, .. } => &vector.node,
        Node::Star(v) => &v.node,
        Node::Line(v) => &v.node,
        Node::Ellipse(v) => &v.node,
        Node::RegularPolygon(v) => &v.node,
        Node::Rectangle { vector, .. } => &vector.node,
        Node::Text { vector, .. } => &vector.node,
        Node::Slice(c) => c,
    }
}

/// The frame shape of a frame-like node.
pub open spec fn frame_of(n: &Node) -> Option<&Frame> {
    match n {
        Node::Frame(f) => Some(f),
        Node::Group(f) => Some(f),
        Node::Component(f) => Some(f),
        Node::ComponentSet(f) => Some(f),
        Node::Instance { frame, .. } => Some(frame),
        _ => None,
    }
}

/// The vector shape of a vector-like or text node.
pub open spec fn vector_of(n: &Node) -> Option<&VectorCommon> {
    match n {
        Node::Vector(v) => Some(v),
        Node::BooleanOperation { vector, .. } => Some(vector),
        Node::Star(v) => Some(v),
        Node::Line(v) => Some(v),
        Node::Ellipse(v) => Some(v),
        Node::RegularPolygon(v) => Some(v),
        Node::Rectangle { vector, .. } => Some(vector),
        Node::Text { vector, .. } => Some(vector),
        _ => None,
    }
}

impl Node {
    pub fn common(&self) -> (r: &NodeCommon)
        ensures
            r == common_of(self),
    {
        match self {
            Node::Document(c) => c,
            Node::Canvas(c) => c,
            Node::Frame(f) => &f.node,
            Node::Group(f) => &f.node,
            Node::Component(f) => &f.node,
            Node::ComponentSet(f) => &f.node,
            Node::Instance { frame, .. } => &frame.node,
            Node::Vector(v) => &v.node,
            Node::BooleanOperation { vector, .. } => &vector.node,
            Node::Star(v) => &v.node,
            Node::Line(v) => &v.node,
            Node::Ellipse(v) => &v.node,
            Node::RegularPolygon(v) => &v.node,
            Node::Rectangle { vector, .. } => &vector.node,
            Node::Text { vector, .. } => &vector.node,
            Node::Slice(c) => c,
        }
    }

    pub fn is_component(&self) -> (r: Option<&Frame>)
        ensures
            r == (match self {
                Node::Component(f) => Some(f),
                _ => None,
            }),
    {
        match self {
            Node::Component(f) => Some(f),
            _ => None,
        }
    }

    pub fn is_component_set(&self) -> (r: Option<&Frame>)
        ensures
            r == (match self {
                Node::ComponentSet(f) => Some(f),
                _ => None,
            }),
    {
        match self {
            Node::ComponentSet(f) => Some(f),
            _ => None,
        }
    }

    /// The frame shape of a frame, group, component, component set or instance.
    pub fn is_frame(&self) -> (r: Option<&Frame>)
        ensures
            r == frame_of(self),
    {
        match self {
            Node::Frame(f) => Some(f),
            Node::Group(f) => Some(f),
            Node::Component(f) => Some(f),
            Node::ComponentSet(f) => Some(f),
            Node::Instance { frame, .. } => Some(frame),
            _ => None,
        }
    }

    /// The frame and the referenced component id of an instance.
    pub fn is_instance(&self) -> (r: Option<(&Frame, &String)>)
        ensures
            r == (match self {
                Node::Instance { frame, component_id } => Some((frame, component_id)),
                _ => None,
            }),
    {
        match self {
            Node::Instance { frame, component_id } => Some((frame, component_id)),
            _ => None,
        }
    }

    /// The shape, typography and characters of a text node.
    pub fn is_text(&self) -> (r: Option<(&VectorCommon, &TypeStyle, &String)>)
        ensures
            r == (match self {
                Node::Text { vector, style, characters } => Some((vector, style, characters)),
                _ => None,
            }),
    {
        match self {
            Node::Text { vector, style, characters } => Some((vector, style, characters)),
            _ => None,
        }
    }

    /// The vector shape of a vector-like or text node.
    pub fn is_vector(&self) -> (r: Option<&VectorCommon>)
        ensures
            r == vector_of(self),
    {
        match self {
            Node::Vector(v) => Some(v),
            Node::BooleanOperation { vector, .. } => Some(vector),
            Node::Star(v) => Some(v),
            Node::Line(v) => Some(v),
            Node::Ellipse(v) => Some(v),
            Node::RegularPolygon(v) => Some(v),
            Node::Rectangle { vector, .. } => Some(vector),
            Node::Text { vector, .. } => Some(vector),
            _ => None,
        }
    }
}

/// Image format of an export.
#[derive(Clone, Copy, Debug, PartialEq, Eq, Structural)]
pub enum ExportFormat {
    Jpg,
    Png,
    Svg,
    Pdf,
}

/// How a node is exported.
#[derive(Debug)]
pub struct ExportSetting {
    pub suffix: String,
    pub format: ExportFormat,
    pub constraint: Constraint,
}

/// An offset relative to a node.
#[derive(Debug)]
pub struct FrameOffset {
    pub node_id: String,
    pub node_offset: Vector,
}

/// A section of a canvas.
#[derive(Debug)]
pub struct Section {
    pub node: NodeCommon,
}

/// Adjustments applied to an image paint.
#[derive(Clone, Copy, Debug, PartialEq, Eq, Structural)]
pub struct ImageFilters {
    pub exposure: Option<Num>,
    pub contrast: Option<Num>,
    pub saturation: Option<Num>,
    pub temperature: Option<Num>,
    pub tint: Option<Num>,
    pub highlights: Option<Num>,
    pub shadows: Option<Num>,
}

/// A layout grid of a frame.
#[derive(Clone, Copy, Debug, PartialEq, Eq, Structural)]
pub struct LayoutGrid {
    pub pattern: LayoutGridPattern,
    pub section_size: Num,
    pub visible: bool,
    pub color: Colour,
    pub alignment: LayoutGridAlignment,
    pub gutter_size: Num,
    pub offset: Num,
    pub count: i32,
}

/// A parsed document: its node tree and its tables of components, component
/// sets and styles, each keyed by id.
#[derive(Debug)]
pub struct FigmaData {
    pub name: String,
    pub last_modified: String,
    pub version: String,
    pub document: Node,
    pub component_sets: Vec<(String, ComponentSet)>,
    pub components: Vec<(String, Component)>,
    pub styles: Vec<(String, Style)>,
}

/// Nodes are visible unless they say otherwise.
pub fn default_visible() -> (r: bool)
    ensures
        r,
{
    true
}

/// Paints are fully opaque unless they say otherwise.
pub fn default_opacity() -> (r: Num)
    ensures
        r.micros == 1000000,
{
    Num { micros: 1000000 }
}

/// Nodes have no effects unless they list some.
pub fn default_effects() -> (r: Vec<Effect>)
    ensures
        r@.len() == 0,
{
    Vec::new()
}

/// Line height is 100% of the font size unless set.
pub fn default_line_height_percent() -> (r: Num)
    ensures
        r.micros == 100000000,
{
    Num { micros: 100000000 }
}

pub fn default_paragraph_spacing() -> (r: Num)
    ensures
        r.micros == 0,
{
    Num { micros: 0 }
}

pub fn default_paragraph_indent() -> (r: Num)
    ensures
        r.micros == 0,
{
    Num { micros: 0 }
}

pub fn default_list_spacing() -> (r: Num)
    ensures
        r.micros == 0,
{
    Num { micros: 0 }
}

} // verus!
