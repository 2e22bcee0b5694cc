//! Turns a design document's node tree into stylesheet rules, a markup tree
//! and a table of theme-scoped design tokens.
//!
//! - `model`, `layout`, `paint`, `num`: the document model; quantities are
//!   decimal numbers held in millionths.
//! - `frame_css`, `text_css`: the CSS declarations of a frame-like node in
//!   its parent's layout, and of a text node.
//! - `selector`, `names`: selector fragments and kebab-case names, variant
//!   names (`Size=Large, State=Hover`) included.
//! - `tokens`: design tokens of the styles that a tree uses; the first token
//!   for a style id wins.
//! - `emit`, `markup`, `document`: the walk that yields rules, includes and
//!   markup for each top-level component, instance resolution, and
//!   deduplication of a component set's variant markup.
//! - `stylesheet`: rules as CSS text, minified.
//! - `decls`, `tables`, `text`: ordered declarations, id-keyed tables and
//!   character sequences.
pub mod decls;
pub mod document;
pub mod emit;
pub mod frame_css;
pub mod layout;
pub mod markup;
pub mod model;
pub mod names;
pub mod num;
pub mod paint;
pub mod selector;
pub mod stylesheet;
pub mod tables;
pub mod text;
pub mod text_css;
pub mod tokens;
