//! Canonical projection of a markdown syntax tree into JSON.
//!
//! A document's syntax tree ([`MyNode`]) is written as one JSON value in a
//! schema of this crate's own: every node is an object with its kind under
//! "type", the fields of its kind, its children and its source span, in that
//! order. [`emit`] builds the value, [`emit_text`] the text.

pub mod adapter;
pub mod attribute;
pub mod emit;
pub mod field;
pub mod json;
pub mod kinds;
pub mod laws;
pub mod node;
pub mod object;
pub mod position;
pub mod render;
pub mod tag;
pub mod value;

pub use attribute::{AttributeContent, AttributeValue, MdxJsxAttribute, Stop};
pub use emit::emit;
pub use field::Field;
pub use kinds::{AlignKind, ReferenceKind};
pub use node::MyNode;
pub use position::{Point, Position};
pub use render::{emit_document, emit_text, to_pretty_text, EmitError};
