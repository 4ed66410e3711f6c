//! A tree-to-code serializer for a small structured-text document model.
//!
//! Given a document tree (paragraphs, headers, lists, code blocks, tables,
//! styled text runs), the emitter produces a Rust expression that, when
//! compiled, reconstructs an equal tree value owning all of its data. Every
//! reference to the vocabulary in the emitted code is written as a fully
//! qualified path from one configurable root, so the output compiles no
//! matter what is in scope where it is spliced.

pub mod emit;
pub mod eval;
pub mod expr;
pub mod rebuild;
pub mod render;
pub mod tokens;
pub mod tree;

pub use emit::Emitter;
pub use expr::Root;

// The re-exported qualification root: code emitted against this crate's own
// root refers to the document-model vocabulary through these names, so its
// consumers need not depend on the document-model library directly.
pub use minimad::{Alignment, Composite, CompositeStyle, Compound, Line, TableRow, TableRule, Text};
