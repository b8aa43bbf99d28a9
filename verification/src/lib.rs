//! The core of a language server for KCL: finding, for a place in a source
//! file, the innermost expression there and the schema instantiation whose
//! config body the place is in; and, around that, the text of open documents,
//! the files of a compile unit and the paths of packages.
//!
//! - [`position`]: positions, spans, and whether a span holds a position.
//! - [`ast`]: the syntax tree.
//! - [`scan`], [`step`]: the first child of a node that holds a position.
//! - [`ident`]: identifiers made up for names and types that are no
//!   expressions.
//! - [`navigate`]: the descent to the innermost expression; [`laws`]: what
//!   holds of every descent.
//! - [`text`]: the changes that an editor makes to a document.
//! - [`overlay`], [`load`]: the files that the editor has open, and the
//!   source text of a compile unit.
//! - [`package`], [`strings`]: the files and the path of a package.
//!
//! Every function is total on what its contract admits: none panics.

pub mod ast;
pub mod ident;
pub mod laws;
pub mod load;
pub mod navigate;
pub mod overlay;
pub mod package;
pub mod position;
pub mod scan;
pub mod step;
pub mod strings;
pub mod text;
