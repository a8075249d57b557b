//! A lightweight index of the top-level declarations of Rust source files:
//! modules, structs, enums, traits, functions and implementation blocks,
//! each with its place, a one-line signature and its documentation.

pub mod docs;
pub mod entry;
pub mod index;
pub mod parser;
pub mod signature;
pub mod syntax;
pub mod text;

pub use crate::entry::IndexEntry;
pub use crate::index::{build_index, index_file, index_source, IndexError, Project, SourceFile};
