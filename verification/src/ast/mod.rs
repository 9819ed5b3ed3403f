//! The JavaScript / TypeScript syntax tree that the library reads.
//!
//! Every node holds plain values: positions are byte offsets, names are
//! strings, and numeric literals keep the bits of their value.
pub mod common;
pub mod class;
pub mod decl;
pub mod expr;
pub mod function;
pub mod jsx;
pub mod lit;
pub mod module_decl;
pub mod module_item;
pub mod pat;
pub mod prop;
pub mod stmt;
pub mod typescript;
