//! A typed view of JavaScript and TypeScript syntax trees, prepared for a
//! host language binding: the tree the parser produces, its lowered form
//! that bindings hand out node by node, and the flat records that stand for
//! the tree's choice nodes.
pub mod ast;
pub mod enums;
pub mod typeinfo;
pub mod choice;
pub mod class;
pub mod copy;
pub mod decl;
pub mod expr;
pub mod function;
pub mod jsx;
pub mod literal;
pub mod pat;
pub mod prop;
pub mod script;
pub mod span;
pub mod stmts;
