//! Verified parser for a subset of C header syntax.
//!
//! The library recognises preprocessor directives, comments, C-linkage
//! block openers and `typedef` declarations (simple aliases, array aliases,
//! and struct/union definitions with arbitrarily nested anonymous fields),
//! and extracts, in declaration order, the names of the typedefs whose
//! right-hand side is directly a struct or union definition.

pub mod ast;
pub mod strings;
pub mod grammar;
pub mod parser;
pub mod extract;
pub mod emit;
pub mod laws;

pub use ast::{ArrayIndex, FieldDecl, ParseError, ParseNode, TypeDescriptor, TypedefNode};
pub use parser::ApiParser;
pub use extract::get_complex_type_names;
pub use emit::test_file;
