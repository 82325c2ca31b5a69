//! Validation of data structures against a CDDL (RFC 8610) schema.
//!
//! The pipeline has three stages: [`parser::parse_cddl`] turns CDDL text
//! into a syntax tree, [`flatten::flatten`] reduces that tree to a schema,
//! and callers look up rules in the schema to validate values.

pub mod ast;
pub mod flatten;
pub mod lexer;
pub mod parser;

pub use ast::{Cddl, CddlSlice};
pub use flatten::{flatten, flatten_from_str, Schema, ValidationError};
pub use lexer::{ErrorKind, ParseError};
pub use parser::{parse_cddl, slice_parse_cddl};
