//! A verified parser for the compiled form of a processor-description
//! language: the serialized document that describes an instruction set's
//! address spaces, symbol table, pattern expressions, decision trees and
//! pcode operation templates.
//!
//! The crate is organized leaves-first:
//! - [`big_int`]: unbounded-precision integers, the value type of every
//!   numeric field;
//! - [`codec`]: decoding of attribute text into typed values (decimal and
//!   hexadecimal integers, booleans, entity-unescaped strings);
//! - [`scan`]: the tag scanner, and [`attrs`]: attribute lookup and
//!   decoding over a scanned attribute list;
//! - [`model`]: the document tree, pure data, each type mirrored by a
//!   specification-level view;
//! - the parser modules (`parse_expr`, `parse_tpl`, `parse_pat`,
//!   `parse_ctor`, `parse_sym`, `parse_doc`), one parsing function per
//!   node type, each proved equal to a specification-level grammar over
//!   the input bytes;
//! - [`laws`]: properties relating the parsers, stated and proved.

pub mod attrs;
pub mod big_int;
pub mod codec;
pub mod error;
pub mod laws;
pub mod model;
pub mod parse_ctor;
pub mod parse_doc;
pub mod parse_expr;
pub mod parse_pat;
pub mod parse_sym;
pub mod parse_tpl;
pub mod scan;

pub use big_int::BigInt;
pub use codec::{decode_boolean, decode_decimal, decode_hex, xml_unescape};
pub use error::{ErrorKind, ParseError};
pub use parse_doc::parse;
