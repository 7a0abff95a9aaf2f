//! Structured parse errors.
//!
//! Every failed parse reports the byte offset at which it stopped and a
//! classification of what went wrong.  Encoding failures keep the attribute
//! name and the raw value text so a caller can report exactly which field
//! was malformed.

use vstd::prelude::*;

verus! {

/// What kind of failure aborted the parse.
#[derive(Debug, PartialEq, Eq)]
pub enum ErrorKind {
    /// The input at the error position does not match the grammar: a tag,
    /// attribute list or closing sequence was expected and not found, or a
    /// tag or `type`-style token names no known alternative.
    Malformed,
    /// The named tag or token was required at the error position.
    Expected(Vec<u8>),
    /// An attribute value does not match the lexical form its field
    /// requires (bad integer, bad boolean token, empty name).
    BadAttrValue { attr: Vec<u8>, value: Vec<u8> },
    /// A required attribute is absent from the element.
    MissingAttr(Vec<u8>),
    /// The symbol-header list and the symbol list differ in length.
    LengthMismatch,
}

/// A positioned parse error: the first point at which the document failed.
#[derive(Debug, PartialEq, Eq)]
pub struct ParseError {
    /// Byte offset into the input at which the failure was detected.
    pub pos: usize,
    pub kind: ErrorKind,
}

impl ParseError {
    pub fn malformed(pos: usize) -> (e: ParseError)
        ensures
            e.pos == pos,
            e.kind == ErrorKind::Malformed,
    {
        ParseError { pos, kind: ErrorKind::Malformed }
    }

    pub fn expected(pos: usize, what: Vec<u8>) -> (e: ParseError)
        ensures
            e.pos == pos,
            e.kind == ErrorKind::Expected(what),
    {
        ParseError { pos, kind: ErrorKind::Expected(what) }
    }
}

} // verus!
