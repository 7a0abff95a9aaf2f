//! Decoding of scanned attributes into typed field values.
//!
//! A node parser owns a scanned attribute list (in document order; a
//! duplicated key reads its first occurrence) and fetches each field by
//! name, decoding the raw value text with the primitive codec according
//! to the field's fixed convention: decimal, hexadecimal, boolean,
//! entity-unescaped string, or a `line:column` pair.  A missing required
//! attribute or a value outside its lexical form aborts the parse.

use vstd::prelude::*;
use crate::big_int::BigInt;
use crate::codec::{
    is_dec_text, dec_text_val, is_hex_text, hex_text_val, bool_token_val, unescaped,
    decode_decimal, decode_hex, decode_boolean, xml_unescape,
};
use crate::error::{ErrorKind, ParseError};
use crate::scan::{Attr, AttrV, attrs_v, copy_range, slice_to_vec_u8};

verus! {

broadcast use vstd::seq::group_seq_axioms, vstd::std_specs::vec::group_vec_axioms;

/// The raw text of the first attribute with the given name.
pub open spec fn attr_find(attrs: Seq<AttrV>, name: Seq<u8>) -> Option<Seq<u8>>
    decreases attrs.len(),
{
    if attrs.len() == 0 {
        None
    } else if attrs[0].name == name {
        Some(attrs[0].value)
    } else {
        attr_find(attrs.drop_first(), name)
    }
}

/// A required decimal field.
pub open spec fn dec_attr(attrs: Seq<AttrV>, name: Seq<u8>) -> Option<int> {
    match attr_find(attrs, name) {
        Some(v) => if is_dec_text(v) {
            Some(dec_text_val(v))
        } else {
            None
        },
        None => None,
    }
}

/// A required hexadecimal field.
pub open spec fn hex_attr(attrs: Seq<AttrV>, name: Seq<u8>) -> Option<int> {
    match attr_find(attrs, name) {
        Some(v) => if is_hex_text(v) {
            Some(hex_text_val(v))
        } else {
            None
        },
        None => None,
    }
}

/// A required boolean field.
pub open spec fn bool_attr(attrs: Seq<AttrV>, name: Seq<u8>) -> Option<bool> {
    match attr_find(attrs, name) {
        Some(v) => bool_token_val(v),
        None => None,
    }
}

/// A required nonempty string field, entity-unescaped.
pub open spec fn str_attr(attrs: Seq<AttrV>, name: Seq<u8>) -> Option<Seq<u8>> {
    match attr_find(attrs, name) {
        Some(v) => if v.len() > 0 {
            Some(unescaped(v))
        } else {
            None
        },
        None => None,
    }
}

/// A required, possibly empty string field, entity-unescaped.
pub open spec fn str_attr_any(attrs: Seq<AttrV>, name: Seq<u8>) -> Option<Seq<u8>> {
    match attr_find(attrs, name) {
        Some(v) => Some(unescaped(v)),
        None => None,
    }
}

/// An optional field: absent is permitted, a present but malformed
/// value is not.
pub open spec fn opt_dec_attr(attrs: Seq<AttrV>, name: Seq<u8>) -> Option<Option<int>> {
    match attr_find(attrs, name) {
        Some(v) => if is_dec_text(v) {
            Some(Some(dec_text_val(v)))
        } else {
            None
        },
        None => Some(None),
    }
}

pub open spec fn opt_hex_attr(attrs: Seq<AttrV>, name: Seq<u8>) -> Option<Option<int>> {
    match attr_find(attrs, name) {
        Some(v) => if is_hex_text(v) {
            Some(Some(hex_text_val(v)))
        } else {
            None
        },
        None => Some(None),
    }
}

pub open spec fn opt_bool_attr(attrs: Seq<AttrV>, name: Seq<u8>) -> Option<Option<bool>> {
    match attr_find(attrs, name) {
        Some(v) => match bool_token_val(v) {
            Some(b) => Some(Some(b)),
            None => None,
        },
        None => Some(None),
    }
}

pub open spec fn opt_str_attr(attrs: Seq<AttrV>, name: Seq<u8>) -> Option<Option<Seq<u8>>> {
    match attr_find(attrs, name) {
        Some(v) => Some(Some(unescaped(v))),
        None => Some(None),
    }
}

/// Position of the first `:` in a value, if any.
pub open spec fn sp_colon_at(s: Seq<u8>, pos: int) -> Option<int>
    decreases s.len() - pos,
{
    if !(0 <= pos < s.len()) {
        None
    } else if s[pos] == 58 {
        Some(pos)
    } else {
        sp_colon_at(s, pos + 1)
    }
}

/// The lexical form of a source position: `-?[0-9]+:-?[0-9]+`.
pub open spec fn is_line_text(s: Seq<u8>) -> bool {
    match sp_colon_at(s, 0) {
        Some(c) => is_dec_text(s.subrange(0, c)) && is_dec_text(s.subrange(c + 1, s.len() as int)),
        None => false,
    }
}

/// The (line, column) pair of a source position value.
pub open spec fn line_text_val(s: Seq<u8>) -> (int, int) {
    let c = sp_colon_at(s, 0)->Some_0;
    (dec_text_val(s.subrange(0, c)), dec_text_val(s.subrange(c + 1, s.len() as int)))
}

/// A required `line:column` field.
pub open spec fn line_attr(attrs: Seq<AttrV>, name: Seq<u8>) -> Option<(int, int)> {
    match attr_find(attrs, name) {
        Some(v) => if is_line_text(v) {
            Some(line_text_val(v))
        } else {
            None
        },
        None => None,
    }
}

/// Byte offset of the first value byte of the first attribute with the
/// given name (zero when absent).
pub open spec fn attr_value_pos(attrs: Seq<Attr>, name: Seq<u8>) -> int
    decreases attrs.len(),
{
    if attrs.len() == 0 {
        0
    } else if attrs[0]@.name == name {
        attrs[0].value_pos as int
    } else {
        attr_value_pos(attrs.drop_first(), name)
    }
}

/// The error reported for a present attribute whose value does not match
/// its lexical form: it names the attribute, carries the raw value text,
/// and points at the value's first byte.
pub open spec fn bad_value_err(e: ParseError, attrs: Seq<Attr>, name: Seq<u8>) -> bool {
    e.kind matches ErrorKind::BadAttrValue { attr, value } && attr@ == name && Some(value@)
        == attr_find(attrs_v(attrs), name) && e.pos == attr_value_pos(attrs, name)
}

/// The error reported for an absent required attribute: it names the
/// attribute and points at the element that lacks it.
pub open spec fn missing_err(e: ParseError, name: Seq<u8>, pos: int) -> bool {
    e.kind matches ErrorKind::MissingAttr(n) && n@ == name && e.pos == pos
}

/// The error of a failed required fetch: the attribute was present with
/// a malformed value, or absent.
pub open spec fn fetch_err(e: ParseError, attrs: Seq<Attr>, name: Seq<u8>, pos: int) -> bool {
    if attr_find(attrs_v(attrs), name) is Some {
        bad_value_err(e, attrs, name)
    } else {
        missing_err(e, name, pos)
    }
}

/// The value of an optional integer field, in the specification model.
pub open spec fn opt_int(o: Option<BigInt>) -> Option<int> {
    match o {
        Some(b) => Some(b@),
        None => None,
    }
}

/// The view of an optional string field.
pub open spec fn opt_bytes(o: Option<Vec<u8>>) -> Option<Seq<u8>> {
    match o {
        Some(v) => Some(v@),
        None => None,
    }
}

/// Find the first attribute with the given name.
pub fn find_attr(attrs: &Vec<Attr>, name: &[u8]) -> (r: Option<usize>)
    ensures
        match r {
            Some(i) => i < attrs@.len() && attr_find(attrs_v(attrs@), name@) == Some(
                attrs@[i as int]@.value,
            ) && attrs@[i as int]@.name == name@ && attrs@[i as int].value_pos
                == attr_value_pos(attrs@, name@),
            None => attr_find(attrs_v(attrs@), name@) is None,
        },
{
    let n = attrs.len();
    let mut i: usize = 0;
    proof {
        assert(attrs_v(attrs@).skip(0) =~= attrs_v(attrs@));
        assert(attrs@.skip(0) =~= attrs@);
    }
    while i < n
        invariant
            n == attrs@.len(),
            i <= n,
            attr_find(attrs_v(attrs@), name@) == attr_find(attrs_v(attrs@).skip(i as int), name@),
            attr_value_pos(attrs@, name@) == attr_value_pos(attrs@.skip(i as int), name@),
        decreases n - i,
    {
        let eq = crate::scan::kw_at(attrs[i].name.as_slice(), 0, attrs[i].name.len(), name);
        proof {
            assert(attrs@[i as int].name@.subrange(0, attrs@[i as int].name@.len() as int)
                =~= attrs@[i as int].name@);
            assert(attrs_v(attrs@).skip(i as int)[0] == attrs@[i as int]@);
            assert(attrs_v(attrs@).skip(i as int).drop_first() =~= attrs_v(attrs@).skip(i + 1));
            assert(attrs@.skip(i as int)[0] == attrs@[i as int]);
            assert(attrs@.skip(i as int).drop_first() =~= attrs@.skip(i + 1));
        }
        if eq {
            return Some(i);
        }
        i = i + 1;
    }
    None
}

/// Fetch and decode a required decimal attribute.
pub fn req_dec(attrs: &Vec<Attr>, name: &[u8], pos: usize) -> (r: Result<BigInt, ParseError>)
    ensures
        match r {
            Ok(b) => dec_attr(attrs_v(attrs@), name@) == Some(b@) && b.wf(),
            Err(e) => dec_attr(attrs_v(attrs@), name@) is None && fetch_err(
                e,
                attrs@,
                name@,
                pos as int,
            ),
        },
{
    match find_attr(attrs, name) {
        Some(i) => {
            let a = &attrs[i];
            match decode_decimal(a.value.as_slice()) {
                Some(b) => Ok(b),
                None => Err(
                    ParseError {
                        pos: a.value_pos,
                        kind: ErrorKind::BadAttrValue {
                            attr: slice_to_vec_u8(name),
                            value: slice_to_vec_u8(a.value.as_slice()),
                        },
                    },
                ),
            }
        },
        None => Err(ParseError { pos, kind: ErrorKind::MissingAttr(slice_to_vec_u8(name)) }),
    }
}

/// Fetch and decode a required hexadecimal attribute.
pub fn req_hex(attrs: &Vec<Attr>, name: &[u8], pos: usize) -> (r: Result<BigInt, ParseError>)
    ensures
        match r {
            Ok(b) => hex_attr(attrs_v(attrs@), name@) == Some(b@) && b.wf(),
            Err(e) => hex_attr(attrs_v(attrs@), name@) is None && fetch_err(
                e,
                attrs@,
                name@,
                pos as int,
            ),
        },
{
    match find_attr(attrs, name) {
        Some(i) => {
            let a = &attrs[i];
            match decode_hex(a.value.as_slice()) {
                Some(b) => Ok(b),
                None => Err(
                    ParseError {
                        pos: a.value_pos,
                        kind: ErrorKind::BadAttrValue {
                            attr: slice_to_vec_u8(name),
                            value: slice_to_vec_u8(a.value.as_slice()),
                        },
                    },
                ),
            }
        },
        None => Err(ParseError { pos, kind: ErrorKind::MissingAttr(slice_to_vec_u8(name)) }),
    }
}

/// Fetch and decode a required boolean attribute.
pub fn req_bool(attrs: &Vec<Attr>, name: &[u8], pos: usize) -> (r: Result<bool, ParseError>)
    ensures
        match r {
            Ok(b) => bool_attr(attrs_v(attrs@), name@) == Some(b),
            Err(e) => bool_attr(attrs_v(attrs@), name@) is None && fetch_err(
                e,
                attrs@,
                name@,
                pos as int,
            ),
        },
{
    match find_attr(attrs, name) {
        Some(i) => {
            let a = &attrs[i];
            match decode_boolean(a.value.as_slice()) {
                Some(b) => Ok(b),
                None => Err(
                    ParseError {
                        pos: a.value_pos,
                        kind: ErrorKind::BadAttrValue {
                            attr: slice_to_vec_u8(name),
                            value: slice_to_vec_u8(a.value.as_slice()),
                        },
                    },
                ),
            }
        },
        None => Err(ParseError { pos, kind: ErrorKind::MissingAttr(slice_to_vec_u8(name)) }),
    }
}

/// Fetch a required nonempty string attribute, entity-unescaped.
pub fn req_str(attrs: &Vec<Attr>, name: &[u8], pos: usize) -> (r: Result<Vec<u8>, ParseError>)
    ensures
        match r {
            Ok(v) => str_attr(attrs_v(attrs@), name@) == Some(v@),
            Err(e) => str_attr(attrs_v(attrs@), name@) is None && fetch_err(
                e,
                attrs@,
                name@,
                pos as int,
            ),
        },
{
    match find_attr(attrs, name) {
        Some(i) => {
            let a = &attrs[i];
            if a.value.len() == 0 {
                proof {
                    assert(Seq::<u8>::empty() =~= a.value@);
                }
                Err(
                    ParseError {
                        pos: a.value_pos,
                        kind: ErrorKind::BadAttrValue {
                            attr: slice_to_vec_u8(name),
                            value: Vec::new(),
                        },
                    },
                )
            } else {
                Ok(xml_unescape(a.value.as_slice()))
            }
        },
        None => Err(ParseError { pos, kind: ErrorKind::MissingAttr(slice_to_vec_u8(name)) }),
    }
}

/// Fetch a required, possibly empty string attribute, entity-unescaped.
pub fn req_str_any(attrs: &Vec<Attr>, name: &[u8], pos: usize) -> (r: Result<
    Vec<u8>,
    ParseError,
>)
    ensures
        match r {
            Ok(v) => str_attr_any(attrs_v(attrs@), name@) == Some(v@),
            Err(e) => str_attr_any(attrs_v(attrs@), name@) is None && missing_err(
                e,
                name@,
                pos as int,
            ),
        },
{
    match find_attr(attrs, name) {
        Some(i) => Ok(xml_unescape(attrs[i].value.as_slice())),
        None => Err(ParseError { pos, kind: ErrorKind::MissingAttr(slice_to_vec_u8(name)) }),
    }
}

/// Fetch an optional decimal attribute.
pub fn opt_dec(attrs: &Vec<Attr>, name: &[u8]) -> (r: Result<Option<BigInt>, ParseError>)
    ensures
        match r {
            Ok(o) => opt_dec_attr(attrs_v(attrs@), name@) == Some(opt_int(o)) && (o matches Some(b)
                ==> b.wf()),
            Err(e) => opt_dec_attr(attrs_v(attrs@), name@) is None && bad_value_err(
                e,
                attrs@,
                name@,
            ),
        },
{
    match find_attr(attrs, name) {
        Some(i) => {
            let a = &attrs[i];
            match decode_decimal(a.value.as_slice()) {
                Some(b) => Ok(Some(b)),
                None => Err(
                    ParseError {
                        pos: a.value_pos,
                        kind: ErrorKind::BadAttrValue {
                            attr: slice_to_vec_u8(name),
                            value: slice_to_vec_u8(a.value.as_slice()),
                        },
                    },
                ),
            }
        },
        None => Ok(None),
    }
}

/// Fetch an optional hexadecimal attribute.
pub fn opt_hex(attrs: &Vec<Attr>, name: &[u8]) -> (r: Result<Option<BigInt>, ParseError>)
    ensures
        match r {
            Ok(o) => opt_hex_attr(attrs_v(attrs@), name@) == Some(opt_int(o)) && (o matches Some(b)
                ==> b.wf()),
            Err(e) => opt_hex_attr(attrs_v(attrs@), name@) is None && bad_value_err(
                e,
                attrs@,
                name@,
            ),
        },
{
    match find_attr(attrs, name) {
        Some(i) => {
            let a = &attrs[i];
            match decode_hex(a.value.as_slice()) {
                Some(b) => Ok(Some(b)),
                None => Err(
                    ParseError {
                        pos: a.value_pos,
                        kind: ErrorKind::BadAttrValue {
                            attr: slice_to_vec_u8(name),
                            value: slice_to_vec_u8(a.value.as_slice()),
                        },
                    },
                ),
            }
        },
        None => Ok(None),
    }
}

/// Fetch an optional boolean attribute.
pub fn opt_bool(attrs: &Vec<Attr>, name: &[u8]) -> (r: Result<Option<bool>, ParseError>)
    ensures
        match r {
            Ok(o) => opt_bool_attr(attrs_v(attrs@), name@) == Some(o),
            Err(e) => opt_bool_attr(attrs_v(attrs@), name@) is None && bad_value_err(
                e,
                attrs@,
                name@,
            ),
        },
{
    match find_attr(attrs, name) {
        Some(i) => {
            let a = &attrs[i];
            match decode_boolean(a.value.as_slice()) {
                Some(b) => Ok(Some(b)),
                None => Err(
                    ParseError {
                        pos: a.value_pos,
                        kind: ErrorKind::BadAttrValue {
                            attr: slice_to_vec_u8(name),
                            value: slice_to_vec_u8(a.value.as_slice()),
                        },
                    },
                ),
            }
        },
        None => Ok(None),
    }
}

/// Fetch an optional string attribute, entity-unescaped.
pub fn opt_str(attrs: &Vec<Attr>, name: &[u8]) -> (r: Result<Option<Vec<u8>>, ParseError>)
    ensures
        match r {
            Ok(o) => opt_str_attr(attrs_v(attrs@), name@) == Some(opt_bytes(o)),
            Err(_) => opt_str_attr(attrs_v(attrs@), name@) is None,
        },
{
    match find_attr(attrs, name) {
        Some(i) => Ok(Some(xml_unescape(attrs[i].value.as_slice()))),
        None => Ok(None),
    }
}

/// Find the first `:` in a value.
fn colon_at(value: &[u8]) -> (r: Option<usize>)
    ensures
        match r {
            Some(c) => sp_colon_at(value@, 0) == Some(c as int) && c < value@.len(),
            None => sp_colon_at(value@, 0) is None,
        },
{
    let mut i: usize = 0;
    while i < value.len() && value[i] != 58
        invariant
            i <= value@.len(),
            sp_colon_at(value@, 0) == sp_colon_at(value@, i as int),
        decreases value@.len() - i,
    {
        i = i + 1;
    }
    if i < value.len() {
        Some(i)
    } else {
        None
    }
}

/// Fetch and decode a required `line:column` attribute.
pub fn req_line(attrs: &Vec<Attr>, name: &[u8], pos: usize) -> (r: Result<
    (BigInt, BigInt),
    ParseError,
>)
    ensures
        match r {
            Ok((l, c)) => line_attr(attrs_v(attrs@), name@) == Some((l@, c@)) && l.wf() && c.wf(),
            Err(e) => line_attr(attrs_v(attrs@), name@) is None && fetch_err(
                e,
                attrs@,
                name@,
                pos as int,
            ),
        },
{
    let i = match find_attr(attrs, name) {
        Some(i) => i,
        None => {
            return Err(ParseError { pos, kind: ErrorKind::MissingAttr(slice_to_vec_u8(name)) });
        },
    };
    let a = &attrs[i];
    let c = match colon_at(a.value.as_slice()) {
        Some(c) => c,
        None => {
            return Err(
                ParseError {
                    pos: a.value_pos,
                    kind: ErrorKind::BadAttrValue {
                        attr: slice_to_vec_u8(name),
                        value: slice_to_vec_u8(a.value.as_slice()),
                    },
                },
            );
        },
    };
    let vlen = a.value.len();
    let left = copy_range(a.value.as_slice(), 0, c);
    let right = copy_range(a.value.as_slice(), c + 1, vlen);
    let lv = match decode_decimal(left.as_slice()) {
        Some(b) => b,
        None => {
            return Err(
                ParseError {
                    pos: a.value_pos,
                    kind: ErrorKind::BadAttrValue {
                        attr: slice_to_vec_u8(name),
                        value: slice_to_vec_u8(a.value.as_slice()),
                    },
                },
            );
        },
    };
    let cv = match decode_decimal(right.as_slice()) {
        Some(b) => b,
        None => {
            return Err(
                ParseError {
                    pos: a.value_pos,
                    kind: ErrorKind::BadAttrValue {
                        attr: slice_to_vec_u8(name),
                        value: slice_to_vec_u8(a.value.as_slice()),
                    },
                },
            );
        },
    };
    Ok((lv, cv))
}

} // verus!
