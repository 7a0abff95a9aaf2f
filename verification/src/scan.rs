//! Tag scanner: tokenizes one tag or one attribute at a time.
//!
//! The scanner recognizes opening tags `<name`, closing tags `</name>`,
//! self-closing terminators `/>`, plain terminators `>`, and attribute
//! lists `key = "value"`, with insignificant whitespace wherever two
//! tokens meet.  It does not know the tag vocabulary or any nesting
//! rules; those belong to the node parsers.
//!
//! Every executable scanner is specified against a spec-level scanner
//! over the byte sequence of the input (`sp_skip_ws`, `sp_peek_tag`,
//! `sp_attrs`, `sp_elem_open`, `sp_close_tag`), which the node-parser
//! specifications reuse verbatim.

use vstd::prelude::*;
use vstd::string::StringSliceAdditionalSpecFns;
use crate::error::ParseError;

verus! {

broadcast use vstd::seq::group_seq_axioms, vstd::std_specs::vec::group_vec_axioms;

/// The bytes of a keyword literal, as the specs speak of it.
pub open spec fn lit_bytes(s: &str) -> Seq<u8> {
    s.spec_bytes()
}

/// Insignificant whitespace: space, tab, line feed, vertical tab, form
/// feed, carriage return.
pub open spec fn is_ws(b: u8) -> bool {
    b == 32 || (9 <= b <= 13)
}

/// Bytes allowed in tag and attribute names: `a`-`z`, `0`-`9`, `_`.
pub open spec fn is_name_byte(b: u8) -> bool {
    (97 <= b <= 122) || (48 <= b <= 57) || b == 95
}

/// First position at or after `pos` holding a non-whitespace byte (or the
/// end of input).
pub open spec fn sp_skip_ws(s: Seq<u8>, pos: int) -> int
    decreases s.len() - pos,
{
    if 0 <= pos < s.len() && is_ws(s[pos]) {
        sp_skip_ws(s, pos + 1)
    } else {
        pos
    }
}

/// First position at or after `pos` holding a non-name byte (or the end
/// of input).
pub open spec fn sp_name_end(s: Seq<u8>, pos: int) -> int
    decreases s.len() - pos,
{
    if 0 <= pos < s.len() && is_name_byte(s[pos]) {
        sp_name_end(s, pos + 1)
    } else {
        pos
    }
}

/// Position of the next `"` at or after `pos`, if any.
pub open spec fn sp_quote_at(s: Seq<u8>, pos: int) -> Option<int>
    decreases s.len() - pos,
{
    if !(0 <= pos < s.len()) {
        None
    } else if s[pos] == 34 {
        Some(pos)
    } else {
        sp_quote_at(s, pos + 1)
    }
}

pub proof fn lemma_skip_ws_bounds(s: Seq<u8>, pos: int)
    requires
        0 <= pos <= s.len(),
    ensures
        pos <= sp_skip_ws(s, pos) <= s.len(),
    decreases s.len() - pos,
{
    if pos < s.len() && is_ws(s[pos]) {
        lemma_skip_ws_bounds(s, pos + 1);
    }
}

/// Skip insignificant whitespace.
pub fn skip_ws(inp: &[u8], pos: usize) -> (r: usize)
    requires
        pos <= inp@.len(),
    ensures
        r == sp_skip_ws(inp@, pos as int),
        pos <= r <= inp@.len(),
{
    let mut i: usize = pos;
    while i < inp.len() && (inp[i] == 32 || (9 <= inp[i] && inp[i] <= 13))
        invariant
            pos <= i <= inp@.len(),
            sp_skip_ws(inp@, pos as int) == sp_skip_ws(inp@, i as int),
        decreases inp@.len() - i,
    {
        i = i + 1;
    }
    i
}

/// Scan a maximal run of name bytes.
pub fn name_end(inp: &[u8], pos: usize) -> (r: usize)
    requires
        pos <= inp@.len(),
    ensures
        r == sp_name_end(inp@, pos as int),
        pos <= r <= inp@.len(),
{
    let mut i: usize = pos;
    while i < inp.len() && ((97 <= inp[i] && inp[i] <= 122) || (48 <= inp[i] && inp[i] <= 57)
        || inp[i] == 95)
        invariant
            pos <= i <= inp@.len(),
            sp_name_end(inp@, pos as int) == sp_name_end(inp@, i as int),
        decreases inp@.len() - i,
    {
        i = i + 1;
    }
    i
}

/// Find the closing quote of an attribute value.
pub fn quote_at(inp: &[u8], pos: usize) -> (r: Option<usize>)
    requires
        pos <= inp@.len(),
    ensures
        match r {
            Some(q) => sp_quote_at(inp@, pos as int) == Some(q as int) && pos <= q
                < inp@.len(),
            None => sp_quote_at(inp@, pos as int) is None,
        },
{
    let mut i: usize = pos;
    while i < inp.len() && inp[i] != 34
        invariant
            pos <= i <= inp@.len(),
            sp_quote_at(inp@, pos as int) == sp_quote_at(inp@, i as int),
        decreases inp@.len() - i,
    {
        i = i + 1;
    }
    if i < inp.len() {
        Some(i)
    } else {
        None
    }
}

/// Whether the bytes `inp[a..b]` equal the keyword `kw`.
pub fn kw_at(inp: &[u8], a: usize, b: usize, kw: &[u8]) -> (r: bool)
    requires
        a <= b <= inp@.len(),
    ensures
        r == (inp@.subrange(a as int, b as int) == kw@),
{
    if b - a != kw.len() {
        proof {
            assert(inp@.subrange(a as int, b as int).len() == b - a);
        }
        return false;
    }
    let mut i: usize = 0;
    while i < kw.len()
        invariant
            a <= b <= inp@.len(),
            b - a == kw@.len(),
            i <= kw@.len(),
            forall|j: int| 0 <= j < i ==> inp@[a + j] == kw@[j],
        decreases kw@.len() - i,
    {
        if inp[a + i] != kw[i] {
            proof {
                assert(inp@.subrange(a as int, b as int)[i as int] != kw@[i as int]);
            }
            return false;
        }
        i = i + 1;
    }
    proof {
        assert(inp@.subrange(a as int, b as int) =~= kw@);
    }
    true
}

/// Copy the bytes `inp[a..b]` out of the input.
pub fn copy_range(inp: &[u8], a: usize, b: usize) -> (v: Vec<u8>)
    requires
        a <= b <= inp@.len(),
    ensures
        v@ == inp@.subrange(a as int, b as int),
{
    let mut v: Vec<u8> = Vec::new();
    let mut i: usize = a;
    while i < b
        invariant
            a <= i <= b <= inp@.len(),
            v@ =~= inp@.subrange(a as int, i as int),
        decreases b - i,
    {
        v.push(inp[i]);
        i = i + 1;
    }
    proof {
        assert(v@ =~= inp@.subrange(a as int, b as int));
    }
    v
}

/// One scanned `key = "value"` attribute, in the specification model.
pub struct AttrV {
    pub name: Seq<u8>,
    /// The raw value text between the quotes, not yet unescaped.
    pub value: Seq<u8>,
}

/// One scanned `key = "value"` attribute.
pub struct Attr {
    pub name: Vec<u8>,
    /// The raw value text between the quotes, not yet unescaped.
    pub value: Vec<u8>,
    /// Byte offset of the first value byte, for error reporting.
    pub value_pos: usize,
}

impl View for Attr {
    type V = AttrV;

    open spec fn view(&self) -> AttrV {
        AttrV { name: self.name@, value: self.value@ }
    }
}

/// The spec view of a scanned attribute list.
pub open spec fn attrs_v(attrs: Seq<Attr>) -> Seq<AttrV> {
    attrs.map_values(|a: Attr| a@)
}

/// The result of peeking one tag: whether it is a closing tag, and its
/// name.
pub open spec fn sp_peek_tag(s: Seq<u8>, pos: int) -> Option<(bool, Seq<u8>, int)> {
    let p = sp_skip_ws(s, pos);
    if 0 <= p < s.len() && s[p] == 60 {
        let q = sp_skip_ws(s, p + 1);
        if 0 <= q < s.len() && s[q] == 47 {
            let r = sp_skip_ws(s, q + 1);
            let e = sp_name_end(s, r);
            if e > r {
                Some((true, s.subrange(r, e), e))
            } else {
                None
            }
        } else {
            let e = sp_name_end(s, q);
            if e > q {
                Some((false, s.subrange(q, e), e))
            } else {
                None
            }
        }
    } else {
        None
    }
}

/// A peeked tag: `is_close` distinguishes `</name` from `<name`; the
/// name occupies `inp[ns..ne]`.
pub struct Peek {
    pub is_close: bool,
    pub ns: usize,
    pub ne: usize,
}

/// Peek the next tag without consuming anything after its name.
pub fn peek_tag(inp: &[u8], pos: usize) -> (r: Result<Peek, ParseError>)
    requires
        pos <= inp@.len(),
    ensures
        match r {
            Ok(pk) => sp_peek_tag(inp@, pos as int) == Some(
                (pk.is_close, inp@.subrange(pk.ns as int, pk.ne as int), pk.ne as int),
            ) && pos <= pk.ns <= pk.ne <= inp@.len() && pk.ns < pk.ne,
            Err(_) => sp_peek_tag(inp@, pos as int) is None,
        },
{
    let p = skip_ws(inp, pos);
    if !(p < inp.len() && inp[p] == 60) {
        return Err(ParseError::malformed(p));
    }
    let q = skip_ws(inp, p + 1);
    if q < inp.len() && inp[q] == 47 {
        let r = skip_ws(inp, q + 1);
        let e = name_end(inp, r);
        if e > r {
            Ok(Peek { is_close: true, ns: r, ne: e })
        } else {
            Err(ParseError::malformed(r))
        }
    } else {
        let e = name_end(inp, q);
        if e > q {
            Ok(Peek { is_close: false, ns: q, ne: e })
        } else {
            Err(ParseError::malformed(q))
        }
    }
}

/// Scan `key = "value"` attributes until something that cannot start an
/// attribute is reached.  Returns the attributes in document order and
/// the position of the first non-attribute byte (whitespace skipped).
pub open spec fn sp_attrs(s: Seq<u8>, pos: int) -> Option<(Seq<AttrV>, int)>
    decreases s.len() - pos,
{
    let p = sp_skip_ws(s, pos);
    if 0 <= p < s.len() && is_name_byte(s[p]) {
        let e = sp_name_end(s, p);
        let q = sp_skip_ws(s, e);
        if 0 <= q < s.len() && s[q] == 61 {
            let r = sp_skip_ws(s, q + 1);
            if 0 <= r < s.len() && s[r] == 34 {
                match sp_quote_at(s, r + 1) {
                    Some(ve) => {
                        let a = AttrV { name: s.subrange(p, e), value: s.subrange(r + 1, ve) };
                        if pos < ve + 1 <= s.len() {
                            match sp_attrs(s, ve + 1) {
                                Some((rest, end)) => Some((seq![a] + rest, end)),
                                None => None,
                            }
                        } else {
                            None
                        }
                    },
                    None => None,
                }
            } else {
                None
            }
        } else {
            None
        }
    } else {
        Some((Seq::empty(), p))
    }
}

/// Scan the attribute list of the current tag.
pub fn scan_attrs(inp: &[u8], pos: usize) -> (r: Result<(Vec<Attr>, usize), ParseError>)
    requires
        pos <= inp@.len(),
    ensures
        match r {
            Ok((attrs, p)) => sp_attrs(inp@, pos as int) == Some((attrs_v(attrs@), p as int))
                && pos <= p <= inp@.len(),
            Err(_) => sp_attrs(inp@, pos as int) is None,
        },
{
    let mut out: Vec<Attr> = Vec::new();
    let mut i: usize = pos;
    loop
        invariant
            pos <= i <= inp@.len(),
            sp_attrs(inp@, pos as int) == match sp_attrs(inp@, i as int) {
                Some((rest, end)) => Some::<(Seq<AttrV>, int)>((attrs_v(out@) + rest, end)),
                None => None::<(Seq<AttrV>, int)>,
            },
        decreases inp@.len() - i,
    {
        let p = skip_ws(inp, i);
        if !(p < inp.len() && ((97 <= inp[p] && inp[p] <= 122) || (48 <= inp[p] && inp[p]
            <= 57) || inp[p] == 95)) {
            proof {
                assert(sp_attrs(inp@, i as int) == Some::<(Seq<AttrV>, int)>(
                    (Seq::empty(), p as int),
                ));
                assert(attrs_v(out@) + Seq::<AttrV>::empty() =~= attrs_v(out@));
            }
            return Ok((out, p));
        }
        let e = name_end(inp, p);
        let q = skip_ws(inp, e);
        if !(q < inp.len() && inp[q] == 61) {
            return Err(ParseError::malformed(q));
        }
        let r = skip_ws(inp, q + 1);
        if !(r < inp.len() && inp[r] == 34) {
            return Err(ParseError::malformed(r));
        }
        let ve = match quote_at(inp, r + 1) {
            Some(ve) => ve,
            None => {
                return Err(ParseError::malformed(inp.len()));
            },
        };
        let name = copy_range(inp, p, e);
        let value = copy_range(inp, r + 1, ve);
        let a = Attr { name, value, value_pos: r + 1 };
        proof {
            let av = AttrV { name: inp@.subrange(p as int, e as int), value: inp@.subrange(
                r + 1, ve as int) };
            assert(a@ == av);
            assert(attrs_v(out@.push(a)) =~= attrs_v(out@) + seq![av]);
            match sp_attrs(inp@, ve + 1) {
                Some((rest, end)) => {
                    assert((attrs_v(out@) + (seq![av] + rest)) =~= (attrs_v(out@) + seq![av])
                        + rest);
                },
                None => {},
            }
        }
        out.push(a);
        i = ve + 1;
    }
}

/// A fully scanned element opening: `<name attrs... >` or
/// `<name attrs... />`.  The name, the attribute list, whether the tag
/// was self-closing, and the position just past the terminator.
pub open spec fn sp_elem_open(s: Seq<u8>, pos: int) -> Option<(Seq<u8>, Seq<AttrV>, bool, int)> {
    match sp_peek_tag(s, pos) {
        Some((is_close, name, p1)) => {
            if is_close {
                None
            } else {
                match sp_attrs(s, p1) {
                    Some((attrs, p2)) => {
                        if 0 <= p2 < s.len() && s[p2] == 47 {
                            let p3 = sp_skip_ws(s, p2 + 1);
                            if 0 <= p3 < s.len() && s[p3] == 62 {
                                Some((name, attrs, true, p3 + 1))
                            } else {
                                None
                            }
                        } else if 0 <= p2 < s.len() && s[p2] == 62 {
                            Some((name, attrs, false, p2 + 1))
                        } else {
                            None
                        }
                    },
                    None => None,
                }
            }
        },
        None => None,
    }
}

/// An opened element: name span, attributes, closing form, and the
/// position just past `>`.
pub struct Elem {
    pub ns: usize,
    pub ne: usize,
    pub attrs: Vec<Attr>,
    pub self_closed: bool,
    pub after: usize,
}

/// Consume one element opening, through its `>` or `/>`.
pub fn elem_open(inp: &[u8], pos: usize) -> (r: Result<Elem, ParseError>)
    requires
        pos <= inp@.len(),
    ensures
        match r {
            Ok(el) => sp_elem_open(inp@, pos as int) == Some(
                (
                    inp@.subrange(el.ns as int, el.ne as int),
                    attrs_v(el.attrs@),
                    el.self_closed,
                    el.after as int,
                ),
            ) && pos < el.after <= inp@.len() && el.ns < el.ne <= inp@.len(),
            Err(_) => sp_elem_open(inp@, pos as int) is None,
        },
{
    let pk = peek_tag(inp, pos)?;
    if pk.is_close {
        return Err(ParseError::malformed(pk.ns));
    }
    let (attrs, p2) = scan_attrs(inp, pk.ne)?;
    if p2 < inp.len() && inp[p2] == 47 {
        let p3 = skip_ws(inp, p2 + 1);
        if p3 < inp.len() && inp[p3] == 62 {
            proof {
                lemma_skip_ws_bounds(inp@, pos as int);
            }
            Ok(Elem { ns: pk.ns, ne: pk.ne, attrs, self_closed: true, after: p3 + 1 })
        } else {
            Err(ParseError::malformed(p3))
        }
    } else if p2 < inp.len() && inp[p2] == 62 {
        proof {
            lemma_skip_ws_bounds(inp@, pos as int);
        }
        Ok(Elem { ns: pk.ns, ne: pk.ne, attrs, self_closed: false, after: p2 + 1 })
    } else {
        Err(ParseError::malformed(p2))
    }
}

/// Consume the closing tag `</name>` for the given name.
pub open spec fn sp_close_tag(s: Seq<u8>, pos: int, name: Seq<u8>) -> Option<int> {
    match sp_peek_tag(s, pos) {
        Some((is_close, nm, p1)) => {
            if is_close && nm == name {
                let q = sp_skip_ws(s, p1);
                if 0 <= q < s.len() && s[q] == 62 {
                    Some(q + 1)
                } else {
                    None
                }
            } else {
                None
            }
        },
        None => None,
    }
}

/// Consume the closing tag `</kw>`.
pub fn close_tag(inp: &[u8], pos: usize, kw: &[u8]) -> (r: Result<usize, ParseError>)
    requires
        pos <= inp@.len(),
    ensures
        match r {
            Ok(p) => sp_close_tag(inp@, pos as int, kw@) == Some(p as int) && pos < p
                <= inp@.len(),
            Err(_) => sp_close_tag(inp@, pos as int, kw@) is None,
        },
{
    let pk = peek_tag(inp, pos)?;
    if !pk.is_close {
        return Err(ParseError::expected(pk.ns, slice_to_vec_u8(kw)));
    }
    if !kw_at(inp, pk.ns, pk.ne, kw) {
        return Err(ParseError::expected(pk.ns, slice_to_vec_u8(kw)));
    }
    let q = skip_ws(inp, pk.ne);
    if q < inp.len() && inp[q] == 62 {
        proof {
            lemma_skip_ws_bounds(inp@, pos as int);
        }
        Ok(q + 1)
    } else {
        Err(ParseError::malformed(q))
    }
}

/// Copy a keyword slice into an owned vector, for error payloads.
pub fn slice_to_vec_u8(kw: &[u8]) -> (v: Vec<u8>)
    ensures
        v@ == kw@,
{
    copy_range(kw, 0, kw.len())
}

/// Relation between an executable node parser's result and the spec
/// parser it implements: success returns exactly the specified value and
/// end position (strictly past `pos`, since every node consumes at least
/// its tag); failure happens exactly when the spec parser refuses.
pub open spec fn parsed<T: View>(
    r: Result<(T, usize), ParseError>,
    sp: Option<(T::V, int)>,
    pos: int,
    len: int,
) -> bool {
    match r {
        Ok((x, p)) => sp == Some((x@, p as int)) && pos < p <= len,
        Err(_) => sp is None,
    }
}

} // verus!
