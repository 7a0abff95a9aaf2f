//! Parsers for the symbol table: scopes, symbol headers, and the
//! fifteen symbol variants.
//!
//! Symbols form a closed tagged union: one tag name selects the variant,
//! and every variant carries the common header (name, id, owning scope).
//! The symbol list corresponds positionally to the header list; a length
//! mismatch between the two is a cardinality error.

use vstd::prelude::*;
use crate::attrs::{
    bool_attr, dec_attr, hex_attr, opt_bool, opt_bool_attr, opt_hex, opt_hex_attr, opt_str,
    opt_str_attr, req_bool, req_dec, req_hex, req_str, req_str_any, str_attr, str_attr_any,
};
use crate::error::{ErrorKind, ParseError};
use crate::model::{
    ContextSymbol, ContextSymbolV, EpsilonSymbol, EpsilonSymbolV, EndSymbol, EndSymbolV,
    FamilySymbol, FamilySymbolV, FlowDestSymbol, FlowDestSymbolV, FlowRefSymbol, FlowRefSymbolV,
    NameSymbol, NameSymbolV, NameTableValue, NameTableValueV, Next2Symbol, Next2SymbolV,
    OperandSymbol, OperandSymbolV, PatternlessSymbol, PatternlessSymbolV, Scope, ScopeV,
    SleighSymbolType, SleighSymbolTypeV, SpecificSymbol, SpecificSymbolV, StartSymbol,
    StartSymbolV, SubtableSymbol, SubtableSymbolV, SymbolHeader, SymbolHeaderType,
    SymbolHeaderTypeV, SymbolHeaderV, SymbolTable, SymbolTableV, TripleSymbol, TripleSymbolV,
    UserOpSymbol, UserOpSymbolV, ValueMapSymbol, ValueMapSymbolV, ValueSymbol, ValueSymbolType,
    ValueSymbolTypeV, ValueSymbolV, ValueTableValue, ValueTableValueV, VarNodeListSymbol,
    VarNodeListSymbolV, VarNodeSymbol, VarNodeSymbolV, VarNodeTableValue, VarNodeTableValueType,
    VarNodeTableValueTypeV, VarNodeTableValueV, Constructor, ConstructorV, vec_view,
};
use crate::parse_ctor::{p_constructor, sp_constructor};
use crate::parse_expr::{p_expr, p_marker, p_pattern_value, sp_expr, sp_marker, sp_pattern_value};
use crate::parse_pat::{p_decision, sp_decision};
use crate::scan::{
    Attr, AttrV, close_tag, elem_open, kw_at, lit_bytes, parsed, peek_tag, sp_close_tag,
    sp_elem_open, sp_peek_tag,
};

verus! {

broadcast use vstd::seq::group_seq_axioms, vstd::std_specs::vec::group_vec_axioms;

// ---------------------------------------------------------------------
// Headers and scopes
// ---------------------------------------------------------------------

/// The header attributes every symbol and symbol header carries.
pub open spec fn hdr_attrs(attrs: Seq<AttrV>) -> Option<SymbolHeaderV> {
    match (
        str_attr(attrs, lit_bytes("name")),
        hex_attr(attrs, lit_bytes("id")),
        hex_attr(attrs, lit_bytes("scope")),
    ) {
        (Some(name), Some(id), Some(scope)) => Some(SymbolHeaderV { name, id, scope }),
        _ => None,
    }
}

/// Decode the common header attributes.
pub fn p_hdr(attrs: &Vec<Attr>, pos: usize) -> (r: Result<SymbolHeader, ParseError>)
    ensures
        match r {
            Ok(h) => hdr_attrs(crate::scan::attrs_v(attrs@)) == Some(h@),
            Err(_) => hdr_attrs(crate::scan::attrs_v(attrs@)) is None,
        },
{
    let name = req_str(attrs, "name".as_bytes(), pos)?;
    let id = req_hex(attrs, "id".as_bytes(), pos)?;
    let scope = req_hex(attrs, "scope".as_bytes(), pos)?;
    Ok(SymbolHeader { name, id, scope })
}

/// A self-closing element holding only header attributes.
pub open spec fn sp_head_elem(s: Seq<u8>, pos: int, tag: Seq<u8>) -> Option<(SymbolHeaderV, int)> {
    match sp_elem_open(s, pos) {
        Some((name, attrs, sc, p)) => if name == tag && sc {
            match hdr_attrs(attrs) {
                Some(h) => Some((h, p)),
                None => None,
            }
        } else {
            None
        },
        None => None,
    }
}

pub fn p_head_elem(inp: &[u8], pos: usize, kw: &[u8]) -> (r: Result<
    (SymbolHeader, usize),
    ParseError,
>)
    requires
        pos <= inp@.len(),
    ensures
        match r {
            Ok((h, p)) => sp_head_elem(inp@, pos as int, kw@) == Some((h@, p as int)) && pos < p
                <= inp@.len(),
            Err(_) => sp_head_elem(inp@, pos as int, kw@) is None,
        },
{
    let el = elem_open(inp, pos)?;
    if !(kw_at(inp, el.ns, el.ne, kw) && el.self_closed) {
        return Err(ParseError::malformed(el.ns));
    }
    let h = p_hdr(&el.attrs, el.ns)?;
    Ok((h, el.after))
}

/// The tags of the symbol-header vocabulary.
pub open spec fn is_head_tag(name: Seq<u8>) -> bool {
    ||| name == lit_bytes("userop_head")
    ||| name == lit_bytes("epsilon_sym_head")
    ||| name == lit_bytes("value_sym_head")
    ||| name == lit_bytes("valuemap_sym_head")
    ||| name == lit_bytes("name_sym_head")
    ||| name == lit_bytes("varnode_sym_head")
    ||| name == lit_bytes("context_sym_head")
    ||| name == lit_bytes("varlist_sym_head")
    ||| name == lit_bytes("operand_sym_head")
    ||| name == lit_bytes("start_sym_head")
    ||| name == lit_bytes("end_sym_head")
    ||| name == lit_bytes("next2_sym_head")
    ||| name == lit_bytes("flowdest_sym_head")
    ||| name == lit_bytes("flowref_sym_head")
    ||| name == lit_bytes("subtable_sym_head")
}

pub open spec fn sp_sym_head(s: Seq<u8>, pos: int) -> Option<(SymbolHeaderTypeV, int)> {
    match sp_peek_tag(s, pos) {
        Some((false, name, _)) => if name == lit_bytes("userop_head") {
            match sp_head_elem(s, pos, name) {
                Some((h, p)) => Some((SymbolHeaderTypeV::UserOp(h), p)),
                None => None,
            }
        } else if name == lit_bytes("epsilon_sym_head") {
            match sp_head_elem(s, pos, name) {
                Some((h, p)) => Some((SymbolHeaderTypeV::Epsilon(h), p)),
                None => None,
            }
        } else if name == lit_bytes("value_sym_head") {
            match sp_head_elem(s, pos, name) {
                Some((h, p)) => Some((SymbolHeaderTypeV::Value(h), p)),
                None => None,
            }
        } else if name == lit_bytes("valuemap_sym_head") {
            match sp_head_elem(s, pos, name) {
                Some((h, p)) => Some((SymbolHeaderTypeV::ValueMap(h), p)),
                None => None,
            }
        } else if name == lit_bytes("name_sym_head") {
            match sp_head_elem(s, pos, name) {
                Some((h, p)) => Some((SymbolHeaderTypeV::Name(h), p)),
                None => None,
            }
        } else if name == lit_bytes("varnode_sym_head") {
            match sp_head_elem(s, pos, name) {
                Some((h, p)) => Some((SymbolHeaderTypeV::VarNode(h), p)),
                None => None,
            }
        } else if name == lit_bytes("context_sym_head") {
            match sp_head_elem(s, pos, name) {
                Some((h, p)) => Some((SymbolHeaderTypeV::Context(h), p)),
                None => None,
            }
        } else if name == lit_bytes("varlist_sym_head") {
            match sp_head_elem(s, pos, name) {
                Some((h, p)) => Some((SymbolHeaderTypeV::VarNodeList(h), p)),
                None => None,
            }
        } else if name == lit_bytes("operand_sym_head") {
            match sp_head_elem(s, pos, name) {
                Some((h, p)) => Some((SymbolHeaderTypeV::Operand(h), p)),
                None => None,
            }
        } else if name == lit_bytes("start_sym_head") {
            match sp_head_elem(s, pos, name) {
                Some((h, p)) => Some((SymbolHeaderTypeV::Start(h), p)),
                None => None,
            }
        } else if name == lit_bytes("end_sym_head") {
            match sp_head_elem(s, pos, name) {
                Some((h, p)) => Some((SymbolHeaderTypeV::End(h), p)),
                None => None,
            }
        } else if name == lit_bytes("next2_sym_head") {
            match sp_head_elem(s, pos, name) {
                Some((h, p)) => Some((SymbolHeaderTypeV::Next2(h), p)),
                None => None,
            }
        } else if name == lit_bytes("flowdest_sym_head") {
            match sp_head_elem(s, pos, name) {
                Some((h, p)) => Some((SymbolHeaderTypeV::FlowDest(h), p)),
                None => None,
            }
        } else if name == lit_bytes("flowref_sym_head") {
            match sp_head_elem(s, pos, name) {
                Some((h, p)) => Some((SymbolHeaderTypeV::FlowRef(h), p)),
                None => None,
            }
        } else if name == lit_bytes("subtable_sym_head") {
            match sp_head_elem(s, pos, name) {
                Some((h, p)) => Some((SymbolHeaderTypeV::SubTable(h), p)),
                None => None,
            }
        } else {
            None
        },
        _ => None,
    }
}

#[verifier::rlimit(50)]
pub fn p_sym_head(inp: &[u8], pos: usize) -> (r: Result<(SymbolHeaderType, usize), ParseError>)
    requires
        pos <= inp@.len(),
    ensures
        parsed(r, sp_sym_head(inp@, pos as int), pos as int, inp@.len() as int),
{
    let pk = peek_tag(inp, pos)?;
    if pk.is_close {
        return Err(ParseError::malformed(pk.ns));
    }
    if kw_at(inp, pk.ns, pk.ne, "userop_head".as_bytes()) {
        let (header, p) = p_head_elem(inp, pos, "userop_head".as_bytes())?;
        Ok((SymbolHeaderType::UserOp { header }, p))
    } else if kw_at(inp, pk.ns, pk.ne, "epsilon_sym_head".as_bytes()) {
        let (header, p) = p_head_elem(inp, pos, "epsilon_sym_head".as_bytes())?;
        Ok((SymbolHeaderType::Epsilon { header }, p))
    } else if kw_at(inp, pk.ns, pk.ne, "value_sym_head".as_bytes()) {
        let (header, p) = p_head_elem(inp, pos, "value_sym_head".as_bytes())?;
        Ok((SymbolHeaderType::Value { header }, p))
    } else if kw_at(inp, pk.ns, pk.ne, "valuemap_sym_head".as_bytes()) {
        let (header, p) = p_head_elem(inp, pos, "valuemap_sym_head".as_bytes())?;
        Ok((SymbolHeaderType::ValueMap { header }, p))
    } else if kw_at(inp, pk.ns, pk.ne, "name_sym_head".as_bytes()) {
        let (header, p) = p_head_elem(inp, pos, "name_sym_head".as_bytes())?;
        Ok((SymbolHeaderType::Name { header }, p))
    } else if kw_at(inp, pk.ns, pk.ne, "varnode_sym_head".as_bytes()) {
        let (header, p) = p_head_elem(inp, pos, "varnode_sym_head".as_bytes())?;
        Ok((SymbolHeaderType::VarNode { header }, p))
    } else if kw_at(inp, pk.ns, pk.ne, "context_sym_head".as_bytes()) {
        let (header, p) = p_head_elem(inp, pos, "context_sym_head".as_bytes())?;
        Ok((SymbolHeaderType::Context { header }, p))
    } else if kw_at(inp, pk.ns, pk.ne, "varlist_sym_head".as_bytes()) {
        let (header, p) = p_head_elem(inp, pos, "varlist_sym_head".as_bytes())?;
        Ok((SymbolHeaderType::VarNodeList { header }, p))
    } else if kw_at(inp, pk.ns, pk.ne, "operand_sym_head".as_bytes()) {
        let (header, p) = p_head_elem(inp, pos, "operand_sym_head".as_bytes())?;
        Ok((SymbolHeaderType::Operand { header }, p))
    } else if kw_at(inp, pk.ns, pk.ne, "start_sym_head".as_bytes()) {
        let (header, p) = p_head_elem(inp, pos, "start_sym_head".as_bytes())?;
        Ok((SymbolHeaderType::Start { header }, p))
    } else if kw_at(inp, pk.ns, pk.ne, "end_sym_head".as_bytes()) {
        let (header, p) = p_head_elem(inp, pos, "end_sym_head".as_bytes())?;
        Ok((SymbolHeaderType::End { header }, p))
    } else if kw_at(inp, pk.ns, pk.ne, "next2_sym_head".as_bytes()) {
        let (header, p) = p_head_elem(inp, pos, "next2_sym_head".as_bytes())?;
        Ok((SymbolHeaderType::Next2 { header }, p))
    } else if kw_at(inp, pk.ns, pk.ne, "flowdest_sym_head".as_bytes()) {
        let (header, p) = p_head_elem(inp, pos, "flowdest_sym_head".as_bytes())?;
        Ok((SymbolHeaderType::FlowDest { header }, p))
    } else if kw_at(inp, pk.ns, pk.ne, "flowref_sym_head".as_bytes()) {
        let (header, p) = p_head_elem(inp, pos, "flowref_sym_head".as_bytes())?;
        Ok((SymbolHeaderType::FlowRef { header }, p))
    } else if kw_at(inp, pk.ns, pk.ne, "subtable_sym_head".as_bytes()) {
        let (header, p) = p_head_elem(inp, pos, "subtable_sym_head".as_bytes())?;
        Ok((SymbolHeaderType::SubTable { header }, p))
    } else {
        Err(ParseError::malformed(pk.ns))
    }
}

pub open spec fn sp_sym_head_list(s: Seq<u8>, pos: int) -> Option<(Seq<SymbolHeaderTypeV>, int)>
    decreases s.len() - pos,
{
    match sp_peek_tag(s, pos) {
        Some((false, name, _)) => if is_head_tag(name) {
            match sp_sym_head(s, pos) {
                Some((x, p2)) => if pos < p2 <= s.len() {
                    match sp_sym_head_list(s, p2) {
                        Some((rest, end)) => Some((seq![x] + rest, end)),
                        None => None,
                    }
                } else {
                    None
                },
                None => None,
            }
        } else {
            Some((Seq::empty(), pos))
        },
        _ => Some((Seq::empty(), pos)),
    }
}

/// Whether the peeked open tag is one of the symbol-header tags.
fn head_tag_at(inp: &[u8], ns: usize, ne: usize) -> (r: bool)
    requires
        ns <= ne <= inp@.len(),
    ensures
        r == is_head_tag(inp@.subrange(ns as int, ne as int)),
{
    kw_at(inp, ns, ne, "userop_head".as_bytes()) || kw_at(inp, ns, ne, "epsilon_sym_head".as_bytes())
        || kw_at(inp, ns, ne, "value_sym_head".as_bytes()) || kw_at(
        inp,
        ns,
        ne,
        "valuemap_sym_head".as_bytes(),
    ) || kw_at(inp, ns, ne, "name_sym_head".as_bytes()) || kw_at(
        inp,
        ns,
        ne,
        "varnode_sym_head".as_bytes(),
    ) || kw_at(inp, ns, ne, "context_sym_head".as_bytes()) || kw_at(
        inp,
        ns,
        ne,
        "varlist_sym_head".as_bytes(),
    ) || kw_at(inp, ns, ne, "operand_sym_head".as_bytes()) || kw_at(
        inp,
        ns,
        ne,
        "start_sym_head".as_bytes(),
    ) || kw_at(inp, ns, ne, "end_sym_head".as_bytes()) || kw_at(
        inp,
        ns,
        ne,
        "next2_sym_head".as_bytes(),
    ) || kw_at(inp, ns, ne, "flowdest_sym_head".as_bytes()) || kw_at(
        inp,
        ns,
        ne,
        "flowref_sym_head".as_bytes(),
    ) || kw_at(inp, ns, ne, "subtable_sym_head".as_bytes())
}

pub fn p_sym_head_list(inp: &[u8], pos: usize) -> (r: Result<
    (Vec<SymbolHeaderType>, usize),
    ParseError,
>)
    requires
        pos <= inp@.len(),
    ensures
        match r {
            Ok((items, p)) => sp_sym_head_list(inp@, pos as int) == Some(
                (vec_view(items@), p as int),
            ) && pos <= p <= inp@.len(),
            Err(_) => sp_sym_head_list(inp@, pos as int) is None,
        },
{
    let mut items: Vec<SymbolHeaderType> = Vec::new();
    let mut cur: usize = pos;
    loop
        invariant
            pos <= cur <= inp@.len(),
            sp_sym_head_list(inp@, pos as int) == match sp_sym_head_list(inp@, cur as int) {
                Some((rest, end)) => Some::<(Seq<SymbolHeaderTypeV>, int)>(
                    (vec_view(items@) + rest, end),
                ),
                None => None::<(Seq<SymbolHeaderTypeV>, int)>,
            },
        decreases inp@.len() - cur,
    {
        let stop: bool = match peek_tag(inp, cur) {
            Ok(pk) => pk.is_close || !head_tag_at(inp, pk.ns, pk.ne),
            Err(_) => true,
        };
        if stop {
            proof {
                assert(vec_view(items@) + Seq::<SymbolHeaderTypeV>::empty() =~= vec_view(
                    items@,
                ));
            }
            return Ok((items, cur));
        }
        let (x, p2) = p_sym_head(inp, cur)?;
        let ghost pre = items@;
        items.push(x);
        cur = p2;
        proof {
            assert(vec_view(items@) =~= vec_view(pre) + seq![x@]);
            match sp_sym_head_list(inp@, cur as int) {
                Some((rest, end)) => {
                    assert(vec_view(pre) + (seq![x@] + rest) =~= (vec_view(pre) + seq![x@])
                        + rest);
                },
                None => {},
            }
        }
    }
}

pub open spec fn sp_scope(s: Seq<u8>, pos: int) -> Option<(ScopeV, int)> {
    match sp_elem_open(s, pos) {
        Some((name, attrs, sc, p)) => if name == lit_bytes("scope") && sc {
            match (hex_attr(attrs, lit_bytes("id")), hex_attr(attrs, lit_bytes("parent"))) {
                (Some(id), Some(parent)) => Some((ScopeV { id, parent }, p)),
                _ => None,
            }
        } else {
            None
        },
        None => None,
    }
}

pub fn p_scope(inp: &[u8], pos: usize) -> (r: Result<(Scope, usize), ParseError>)
    requires
        pos <= inp@.len(),
    ensures
        parsed(r, sp_scope(inp@, pos as int), pos as int, inp@.len() as int),
{
    let el = elem_open(inp, pos)?;
    if !(kw_at(inp, el.ns, el.ne, "scope".as_bytes()) && el.self_closed) {
        return Err(ParseError::malformed(el.ns));
    }
    let id = req_hex(&el.attrs, "id".as_bytes(), el.ns)?;
    let parent = req_hex(&el.attrs, "parent".as_bytes(), el.ns)?;
    Ok((Scope { id, parent }, el.after))
}

pub open spec fn sp_scope_list(s: Seq<u8>, pos: int) -> Option<(Seq<ScopeV>, int)>
    decreases s.len() - pos,
{
    match sp_peek_tag(s, pos) {
        Some((false, name, _)) => if name == lit_bytes("scope") {
            match sp_scope(s, pos) {
                Some((x, p2)) => if pos < p2 <= s.len() {
                    match sp_scope_list(s, p2) {
                        Some((rest, end)) => Some((seq![x] + rest, end)),
                        None => None,
                    }
                } else {
                    None
                },
                None => None,
            }
        } else {
            Some((Seq::empty(), pos))
        },
        _ => Some((Seq::empty(), pos)),
    }
}

pub fn p_scope_list(inp: &[u8], pos: usize) -> (r: Result<(Vec<Scope>, usize), ParseError>)
    requires
        pos <= inp@.len(),
    ensures
        match r {
            Ok((items, p)) => sp_scope_list(inp@, pos as int) == Some(
                (vec_view(items@), p as int),
            ) && pos <= p <= inp@.len(),
            Err(_) => sp_scope_list(inp@, pos as int) is None,
        },
{
    let mut items: Vec<Scope> = Vec::new();
    let mut cur: usize = pos;
    loop
        invariant
            pos <= cur <= inp@.len(),
            sp_scope_list(inp@, pos as int) == match sp_scope_list(inp@, cur as int) {
                Some((rest, end)) => Some::<(Seq<ScopeV>, int)>((vec_view(items@) + rest, end)),
                None => None::<(Seq<ScopeV>, int)>,
            },
        decreases inp@.len() - cur,
    {
        let stop: bool = match peek_tag(inp, cur) {
            Ok(pk) => pk.is_close || !kw_at(inp, pk.ns, pk.ne, "scope".as_bytes()),
            Err(_) => true,
        };
        if stop {
            proof {
                assert(vec_view(items@) + Seq::<ScopeV>::empty() =~= vec_view(items@));
            }
            return Ok((items, cur));
        }
        let (x, p2) = p_scope(inp, cur)?;
        let ghost pre = items@;
        items.push(x);
        cur = p2;
        proof {
            assert(vec_view(items@) =~= vec_view(pre) + seq![x@]);
            match sp_scope_list(inp@, cur as int) {
                Some((rest, end)) => {
                    assert(vec_view(pre) + (seq![x@] + rest) =~= (vec_view(pre) + seq![x@])
                        + rest);
                },
                None => {},
            }
        }
    }
}

// ---------------------------------------------------------------------
// Lookup-table rows
// ---------------------------------------------------------------------

pub open spec fn sp_valuetab(s: Seq<u8>, pos: int) -> Option<(ValueTableValueV, int)> {
    match sp_elem_open(s, pos) {
        Some((name, attrs, sc, p)) => if name == lit_bytes("valuetab") && sc {
            match dec_attr(attrs, lit_bytes("val")) {
                Some(val) => Some((ValueTableValueV { val }, p)),
                None => None,
            }
        } else {
            None
        },
        None => None,
    }
}

pub fn p_valuetab(inp: &[u8], pos: usize) -> (r: Result<(ValueTableValue, usize), ParseError>)
    requires
        pos <= inp@.len(),
    ensures
        parsed(r, sp_valuetab(inp@, pos as int), pos as int, inp@.len() as int),
{
    let el = elem_open(inp, pos)?;
    if !(kw_at(inp, el.ns, el.ne, "valuetab".as_bytes()) && el.self_closed) {
        return Err(ParseError::malformed(el.ns));
    }
    let val = req_dec(&el.attrs, "val".as_bytes(), el.ns)?;
    Ok((ValueTableValue { val }, el.after))
}

pub open spec fn sp_valuetab_list(s: Seq<u8>, pos: int) -> Option<(Seq<ValueTableValueV>, int)>
    decreases s.len() - pos,
{
    match sp_peek_tag(s, pos) {
        Some((false, name, _)) => if name == lit_bytes("valuetab") {
            match sp_valuetab(s, pos) {
                Some((x, p2)) => if pos < p2 <= s.len() {
                    match sp_valuetab_list(s, p2) {
                        Some((rest, end)) => Some((seq![x] + rest, end)),
                        None => None,
                    }
                } else {
                    None
                },
                None => None,
            }
        } else {
            Some((Seq::empty(), pos))
        },
        _ => Some((Seq::empty(), pos)),
    }
}

pub fn p_valuetab_list(inp: &[u8], pos: usize) -> (r: Result<
    (Vec<ValueTableValue>, usize),
    ParseError,
>)
    requires
        pos <= inp@.len(),
    ensures
        match r {
            Ok((items, p)) => sp_valuetab_list(inp@, pos as int) == Some(
                (vec_view(items@), p as int),
            ) && pos <= p <= inp@.len(),
            Err(_) => sp_valuetab_list(inp@, pos as int) is None,
        },
{
    let mut items: Vec<ValueTableValue> = Vec::new();
    let mut cur: usize = pos;
    loop
        invariant
            pos <= cur <= inp@.len(),
            sp_valuetab_list(inp@, pos as int) == match sp_valuetab_list(inp@, cur as int) {
                Some((rest, end)) => Some::<(Seq<ValueTableValueV>, int)>(
                    (vec_view(items@) + rest, end),
                ),
                None => None::<(Seq<ValueTableValueV>, int)>,
            },
        decreases inp@.len() - cur,
    {
        let stop: bool = match peek_tag(inp, cur) {
            Ok(pk) => pk.is_close || !kw_at(inp, pk.ns, pk.ne, "valuetab".as_bytes()),
            Err(_) => true,
        };
        if stop {
            proof {
                assert(vec_view(items@) + Seq::<ValueTableValueV>::empty() =~= vec_view(
                    items@,
                ));
            }
            return Ok((items, cur));
        }
        let (x, p2) = p_valuetab(inp, cur)?;
        let ghost pre = items@;
        items.push(x);
        cur = p2;
        proof {
            assert(vec_view(items@) =~= vec_view(pre) + seq![x@]);
            match sp_valuetab_list(inp@, cur as int) {
                Some((rest, end)) => {
                    assert(vec_view(pre) + (seq![x@] + rest) =~= (vec_view(pre) + seq![x@])
                        + rest);
                },
                None => {},
            }
        }
    }
}

pub open spec fn sp_nametab(s: Seq<u8>, pos: int) -> Option<(NameTableValueV, int)> {
    match sp_elem_open(s, pos) {
        Some((name, attrs, sc, p)) => if name == lit_bytes("nametab") && sc {
            match opt_str_attr(attrs, lit_bytes("name")) {
                Some(nm) => Some((NameTableValueV { name: nm }, p)),
                None => None,
            }
        } else {
            None
        },
        None => None,
    }
}

pub fn p_nametab(inp: &[u8], pos: usize) -> (r: Result<(NameTableValue, usize), ParseError>)
    requires
        pos <= inp@.len(),
    ensures
        parsed(r, sp_nametab(inp@, pos as int), pos as int, inp@.len() as int),
{
    let el = elem_open(inp, pos)?;
    if !(kw_at(inp, el.ns, el.ne, "nametab".as_bytes()) && el.self_closed) {
        return Err(ParseError::malformed(el.ns));
    }
    let name = opt_str(&el.attrs, "name".as_bytes())?;
    Ok((NameTableValue { name }, el.after))
}

pub open spec fn sp_nametab_list(s: Seq<u8>, pos: int) -> Option<(Seq<NameTableValueV>, int)>
    decreases s.len() - pos,
{
    match sp_peek_tag(s, pos) {
        Some((false, name, _)) => if name == lit_bytes("nametab") {
            match sp_nametab(s, pos) {
                Some((x, p2)) => if pos < p2 <= s.len() {
                    match sp_nametab_list(s, p2) {
                        Some((rest, end)) => Some((seq![x] + rest, end)),
                        None => None,
                    }
                } else {
                    None
                },
                None => None,
            }
        } else {
            Some((Seq::empty(), pos))
        },
        _ => Some((Seq::empty(), pos)),
    }
}

pub fn p_nametab_list(inp: &[u8], pos: usize) -> (r: Result<
    (Vec<NameTableValue>, usize),
    ParseError,
>)
    requires
        pos <= inp@.len(),
    ensures
        match r {
            Ok((items, p)) => sp_nametab_list(inp@, pos as int) == Some(
                (vec_view(items@), p as int),
            ) && pos <= p <= inp@.len(),
            Err(_) => sp_nametab_list(inp@, pos as int) is None,
        },
{
    let mut items: Vec<NameTableValue> = Vec::new();
    let mut cur: usize = pos;
    loop
        invariant
            pos <= cur <= inp@.len(),
            sp_nametab_list(inp@, pos as int) == match sp_nametab_list(inp@, cur as int) {
                Some((rest, end)) => Some::<(Seq<NameTableValueV>, int)>(
                    (vec_view(items@) + rest, end),
                ),
                None => None::<(Seq<NameTableValueV>, int)>,
            },
        decreases inp@.len() - cur,
    {
        let stop: bool = match peek_tag(inp, cur) {
            Ok(pk) => pk.is_close || !kw_at(inp, pk.ns, pk.ne, "nametab".as_bytes()),
            Err(_) => true,
        };
        if stop {
            proof {
                assert(vec_view(items@) + Seq::<NameTableValueV>::empty() =~= vec_view(items@));
            }
            return Ok((items, cur));
        }
        let (x, p2) = p_nametab(inp, cur)?;
        let ghost pre = items@;
        items.push(x);
        cur = p2;
        proof {
            assert(vec_view(items@) =~= vec_view(pre) + seq![x@]);
            match sp_nametab_list(inp@, cur as int) {
                Some((rest, end)) => {
                    assert(vec_view(pre) + (seq![x@] + rest) =~= (vec_view(pre) + seq![x@])
                        + rest);
                },
                None => {},
            }
        }
    }
}

pub open spec fn sp_vartab_item(s: Seq<u8>, pos: int) -> Option<(VarNodeTableValueTypeV, int)> {
    match sp_peek_tag(s, pos) {
        Some((false, name, _)) => if name == lit_bytes("null") {
            match sp_marker(s, pos, lit_bytes("null")) {
                Some(p) => Some((VarNodeTableValueTypeV::Null, p)),
                None => None,
            }
        } else if name == lit_bytes("var") {
            match sp_elem_open(s, pos) {
                Some((nm, attrs, sc, p)) => if sc {
                    match hex_attr(attrs, lit_bytes("id")) {
                        Some(id) => Some(
                            (VarNodeTableValueTypeV::Value(VarNodeTableValueV { id }), p),
                        ),
                        None => None,
                    }
                } else {
                    None
                },
                None => None,
            }
        } else {
            None
        },
        _ => None,
    }
}

pub fn p_vartab_item(inp: &[u8], pos: usize) -> (r: Result<
    (VarNodeTableValueType, usize),
    ParseError,
>)
    requires
        pos <= inp@.len(),
    ensures
        parsed(r, sp_vartab_item(inp@, pos as int), pos as int, inp@.len() as int),
{
    let pk = peek_tag(inp, pos)?;
    if pk.is_close {
        return Err(ParseError::malformed(pk.ns));
    }
    if kw_at(inp, pk.ns, pk.ne, "null".as_bytes()) {
        let p = p_marker(inp, pos, "null".as_bytes())?;
        Ok((VarNodeTableValueType::Null, p))
    } else if kw_at(inp, pk.ns, pk.ne, "var".as_bytes()) {
        let el = elem_open(inp, pos)?;
        if !el.self_closed {
            return Err(ParseError::malformed(el.ns));
        }
        let id = req_hex(&el.attrs, "id".as_bytes(), el.ns)?;
        Ok((VarNodeTableValueType::Value(VarNodeTableValue { id }), el.after))
    } else {
        Err(ParseError::malformed(pk.ns))
    }
}

pub open spec fn is_vartab_tag(name: Seq<u8>) -> bool {
    name == lit_bytes("null") || name == lit_bytes("var")
}

pub open spec fn sp_vartab_list(s: Seq<u8>, pos: int) -> Option<(Seq<VarNodeTableValueTypeV>, int)>
    decreases s.len() - pos,
{
    match sp_peek_tag(s, pos) {
        Some((false, name, _)) => if is_vartab_tag(name) {
            match sp_vartab_item(s, pos) {
                Some((x, p2)) => if pos < p2 <= s.len() {
                    match sp_vartab_list(s, p2) {
                        Some((rest, end)) => Some((seq![x] + rest, end)),
                        None => None,
                    }
                } else {
                    None
                },
                None => None,
            }
        } else {
            Some((Seq::empty(), pos))
        },
        _ => Some((Seq::empty(), pos)),
    }
}

pub fn p_vartab_list(inp: &[u8], pos: usize) -> (r: Result<
    (Vec<VarNodeTableValueType>, usize),
    ParseError,
>)
    requires
        pos <= inp@.len(),
    ensures
        match r {
            Ok((items, p)) => sp_vartab_list(inp@, pos as int) == Some(
                (vec_view(items@), p as int),
            ) && pos <= p <= inp@.len(),
            Err(_) => sp_vartab_list(inp@, pos as int) is None,
        },
{
    let mut items: Vec<VarNodeTableValueType> = Vec::new();
    let mut cur: usize = pos;
    loop
        invariant
            pos <= cur <= inp@.len(),
            sp_vartab_list(inp@, pos as int) == match sp_vartab_list(inp@, cur as int) {
                Some((rest, end)) => Some::<(Seq<VarNodeTableValueTypeV>, int)>(
                    (vec_view(items@) + rest, end),
                ),
                None => None::<(Seq<VarNodeTableValueTypeV>, int)>,
            },
        decreases inp@.len() - cur,
    {
        let stop: bool = match peek_tag(inp, cur) {
            Ok(pk) => pk.is_close || !(kw_at(inp, pk.ns, pk.ne, "null".as_bytes()) || kw_at(
                inp,
                pk.ns,
                pk.ne,
                "var".as_bytes(),
            )),
            Err(_) => true,
        };
        if stop {
            proof {
                assert(vec_view(items@) + Seq::<VarNodeTableValueTypeV>::empty() =~= vec_view(
                    items@,
                ));
            }
            return Ok((items, cur));
        }
        let (x, p2) = p_vartab_item(inp, cur)?;
        let ghost pre = items@;
        items.push(x);
        cur = p2;
        proof {
            assert(vec_view(items@) =~= vec_view(pre) + seq![x@]);
            match sp_vartab_list(inp@, cur as int) {
                Some((rest, end)) => {
                    assert(vec_view(pre) + (seq![x@] + rest) =~= (vec_view(pre) + seq![x@])
                        + rest);
                },
                None => {},
            }
        }
    }
}

// ---------------------------------------------------------------------
// Symbol variants
// ---------------------------------------------------------------------

pub open spec fn sp_userop(s: Seq<u8>, pos: int) -> Option<(UserOpSymbolV, int)> {
    match sp_elem_open(s, pos) {
        Some((name, attrs, sc, p)) => if name == lit_bytes("userop") && sc {
            match (hdr_attrs(attrs), dec_attr(attrs, lit_bytes("index"))) {
                (Some(header), Some(index)) => Some((UserOpSymbolV { header, index }, p)),
                _ => None,
            }
        } else {
            None
        },
        None => None,
    }
}

pub fn p_userop(inp: &[u8], pos: usize) -> (r: Result<(UserOpSymbol, usize), ParseError>)
    requires
        pos <= inp@.len(),
    ensures
        parsed(r, sp_userop(inp@, pos as int), pos as int, inp@.len() as int),
{
    let el = elem_open(inp, pos)?;
    if !(kw_at(inp, el.ns, el.ne, "userop".as_bytes()) && el.self_closed) {
        return Err(ParseError::malformed(el.ns));
    }
    let header = p_hdr(&el.attrs, el.ns)?;
    let index = req_dec(&el.attrs, "index".as_bytes(), el.ns)?;
    Ok((UserOpSymbol { header, index }, el.after))
}

pub open spec fn sp_value_sym(s: Seq<u8>, pos: int) -> Option<(ValueSymbolV, int)> {
    match sp_elem_open(s, pos) {
        Some((name, attrs, sc, p1)) => if name == lit_bytes("value_sym") && !sc {
            match hdr_attrs(attrs) {
                Some(header) => match sp_pattern_value(s, p1) {
                    Some((patval, p2)) => match sp_close_tag(s, p2, lit_bytes("value_sym")) {
                        Some(p3) => Some((ValueSymbolV { header, patval }, p3)),
                        None => None,
                    },
                    None => None,
                },
                None => None,
            }
        } else {
            None
        },
        None => None,
    }
}

pub fn p_value_sym(inp: &[u8], pos: usize) -> (r: Result<(ValueSymbol, usize), ParseError>)
    requires
        pos <= inp@.len(),
    ensures
        parsed(r, sp_value_sym(inp@, pos as int), pos as int, inp@.len() as int),
{
    let el = elem_open(inp, pos)?;
    if !(kw_at(inp, el.ns, el.ne, "value_sym".as_bytes()) && !el.self_closed) {
        return Err(ParseError::malformed(el.ns));
    }
    let header = p_hdr(&el.attrs, el.ns)?;
    let (patval, p2) = p_pattern_value(inp, el.after)?;
    let p3 = close_tag(inp, p2, "value_sym".as_bytes())?;
    Ok((ValueSymbol { header, patval }, p3))
}

pub open spec fn sp_valuemap_sym(s: Seq<u8>, pos: int) -> Option<(ValueMapSymbolV, int)> {
    match sp_elem_open(s, pos) {
        Some((name, attrs, sc, p1)) => if name == lit_bytes("valuemap_sym") && !sc {
            match hdr_attrs(attrs) {
                Some(header) => match sp_pattern_value(s, p1) {
                    Some((patval, p2)) => match sp_valuetab_list(s, p2) {
                        Some((valuetable, p3)) => match sp_close_tag(
                            s,
                            p3,
                            lit_bytes("valuemap_sym"),
                        ) {
                            Some(p4) => Some((ValueMapSymbolV { header, patval, valuetable }, p4)),
                            None => None,
                        },
                        None => None,
                    },
                    None => None,
                },
                None => None,
            }
        } else {
            None
        },
        None => None,
    }
}

pub fn p_valuemap_sym(inp: &[u8], pos: usize) -> (r: Result<(ValueMapSymbol, usize), ParseError>)
    requires
        pos <= inp@.len(),
    ensures
        parsed(r, sp_valuemap_sym(inp@, pos as int), pos as int, inp@.len() as int),
{
    let el = elem_open(inp, pos)?;
    if !(kw_at(inp, el.ns, el.ne, "valuemap_sym".as_bytes()) && !el.self_closed) {
        return Err(ParseError::malformed(el.ns));
    }
    let header = p_hdr(&el.attrs, el.ns)?;
    let (patval, p2) = p_pattern_value(inp, el.after)?;
    let (valuetable, p3) = p_valuetab_list(inp, p2)?;
    let p4 = close_tag(inp, p3, "valuemap_sym".as_bytes())?;
    Ok((ValueMapSymbol { header, patval, valuetable }, p4))
}

pub open spec fn sp_name_sym(s: Seq<u8>, pos: int) -> Option<(NameSymbolV, int)> {
    match sp_elem_open(s, pos) {
        Some((name, attrs, sc, p1)) => if name == lit_bytes("name_sym") && !sc {
            match hdr_attrs(attrs) {
                Some(header) => match sp_pattern_value(s, p1) {
                    Some((patval, p2)) => match sp_nametab_list(s, p2) {
                        Some((nametable, p3)) => match sp_close_tag(s, p3, lit_bytes("name_sym")) {
                            Some(p4) => Some((NameSymbolV { header, patval, nametable }, p4)),
                            None => None,
                        },
                        None => None,
                    },
                    None => None,
                },
                None => None,
            }
        } else {
            None
        },
        None => None,
    }
}

pub fn p_name_sym(inp: &[u8], pos: usize) -> (r: Result<(NameSymbol, usize), ParseError>)
    requires
        pos <= inp@.len(),
    ensures
        parsed(r, sp_name_sym(inp@, pos as int), pos as int, inp@.len() as int),
{
    let el = elem_open(inp, pos)?;
    if !(kw_at(inp, el.ns, el.ne, "name_sym".as_bytes()) && !el.self_closed) {
        return Err(ParseError::malformed(el.ns));
    }
    let header = p_hdr(&el.attrs, el.ns)?;
    let (patval, p2) = p_pattern_value(inp, el.after)?;
    let (nametable, p3) = p_nametab_list(inp, p2)?;
    let p4 = close_tag(inp, p3, "name_sym".as_bytes())?;
    Ok((NameSymbol { header, patval, nametable }, p4))
}

pub open spec fn sp_context_sym(s: Seq<u8>, pos: int) -> Option<(ContextSymbolV, int)> {
    match sp_elem_open(s, pos) {
        Some((name, attrs, sc, p1)) => if name == lit_bytes("context_sym") && !sc {
            match (
                hdr_attrs(attrs),
                hex_attr(attrs, lit_bytes("varnode")),
                dec_attr(attrs, lit_bytes("low")),
                dec_attr(attrs, lit_bytes("high")),
                bool_attr(attrs, lit_bytes("flow")),
            ) {
                (Some(header), Some(varnode), Some(low), Some(high), Some(flow)) => match
                    sp_pattern_value(s, p1) {
                    Some((patval, p2)) => match sp_close_tag(s, p2, lit_bytes("context_sym")) {
                        Some(p3) => Some(
                            (ContextSymbolV { header, varnode, low, high, flow, patval }, p3),
                        ),
                        None => None,
                    },
                    None => None,
                },
                _ => None,
            }
        } else {
            None
        },
        None => None,
    }
}

pub fn p_context_sym(inp: &[u8], pos: usize) -> (r: Result<(ContextSymbol, usize), ParseError>)
    requires
        pos <= inp@.len(),
    ensures
        parsed(r, sp_context_sym(inp@, pos as int), pos as int, inp@.len() as int),
{
    let el = elem_open(inp, pos)?;
    if !(kw_at(inp, el.ns, el.ne, "context_sym".as_bytes()) && !el.self_closed) {
        return Err(ParseError::malformed(el.ns));
    }
    let header = p_hdr(&el.attrs, el.ns)?;
    let varnode = req_hex(&el.attrs, "varnode".as_bytes(), el.ns)?;
    let low = req_dec(&el.attrs, "low".as_bytes(), el.ns)?;
    let high = req_dec(&el.attrs, "high".as_bytes(), el.ns)?;
    let flow = req_bool(&el.attrs, "flow".as_bytes(), el.ns)?;
    let (patval, p2) = p_pattern_value(inp, el.after)?;
    let p3 = close_tag(inp, p2, "context_sym".as_bytes())?;
    Ok((ContextSymbol { header, varnode, low, high, flow, patval }, p3))
}

pub open spec fn sp_varlist_sym(s: Seq<u8>, pos: int) -> Option<(VarNodeListSymbolV, int)> {
    match sp_elem_open(s, pos) {
        Some((name, attrs, sc, p1)) => if name == lit_bytes("varlist_sym") && !sc {
            match hdr_attrs(attrs) {
                Some(header) => match sp_pattern_value(s, p1) {
                    Some((patval, p2)) => match sp_vartab_list(s, p2) {
                        Some((varnode_table, p3)) => match sp_close_tag(
                            s,
                            p3,
                            lit_bytes("varlist_sym"),
                        ) {
                            Some(p4) => Some(
                                (VarNodeListSymbolV { header, patval, varnode_table }, p4),
                            ),
                            None => None,
                        },
                        None => None,
                    },
                    None => None,
                },
                None => None,
            }
        } else {
            None
        },
        None => None,
    }
}

pub fn p_varlist_sym(inp: &[u8], pos: usize) -> (r: Result<(VarNodeListSymbol, usize), ParseError>)
    requires
        pos <= inp@.len(),
    ensures
        parsed(r, sp_varlist_sym(inp@, pos as int), pos as int, inp@.len() as int),
{
    let el = elem_open(inp, pos)?;
    if !(kw_at(inp, el.ns, el.ne, "varlist_sym".as_bytes()) && !el.self_closed) {
        return Err(ParseError::malformed(el.ns));
    }
    let header = p_hdr(&el.attrs, el.ns)?;
    let (patval, p2) = p_pattern_value(inp, el.after)?;
    let (varnode_table, p3) = p_vartab_list(inp, p2)?;
    let p4 = close_tag(inp, p3, "varlist_sym".as_bytes())?;
    Ok((VarNodeListSymbol { header, patval, varnode_table }, p4))
}

pub open spec fn sp_varnode_sym(s: Seq<u8>, pos: int) -> Option<(VarNodeSymbolV, int)> {
    match sp_elem_open(s, pos) {
        Some((name, attrs, sc, p1)) => if name == lit_bytes("varnode_sym") && !sc {
            match (
                hdr_attrs(attrs),
                str_attr_any(attrs, lit_bytes("space")),
                hex_attr(attrs, lit_bytes("offset")),
                dec_attr(attrs, lit_bytes("size")),
            ) {
                (Some(header), Some(space), Some(offset), Some(size)) => match sp_close_tag(
                    s,
                    p1,
                    lit_bytes("varnode_sym"),
                ) {
                    Some(p2) => Some((VarNodeSymbolV { header, space, offset, size }, p2)),
                    None => None,
                },
                _ => None,
            }
        } else {
            None
        },
        None => None,
    }
}

pub fn p_varnode_sym(inp: &[u8], pos: usize) -> (r: Result<(VarNodeSymbol, usize), ParseError>)
    requires
        pos <= inp@.len(),
    ensures
        parsed(r, sp_varnode_sym(inp@, pos as int), pos as int, inp@.len() as int),
{
    let el = elem_open(inp, pos)?;
    if !(kw_at(inp, el.ns, el.ne, "varnode_sym".as_bytes()) && !el.self_closed) {
        return Err(ParseError::malformed(el.ns));
    }
    let header = p_hdr(&el.attrs, el.ns)?;
    let space = req_str_any(&el.attrs, "space".as_bytes(), el.ns)?;
    let offset = req_hex(&el.attrs, "offset".as_bytes(), el.ns)?;
    let size = req_dec(&el.attrs, "size".as_bytes(), el.ns)?;
    let p2 = close_tag(inp, el.after, "varnode_sym".as_bytes())?;
    Ok((VarNodeSymbol { header, space, offset, size }, p2))
}

pub open spec fn sp_operand_sym(s: Seq<u8>, pos: int) -> Option<(OperandSymbolV, int)> {
    match sp_elem_open(s, pos) {
        Some((name, attrs, sc, p1)) => if name == lit_bytes("operand_sym") && !sc {
            match (
                hdr_attrs(attrs),
                opt_hex_attr(attrs, lit_bytes("subsym")),
                dec_attr(attrs, lit_bytes("off")),
                dec_attr(attrs, lit_bytes("base")),
                dec_attr(attrs, lit_bytes("minlen")),
                opt_bool_attr(attrs, lit_bytes("code")),
                dec_attr(attrs, lit_bytes("index")),
            ) {
                (
                    Some(header),
                    Some(subsym),
                    Some(off),
                    Some(base),
                    Some(minlen),
                    Some(code),
                    Some(index),
                ) => match crate::parse_expr::sp_operand_value(s, p1) {
                    Some((localexp, p2)) => match sp_close_tag(s, p2, lit_bytes("operand_sym")) {
                        Some(p3) => Some(
                            (
                                OperandSymbolV {
                                    header,
                                    subsym,
                                    off,
                                    base,
                                    minlen,
                                    code,
                                    index,
                                    localexp,
                                    defexp: None,
                                },
                                p3,
                            ),
                        ),
                        None => match sp_expr(s, p2) {
                            Some((e, p3)) => match sp_close_tag(s, p3, lit_bytes("operand_sym")) {
                                Some(p4) => Some(
                                    (
                                        OperandSymbolV {
                                            header,
                                            subsym,
                                            off,
                                            base,
                                            minlen,
                                            code,
                                            index,
                                            localexp,
                                            defexp: Some(e),
                                        },
                                        p4,
                                    ),
                                ),
                                None => None,
                            },
                            None => None,
                        },
                    },
                    None => None,
                },
                _ => None,
            }
        } else {
            None
        },
        None => None,
    }
}

#[verifier::rlimit(50)]
pub fn p_operand_sym(inp: &[u8], pos: usize) -> (r: Result<(OperandSymbol, usize), ParseError>)
    requires
        pos <= inp@.len(),
    ensures
        parsed(r, sp_operand_sym(inp@, pos as int), pos as int, inp@.len() as int),
{
    let el = elem_open(inp, pos)?;
    if !(kw_at(inp, el.ns, el.ne, "operand_sym".as_bytes()) && !el.self_closed) {
        return Err(ParseError::malformed(el.ns));
    }
    let header = p_hdr(&el.attrs, el.ns)?;
    let subsym = opt_hex(&el.attrs, "subsym".as_bytes())?;
    let off = req_dec(&el.attrs, "off".as_bytes(), el.ns)?;
    let base = req_dec(&el.attrs, "base".as_bytes(), el.ns)?;
    let minlen = req_dec(&el.attrs, "minlen".as_bytes(), el.ns)?;
    let code = opt_bool(&el.attrs, "code".as_bytes())?;
    let index = req_dec(&el.attrs, "index".as_bytes(), el.ns)?;
    let (localexp, p2) = crate::parse_expr::p_operand_value(inp, el.after)?;
    match close_tag(inp, p2, "operand_sym".as_bytes()) {
        Ok(p3) => Ok(
            (
                OperandSymbol {
                    header,
                    subsym,
                    off,
                    base,
                    minlen,
                    code,
                    index,
                    localexp,
                    defexp: None,
                },
                p3,
            ),
        ),
        Err(_) => {
            let (e, p3) = p_expr(inp, p2)?;
            let p4 = close_tag(inp, p3, "operand_sym".as_bytes())?;
            Ok(
                (
                    OperandSymbol {
                        header,
                        subsym,
                        off,
                        base,
                        minlen,
                        code,
                        index,
                        localexp,
                        defexp: Some(e),
                    },
                    p4,
                ),
            )
        },
    }
}

/// Zero or more constructors.
pub open spec fn sp_constructor_list(s: Seq<u8>, pos: int) -> Option<(Seq<ConstructorV>, int)>
    decreases s.len() - pos,
{
    match sp_peek_tag(s, pos) {
        Some((false, name, _)) => if name == lit_bytes("constructor") {
            match sp_constructor(s, pos) {
                Some((x, p2)) => if pos < p2 <= s.len() {
                    match sp_constructor_list(s, p2) {
                        Some((rest, end)) => Some((seq![x] + rest, end)),
                        None => None,
                    }
                } else {
                    None
                },
                None => None,
            }
        } else {
            Some((Seq::empty(), pos))
        },
        _ => Some((Seq::empty(), pos)),
    }
}

pub fn p_constructor_list(inp: &[u8], pos: usize) -> (r: Result<
    (Vec<Constructor>, usize),
    ParseError,
>)
    requires
        pos <= inp@.len(),
    ensures
        match r {
            Ok((items, p)) => sp_constructor_list(inp@, pos as int) == Some(
                (vec_view(items@), p as int),
            ) && pos <= p <= inp@.len(),
            Err(_) => sp_constructor_list(inp@, pos as int) is None,
        },
{
    let mut items: Vec<Constructor> = Vec::new();
    let mut cur: usize = pos;
    loop
        invariant
            pos <= cur <= inp@.len(),
            sp_constructor_list(inp@, pos as int) == match sp_constructor_list(inp@, cur as int) {
                Some((rest, end)) => Some::<(Seq<ConstructorV>, int)>(
                    (vec_view(items@) + rest, end),
                ),
                None => None::<(Seq<ConstructorV>, int)>,
            },
        decreases inp@.len() - cur,
    {
        let stop: bool = match peek_tag(inp, cur) {
            Ok(pk) => pk.is_close || !kw_at(inp, pk.ns, pk.ne, "constructor".as_bytes()),
            Err(_) => true,
        };
        if stop {
            proof {
                assert(vec_view(items@) + Seq::<ConstructorV>::empty() =~= vec_view(items@));
            }
            return Ok((items, cur));
        }
        let (x, p2) = p_constructor(inp, cur)?;
        let ghost pre = items@;
        items.push(x);
        cur = p2;
        proof {
            assert(vec_view(items@) =~= vec_view(pre) + seq![x@]);
            match sp_constructor_list(inp@, cur as int) {
                Some((rest, end)) => {
                    assert(vec_view(pre) + (seq![x@] + rest) =~= (vec_view(pre) + seq![x@])
                        + rest);
                },
                None => {},
            }
        }
    }
}

pub open spec fn sp_subtable_sym(s: Seq<u8>, pos: int) -> Option<(SubtableSymbolV, int)> {
    match sp_elem_open(s, pos) {
        Some((name, attrs, sc, p1)) => if name == lit_bytes("subtable_sym") && !sc {
            match (hdr_attrs(attrs), dec_attr(attrs, lit_bytes("numct"))) {
                (Some(header), Some(numct)) => match sp_constructor_list(s, p1) {
                    Some((constructors, p2)) => match sp_decision(s, p2) {
                        Some((decisiontree, p3)) => match sp_close_tag(
                            s,
                            p3,
                            lit_bytes("subtable_sym"),
                        ) {
                            Some(p4) => Some(
                                (
                                    SubtableSymbolV { header, numct, constructors, decisiontree },
                                    p4,
                                ),
                            ),
                            None => None,
                        },
                        None => None,
                    },
                    None => None,
                },
                _ => None,
            }
        } else {
            None
        },
        None => None,
    }
}

pub fn p_subtable_sym(inp: &[u8], pos: usize) -> (r: Result<(SubtableSymbol, usize), ParseError>)
    requires
        pos <= inp@.len(),
    ensures
        parsed(r, sp_subtable_sym(inp@, pos as int), pos as int, inp@.len() as int),
{
    let el = elem_open(inp, pos)?;
    if !(kw_at(inp, el.ns, el.ne, "subtable_sym".as_bytes()) && !el.self_closed) {
        return Err(ParseError::malformed(el.ns));
    }
    let header = p_hdr(&el.attrs, el.ns)?;
    let numct = req_dec(&el.attrs, "numct".as_bytes(), el.ns)?;
    let (constructors, p2) = p_constructor_list(inp, el.after)?;
    let (decisiontree, p3) = p_decision(inp, p2)?;
    let p4 = close_tag(inp, p3, "subtable_sym".as_bytes())?;
    Ok((SubtableSymbol { header, numct, constructors, decisiontree }, p4))
}

// ---------------------------------------------------------------------
// The symbol union and the symbol table
// ---------------------------------------------------------------------

/// The tags of the symbol vocabulary.
pub open spec fn is_symbol_tag(name: Seq<u8>) -> bool {
    ||| name == lit_bytes("userop")
    ||| name == lit_bytes("value_sym")
    ||| name == lit_bytes("valuemap_sym")
    ||| name == lit_bytes("name_sym")
    ||| name == lit_bytes("context_sym")
    ||| name == lit_bytes("varlist_sym")
    ||| name == lit_bytes("epsilon_sym")
    ||| name == lit_bytes("varnode_sym")
    ||| name == lit_bytes("operand_sym")
    ||| name == lit_bytes("start_sym")
    ||| name == lit_bytes("end_sym")
    ||| name == lit_bytes("next2_sym")
    ||| name == lit_bytes("flowdest_sym")
    ||| name == lit_bytes("flowref_sym")
    ||| name == lit_bytes("subtable_sym")
}

pub open spec fn sp_symbol(s: Seq<u8>, pos: int) -> Option<(SleighSymbolTypeV, int)> {
    match sp_peek_tag(s, pos) {
        Some((false, name, _)) => if name == lit_bytes("userop") {
            match sp_userop(s, pos) {
                Some((v, p)) => Some((SleighSymbolTypeV::UserOpSymbol(v), p)),
                None => None,
            }
        } else if name == lit_bytes("value_sym") {
            match sp_value_sym(s, pos) {
                Some((v, p)) => Some(
                    (
                        SleighSymbolTypeV::TripleSymbol(
                            TripleSymbolV::FamilySymbol(
                                FamilySymbolV::ValueSymbol(ValueSymbolTypeV::ValueSymbol(v)),
                            ),
                        ),
                        p,
                    ),
                ),
                None => None,
            }
        } else if name == lit_bytes("valuemap_sym") {
            match sp_valuemap_sym(s, pos) {
                Some((v, p)) => Some(
                    (
                        SleighSymbolTypeV::TripleSymbol(
                            TripleSymbolV::FamilySymbol(
                                FamilySymbolV::ValueSymbol(ValueSymbolTypeV::ValueMapSymbol(v)),
                            ),
                        ),
                        p,
                    ),
                ),
                None => None,
            }
        } else if name == lit_bytes("name_sym") {
            match sp_name_sym(s, pos) {
                Some((v, p)) => Some(
                    (
                        SleighSymbolTypeV::TripleSymbol(
                            TripleSymbolV::FamilySymbol(
                                FamilySymbolV::ValueSymbol(ValueSymbolTypeV::NameSymbol(v)),
                            ),
                        ),
                        p,
                    ),
                ),
                None => None,
            }
        } else if name == lit_bytes("context_sym") {
            match sp_context_sym(s, pos) {
                Some((v, p)) => Some(
                    (
                        SleighSymbolTypeV::TripleSymbol(
                            TripleSymbolV::FamilySymbol(
                                FamilySymbolV::ValueSymbol(ValueSymbolTypeV::ContextSymbol(v)),
                            ),
                        ),
                        p,
                    ),
                ),
                None => None,
            }
        } else if name == lit_bytes("varlist_sym") {
            match sp_varlist_sym(s, pos) {
                Some((v, p)) => Some(
                    (
                        SleighSymbolTypeV::TripleSymbol(
                            TripleSymbolV::FamilySymbol(
                                FamilySymbolV::ValueSymbol(ValueSymbolTypeV::VarNodeListSymbol(v)),
                            ),
                        ),
                        p,
                    ),
                ),
                None => None,
            }
        } else if name == lit_bytes("epsilon_sym") {
            match sp_head_elem(s, pos, name) {
                Some((h, p)) => Some(
                    (
                        SleighSymbolTypeV::TripleSymbol(
                            TripleSymbolV::SpecificSymbol(
                                SpecificSymbolV::PatternlessSymbol(
                                    PatternlessSymbolV::EpsilonSymbol(
                                        EpsilonSymbolV { header: h },
                                    ),
                                ),
                            ),
                        ),
                        p,
                    ),
                ),
                None => None,
            }
        } else if name == lit_bytes("varnode_sym") {
            match sp_varnode_sym(s, pos) {
                Some((v, p)) => Some(
                    (
                        SleighSymbolTypeV::TripleSymbol(
                            TripleSymbolV::SpecificSymbol(
                                SpecificSymbolV::PatternlessSymbol(
                                    PatternlessSymbolV::VarNodeSymbol(v),
                                ),
                            ),
                        ),
                        p,
                    ),
                ),
                None => None,
            }
        } else if name == lit_bytes("operand_sym") {
            match sp_operand_sym(s, pos) {
                Some((v, p)) => Some(
                    (
                        SleighSymbolTypeV::TripleSymbol(
                            TripleSymbolV::SpecificSymbol(SpecificSymbolV::OperandSymbol(v)),
                        ),
                        p,
                    ),
                ),
                None => None,
            }
        } else if name == lit_bytes("start_sym") {
            match sp_head_elem(s, pos, name) {
                Some((h, p)) => Some(
                    (
                        SleighSymbolTypeV::TripleSymbol(
                            TripleSymbolV::SpecificSymbol(
                                SpecificSymbolV::StartSymbol(StartSymbolV { header: h }),
                            ),
                        ),
                        p,
                    ),
                ),
                None => None,
            }
        } else if name == lit_bytes("end_sym") {
            match sp_head_elem(s, pos, name) {
                Some((h, p)) => Some(
                    (
                        SleighSymbolTypeV::TripleSymbol(
                            TripleSymbolV::SpecificSymbol(
                                SpecificSymbolV::EndSymbol(EndSymbolV { header: h }),
                            ),
                        ),
                        p,
                    ),
                ),
                None => None,
            }
        } else if name == lit_bytes("next2_sym") {
            match sp_head_elem(s, pos, name) {
                Some((h, p)) => Some(
                    (
                        SleighSymbolTypeV::TripleSymbol(
                            TripleSymbolV::SpecificSymbol(
                                SpecificSymbolV::Next2Symbol(Next2SymbolV { header: h }),
                            ),
                        ),
                        p,
                    ),
                ),
                None => None,
            }
        } else if name == lit_bytes("flowdest_sym") {
            match sp_head_elem(s, pos, name) {
                Some((h, p)) => Some(
                    (
                        SleighSymbolTypeV::TripleSymbol(
                            TripleSymbolV::SpecificSymbol(
                                SpecificSymbolV::FlowDestSymbol(FlowDestSymbolV { header: h }),
                            ),
                        ),
                        p,
                    ),
                ),
                None => None,
            }
        } else if name == lit_bytes("flowref_sym") {
            match sp_head_elem(s, pos, name) {
                Some((h, p)) => Some(
                    (
                        SleighSymbolTypeV::TripleSymbol(
                            TripleSymbolV::SpecificSymbol(
                                SpecificSymbolV::FlowRefSymbol(FlowRefSymbolV { header: h }),
                            ),
                        ),
                        p,
                    ),
                ),
                None => None,
            }
        } else if name == lit_bytes("subtable_sym") {
            match sp_subtable_sym(s, pos) {
                Some((v, p)) => Some(
                    (
                        SleighSymbolTypeV::TripleSymbol(TripleSymbolV::SubtableSymbol(v)),
                        p,
                    ),
                ),
                None => None,
            }
        } else {
            None
        },
        _ => None,
    }
}

#[verifier::rlimit(100)]
pub fn p_symbol(inp: &[u8], pos: usize) -> (r: Result<(SleighSymbolType, usize), ParseError>)
    requires
        pos <= inp@.len(),
    ensures
        parsed(r, sp_symbol(inp@, pos as int), pos as int, inp@.len() as int),
{
    let pk = peek_tag(inp, pos)?;
    if pk.is_close {
        return Err(ParseError::malformed(pk.ns));
    }
    if kw_at(inp, pk.ns, pk.ne, "userop".as_bytes()) {
        let (user_op, p) = p_userop(inp, pos)?;
        Ok((SleighSymbolType::UserOpSymbol { user_op }, p))
    } else if kw_at(inp, pk.ns, pk.ne, "value_sym".as_bytes()) {
        let (v, p) = p_value_sym(inp, pos)?;
        Ok(
            (
                SleighSymbolType::TripleSymbol(
                    TripleSymbol::FamilySymbol(
                        FamilySymbol::ValueSymbol(ValueSymbolType::ValueSymbol(v)),
                    ),
                ),
                p,
            ),
        )
    } else if kw_at(inp, pk.ns, pk.ne, "valuemap_sym".as_bytes()) {
        let (v, p) = p_valuemap_sym(inp, pos)?;
        Ok(
            (
                SleighSymbolType::TripleSymbol(
                    TripleSymbol::FamilySymbol(
                        FamilySymbol::ValueSymbol(ValueSymbolType::ValueMapSymbol(v)),
                    ),
                ),
                p,
            ),
        )
    } else if kw_at(inp, pk.ns, pk.ne, "name_sym".as_bytes()) {
        let (v, p) = p_name_sym(inp, pos)?;
        Ok(
            (
                SleighSymbolType::TripleSymbol(
                    TripleSymbol::FamilySymbol(
                        FamilySymbol::ValueSymbol(ValueSymbolType::NameSymbol(v)),
                    ),
                ),
                p,
            ),
        )
    } else if kw_at(inp, pk.ns, pk.ne, "context_sym".as_bytes()) {
        let (v, p) = p_context_sym(inp, pos)?;
        Ok(
            (
                SleighSymbolType::TripleSymbol(
                    TripleSymbol::FamilySymbol(
                        FamilySymbol::ValueSymbol(ValueSymbolType::ContextSymbol(v)),
                    ),
                ),
                p,
            ),
        )
    } else if kw_at(inp, pk.ns, pk.ne, "varlist_sym".as_bytes()) {
        let (v, p) = p_varlist_sym(inp, pos)?;
        Ok(
            (
                SleighSymbolType::TripleSymbol(
                    TripleSymbol::FamilySymbol(
                        FamilySymbol::ValueSymbol(ValueSymbolType::VarNodeListSymbol(v)),
                    ),
                ),
                p,
            ),
        )
    } else if kw_at(inp, pk.ns, pk.ne, "epsilon_sym".as_bytes()) {
        let (header, p) = p_head_elem(inp, pos, "epsilon_sym".as_bytes())?;
        Ok(
            (
                SleighSymbolType::TripleSymbol(
                    TripleSymbol::SpecificSymbol(
                        SpecificSymbol::PatternlessSymbol(
                            PatternlessSymbol::EpsilonSymbol(EpsilonSymbol { header }),
                        ),
                    ),
                ),
                p,
            ),
        )
    } else if kw_at(inp, pk.ns, pk.ne, "varnode_sym".as_bytes()) {
        let (v, p) = p_varnode_sym(inp, pos)?;
        Ok(
            (
                SleighSymbolType::TripleSymbol(
                    TripleSymbol::SpecificSymbol(
                        SpecificSymbol::PatternlessSymbol(PatternlessSymbol::VarNodeSymbol(v)),
                    ),
                ),
                p,
            ),
        )
    } else if kw_at(inp, pk.ns, pk.ne, "operand_sym".as_bytes()) {
        let (v, p) = p_operand_sym(inp, pos)?;
        Ok(
            (
                SleighSymbolType::TripleSymbol(
                    TripleSymbol::SpecificSymbol(SpecificSymbol::OperandSymbol(v)),
                ),
                p,
            ),
        )
    } else if kw_at(inp, pk.ns, pk.ne, "start_sym".as_bytes()) {
        let (header, p) = p_head_elem(inp, pos, "start_sym".as_bytes())?;
        Ok(
            (
                SleighSymbolType::TripleSymbol(
                    TripleSymbol::SpecificSymbol(
                        SpecificSymbol::StartSymbol(StartSymbol { header }),
                    ),
                ),
                p,
            ),
        )
    } else if kw_at(inp, pk.ns, pk.ne, "end_sym".as_bytes()) {
        let (header, p) = p_head_elem(inp, pos, "end_sym".as_bytes())?;
        Ok(
            (
                SleighSymbolType::TripleSymbol(
                    TripleSymbol::SpecificSymbol(SpecificSymbol::EndSymbol(EndSymbol { header })),
                ),
                p,
            ),
        )
    } else if kw_at(inp, pk.ns, pk.ne, "next2_sym".as_bytes()) {
        let (header, p) = p_head_elem(inp, pos, "next2_sym".as_bytes())?;
        Ok(
            (
                SleighSymbolType::TripleSymbol(
                    TripleSymbol::SpecificSymbol(
                        SpecificSymbol::Next2Symbol(Next2Symbol { header }),
                    ),
                ),
                p,
            ),
        )
    } else if kw_at(inp, pk.ns, pk.ne, "flowdest_sym".as_bytes()) {
        let (header, p) = p_head_elem(inp, pos, "flowdest_sym".as_bytes())?;
        Ok(
            (
                SleighSymbolType::TripleSymbol(
                    TripleSymbol::SpecificSymbol(
                        SpecificSymbol::FlowDestSymbol(FlowDestSymbol { header }),
                    ),
                ),
                p,
            ),
        )
    } else if kw_at(inp, pk.ns, pk.ne, "flowref_sym".as_bytes()) {
        let (header, p) = p_head_elem(inp, pos, "flowref_sym".as_bytes())?;
        Ok(
            (
                SleighSymbolType::TripleSymbol(
                    TripleSymbol::SpecificSymbol(
                        SpecificSymbol::FlowRefSymbol(FlowRefSymbol { header }),
                    ),
                ),
                p,
            ),
        )
    } else if kw_at(inp, pk.ns, pk.ne, "subtable_sym".as_bytes()) {
        let (v, p) = p_subtable_sym(inp, pos)?;
        Ok(
            (SleighSymbolType::TripleSymbol(TripleSymbol::SubtableSymbol { subtable: v }), p),
        )
    } else {
        Err(ParseError::malformed(pk.ns))
    }
}

/// Whether the peeked open tag is one of the symbol tags.
fn symbol_tag_at(inp: &[u8], ns: usize, ne: usize) -> (r: bool)
    requires
        ns <= ne <= inp@.len(),
    ensures
        r == is_symbol_tag(inp@.subrange(ns as int, ne as int)),
{
    kw_at(inp, ns, ne, "userop".as_bytes()) || kw_at(inp, ns, ne, "value_sym".as_bytes()) || kw_at(
        inp,
        ns,
        ne,
        "valuemap_sym".as_bytes(),
    ) || kw_at(inp, ns, ne, "name_sym".as_bytes()) || kw_at(inp, ns, ne, "context_sym".as_bytes())
        || kw_at(inp, ns, ne, "varlist_sym".as_bytes()) || kw_at(
        inp,
        ns,
        ne,
        "epsilon_sym".as_bytes(),
    ) || kw_at(inp, ns, ne, "varnode_sym".as_bytes()) || kw_at(
        inp,
        ns,
        ne,
        "operand_sym".as_bytes(),
    ) || kw_at(inp, ns, ne, "start_sym".as_bytes()) || kw_at(inp, ns, ne, "end_sym".as_bytes())
        || kw_at(inp, ns, ne, "next2_sym".as_bytes()) || kw_at(
        inp,
        ns,
        ne,
        "flowdest_sym".as_bytes(),
    ) || kw_at(inp, ns, ne, "flowref_sym".as_bytes()) || kw_at(
        inp,
        ns,
        ne,
        "subtable_sym".as_bytes(),
    )
}

pub open spec fn sp_symbol_list(s: Seq<u8>, pos: int) -> Option<(Seq<SleighSymbolTypeV>, int)>
    decreases s.len() - pos,
{
    match sp_peek_tag(s, pos) {
        Some((false, name, _)) => if is_symbol_tag(name) {
            match sp_symbol(s, pos) {
                Some((x, p2)) => if pos < p2 <= s.len() {
                    match sp_symbol_list(s, p2) {
                        Some((rest, end)) => Some((seq![x] + rest, end)),
                        None => None,
                    }
                } else {
                    None
                },
                None => None,
            }
        } else {
            Some((Seq::empty(), pos))
        },
        _ => Some((Seq::empty(), pos)),
    }
}

pub fn p_symbol_list(inp: &[u8], pos: usize) -> (r: Result<
    (Vec<SleighSymbolType>, usize),
    ParseError,
>)
    requires
        pos <= inp@.len(),
    ensures
        match r {
            Ok((items, p)) => sp_symbol_list(inp@, pos as int) == Some(
                (vec_view(items@), p as int),
            ) && pos <= p <= inp@.len(),
            Err(_) => sp_symbol_list(inp@, pos as int) is None,
        },
{
    let mut items: Vec<SleighSymbolType> = Vec::new();
    let mut cur: usize = pos;
    loop
        invariant
            pos <= cur <= inp@.len(),
            sp_symbol_list(inp@, pos as int) == match sp_symbol_list(inp@, cur as int) {
                Some((rest, end)) => Some::<(Seq<SleighSymbolTypeV>, int)>(
                    (vec_view(items@) + rest, end),
                ),
                None => None::<(Seq<SleighSymbolTypeV>, int)>,
            },
        decreases inp@.len() - cur,
    {
        let stop: bool = match peek_tag(inp, cur) {
            Ok(pk) => pk.is_close || !symbol_tag_at(inp, pk.ns, pk.ne),
            Err(_) => true,
        };
        if stop {
            proof {
                assert(vec_view(items@) + Seq::<SleighSymbolTypeV>::empty() =~= vec_view(
                    items@,
                ));
            }
            return Ok((items, cur));
        }
        let (x, p2) = p_symbol(inp, cur)?;
        let ghost pre = items@;
        items.push(x);
        cur = p2;
        proof {
            assert(vec_view(items@) =~= vec_view(pre) + seq![x@]);
            match sp_symbol_list(inp@, cur as int) {
                Some((rest, end)) => {
                    assert(vec_view(pre) + (seq![x@] + rest) =~= (vec_view(pre) + seq![x@])
                        + rest);
                },
                None => {},
            }
        }
    }
}

/// The symbol table: size hints, scopes, headers, then symbols; the
/// header list and the symbol list must have the same length.
pub open spec fn sp_symbol_table(s: Seq<u8>, pos: int) -> Option<(SymbolTableV, int)> {
    match sp_elem_open(s, pos) {
        Some((name, attrs, sc, p1)) => if name == lit_bytes("symbol_table") && !sc {
            match (dec_attr(attrs, lit_bytes("scopesize")), dec_attr(attrs, lit_bytes("symbolsize"))) {
                (Some(scopesize), Some(symbolsize)) => match sp_scope_list(s, p1) {
                    Some((scopes, p2)) => match sp_sym_head_list(s, p2) {
                        Some((symbol_headers, p3)) => match sp_symbol_list(s, p3) {
                            Some((symbols, p4)) => match sp_close_tag(
                                s,
                                p4,
                                lit_bytes("symbol_table"),
                            ) {
                                Some(p5) => if symbol_headers.len() == symbols.len() {
                                    Some(
                                        (
                                            SymbolTableV {
                                                scopesize,
                                                symbolsize,
                                                scopes,
                                                symbol_headers,
                                                symbols,
                                            },
                                            p5,
                                        ),
                                    )
                                } else {
                                    None
                                },
                                None => None,
                            },
                            None => None,
                        },
                        None => None,
                    },
                    None => None,
                },
                _ => None,
            }
        } else {
            None
        },
        None => None,
    }
}

#[verifier::rlimit(50)]
pub fn p_symbol_table(inp: &[u8], pos: usize) -> (r: Result<(SymbolTable, usize), ParseError>)
    requires
        pos <= inp@.len(),
    ensures
        parsed(r, sp_symbol_table(inp@, pos as int), pos as int, inp@.len() as int),
{
    let el = elem_open(inp, pos)?;
    if !(kw_at(inp, el.ns, el.ne, "symbol_table".as_bytes()) && !el.self_closed) {
        return Err(ParseError::malformed(el.ns));
    }
    let scopesize = req_dec(&el.attrs, "scopesize".as_bytes(), el.ns)?;
    let symbolsize = req_dec(&el.attrs, "symbolsize".as_bytes(), el.ns)?;
    let (scopes, p2) = p_scope_list(inp, el.after)?;
    let (symbol_headers, p3) = p_sym_head_list(inp, p2)?;
    let (symbols, p4) = p_symbol_list(inp, p3)?;
    let p5 = close_tag(inp, p4, "symbol_table".as_bytes())?;
    if symbol_headers.len() != symbols.len() {
        return Err(ParseError { pos: p4, kind: ErrorKind::LengthMismatch });
    }
    Ok((SymbolTable { scopesize, symbolsize, scopes, symbol_headers, symbols }, p5))
}

} // verus!
