//! Parsers for constructors: operand references, print pieces, context
//! changes, and the constructor element itself.
//!
//! A constructor's children come in fixed groups: operand references,
//! print pieces, context-change actions, then its pcode templates.  The
//! first template, if any, is the primary template; the rest are the
//! named per-section templates.

use vstd::prelude::*;
use crate::attrs::{bool_attr, dec_attr, hex_attr, line_attr, req_bool, req_dec, req_hex, req_line};
use crate::error::ParseError;
use crate::model::{
    Commit, CommitV, Constructor, ConstructorOperand, ConstructorOperandV, ConstructorV,
    ContextChangeType, ContextChangeTypeV, Operation, OperationV, OperandPrint, OperandPrintV,
    Print, PrintPieceType, PrintPieceTypeV, PrintV, vec_view,
};
use crate::parse_expr::{p_expr, sp_expr};
use crate::parse_tpl::{p_construct_tpl_list, sp_construct_tpl_list};
use crate::scan::{
    close_tag, elem_open, kw_at, lit_bytes, parsed, peek_tag, sp_close_tag, sp_elem_open,
    sp_peek_tag,
};

verus! {

broadcast use vstd::seq::group_seq_axioms, vstd::std_specs::vec::group_vec_axioms;

// ---------------------------------------------------------------------
// Small self-closing rows
// ---------------------------------------------------------------------

pub open spec fn sp_oper(s: Seq<u8>, pos: int) -> Option<(ConstructorOperandV, int)> {
    match sp_elem_open(s, pos) {
        Some((name, attrs, sc, p)) => if name == lit_bytes("oper") && sc {
            match hex_attr(attrs, lit_bytes("id")) {
                Some(id) => Some((ConstructorOperandV { id }, p)),
                None => None,
            }
        } else {
            None
        },
        None => None,
    }
}

pub fn p_oper(inp: &[u8], pos: usize) -> (r: Result<(ConstructorOperand, usize), ParseError>)
    requires
        pos <= inp@.len(),
    ensures
        parsed(r, sp_oper(inp@, pos as int), pos as int, inp@.len() as int),
{
    let el = elem_open(inp, pos)?;
    if !(kw_at(inp, el.ns, el.ne, "oper".as_bytes()) && el.self_closed) {
        return Err(ParseError::malformed(el.ns));
    }
    let id = req_hex(&el.attrs, "id".as_bytes(), el.ns)?;
    Ok((ConstructorOperand { id }, el.after))
}

pub open spec fn sp_oper_list(s: Seq<u8>, pos: int) -> Option<(Seq<ConstructorOperandV>, int)>
    decreases s.len() - pos,
{
    match sp_peek_tag(s, pos) {
        Some((false, name, _)) => if name == lit_bytes("oper") {
            match sp_oper(s, pos) {
                Some((x, p2)) => if pos < p2 <= s.len() {
                    match sp_oper_list(s, p2) {
                        Some((rest, end)) => Some((seq![x] + rest, end)),
                        None => None,
                    }
                } else {
                    None
                },
                None => None,
            }
        } else {
            Some((Seq::empty(), pos))
        },
        _ => Some((Seq::empty(), pos)),
    }
}

pub fn p_oper_list(inp: &[u8], pos: usize) -> (r: Result<
    (Vec<ConstructorOperand>, usize),
    ParseError,
>)
    requires
        pos <= inp@.len(),
    ensures
        match r {
            Ok((items, p)) => sp_oper_list(inp@, pos as int) == Some(
                (vec_view(items@), p as int),
            ) && pos <= p <= inp@.len(),
            Err(_) => sp_oper_list(inp@, pos as int) is None,
        },
{
    let mut items: Vec<ConstructorOperand> = Vec::new();
    let mut cur: usize = pos;
    loop
        invariant
            pos <= cur <= inp@.len(),
            sp_oper_list(inp@, pos as int) == match sp_oper_list(inp@, cur as int) {
                Some((rest, end)) => Some::<(Seq<ConstructorOperandV>, int)>(
                    (vec_view(items@) + rest, end),
                ),
                None => None::<(Seq<ConstructorOperandV>, int)>,
            },
        decreases inp@.len() - cur,
    {
        let stop: bool = match peek_tag(inp, cur) {
            Ok(pk) => pk.is_close || !kw_at(inp, pk.ns, pk.ne, "oper".as_bytes()),
            Err(_) => true,
        };
        if stop {
            proof {
                assert(vec_view(items@) + Seq::<ConstructorOperandV>::empty() =~= vec_view(
                    items@,
                ));
            }
            return Ok((items, cur));
        }
        let (x, p2) = p_oper(inp, cur)?;
        let ghost pre = items@;
        items.push(x);
        cur = p2;
        proof {
            assert(vec_view(items@) =~= vec_view(pre) + seq![x@]);
            match sp_oper_list(inp@, cur as int) {
                Some((rest, end)) => {
                    assert(vec_view(pre) + (seq![x@] + rest) =~= (vec_view(pre) + seq![x@])
                        + rest);
                },
                None => {},
            }
        }
    }
}

pub open spec fn sp_opprint(s: Seq<u8>, pos: int) -> Option<(OperandPrintV, int)> {
    match sp_elem_open(s, pos) {
        Some((name, attrs, sc, p)) => if name == lit_bytes("opprint") && sc {
            match dec_attr(attrs, lit_bytes("id")) {
                Some(id) => Some((OperandPrintV { id }, p)),
                None => None,
            }
        } else {
            None
        },
        None => None,
    }
}

pub fn p_opprint(inp: &[u8], pos: usize) -> (r: Result<(OperandPrint, usize), ParseError>)
    requires
        pos <= inp@.len(),
    ensures
        parsed(r, sp_opprint(inp@, pos as int), pos as int, inp@.len() as int),
{
    let el = elem_open(inp, pos)?;
    if !(kw_at(inp, el.ns, el.ne, "opprint".as_bytes()) && el.self_closed) {
        return Err(ParseError::malformed(el.ns));
    }
    let id = req_dec(&el.attrs, "id".as_bytes(), el.ns)?;
    Ok((OperandPrint { id }, el.after))
}

pub open spec fn sp_print(s: Seq<u8>, pos: int) -> Option<(PrintV, int)> {
    match sp_elem_open(s, pos) {
        Some((name, attrs, sc, p)) => if name == lit_bytes("print") && sc {
            match crate::attrs::str_attr_any(attrs, lit_bytes("piece")) {
                Some(piece) => Some((PrintV { piece }, p)),
                None => None,
            }
        } else {
            None
        },
        None => None,
    }
}

pub fn p_print(inp: &[u8], pos: usize) -> (r: Result<(Print, usize), ParseError>)
    requires
        pos <= inp@.len(),
    ensures
        parsed(r, sp_print(inp@, pos as int), pos as int, inp@.len() as int),
{
    let el = elem_open(inp, pos)?;
    if !(kw_at(inp, el.ns, el.ne, "print".as_bytes()) && el.self_closed) {
        return Err(ParseError::malformed(el.ns));
    }
    let piece = crate::attrs::req_str_any(&el.attrs, "piece".as_bytes(), el.ns)?;
    Ok((Print { piece }, el.after))
}

pub open spec fn sp_print_piece(s: Seq<u8>, pos: int) -> Option<(PrintPieceTypeV, int)> {
    match sp_peek_tag(s, pos) {
        Some((false, name, _)) => if name == lit_bytes("opprint") {
            match sp_opprint(s, pos) {
                Some((v, p)) => Some((PrintPieceTypeV::Operand(v), p)),
                None => None,
            }
        } else if name == lit_bytes("print") {
            match sp_print(s, pos) {
                Some((v, p)) => Some((PrintPieceTypeV::Print(v), p)),
                None => None,
            }
        } else {
            None
        },
        _ => None,
    }
}

pub fn p_print_piece(inp: &[u8], pos: usize) -> (r: Result<(PrintPieceType, usize), ParseError>)
    requires
        pos <= inp@.len(),
    ensures
        parsed(r, sp_print_piece(inp@, pos as int), pos as int, inp@.len() as int),
{
    let pk = peek_tag(inp, pos)?;
    if pk.is_close {
        return Err(ParseError::malformed(pk.ns));
    }
    if kw_at(inp, pk.ns, pk.ne, "opprint".as_bytes()) {
        let (v, p) = p_opprint(inp, pos)?;
        Ok((PrintPieceType::Operand(v), p))
    } else if kw_at(inp, pk.ns, pk.ne, "print".as_bytes()) {
        let (v, p) = p_print(inp, pos)?;
        Ok((PrintPieceType::Print(v), p))
    } else {
        Err(ParseError::malformed(pk.ns))
    }
}

pub open spec fn is_print_piece_tag(name: Seq<u8>) -> bool {
    name == lit_bytes("opprint") || name == lit_bytes("print")
}

pub open spec fn sp_print_piece_list(s: Seq<u8>, pos: int) -> Option<(Seq<PrintPieceTypeV>, int)>
    decreases s.len() - pos,
{
    match sp_peek_tag(s, pos) {
        Some((false, name, _)) => if is_print_piece_tag(name) {
            match sp_print_piece(s, pos) {
                Some((x, p2)) => if pos < p2 <= s.len() {
                    match sp_print_piece_list(s, p2) {
                        Some((rest, end)) => Some((seq![x] + rest, end)),
                        None => None,
                    }
                } else {
                    None
                },
                None => None,
            }
        } else {
            Some((Seq::empty(), pos))
        },
        _ => Some((Seq::empty(), pos)),
    }
}

pub fn p_print_piece_list(inp: &[u8], pos: usize) -> (r: Result<
    (Vec<PrintPieceType>, usize),
    ParseError,
>)
    requires
        pos <= inp@.len(),
    ensures
        match r {
            Ok((items, p)) => sp_print_piece_list(inp@, pos as int) == Some(
                (vec_view(items@), p as int),
            ) && pos <= p <= inp@.len(),
            Err(_) => sp_print_piece_list(inp@, pos as int) is None,
        },
{
    let mut items: Vec<PrintPieceType> = Vec::new();
    let mut cur: usize = pos;
    loop
        invariant
            pos <= cur <= inp@.len(),
            sp_print_piece_list(inp@, pos as int) == match sp_print_piece_list(
                inp@,
                cur as int,
            ) {
                Some((rest, end)) => Some::<(Seq<PrintPieceTypeV>, int)>(
                    (vec_view(items@) + rest, end),
                ),
                None => None::<(Seq<PrintPieceTypeV>, int)>,
            },
        decreases inp@.len() - cur,
    {
        let stop: bool = match peek_tag(inp, cur) {
            Ok(pk) => pk.is_close || !(kw_at(inp, pk.ns, pk.ne, "opprint".as_bytes()) || kw_at(
                inp,
                pk.ns,
                pk.ne,
                "print".as_bytes(),
            )),
            Err(_) => true,
        };
        if stop {
            proof {
                assert(vec_view(items@) + Seq::<PrintPieceTypeV>::empty() =~= vec_view(items@));
            }
            return Ok((items, cur));
        }
        let (x, p2) = p_print_piece(inp, cur)?;
        let ghost pre = items@;
        items.push(x);
        cur = p2;
        proof {
            assert(vec_view(items@) =~= vec_view(pre) + seq![x@]);
            match sp_print_piece_list(inp@, cur as int) {
                Some((rest, end)) => {
                    assert(vec_view(pre) + (seq![x@] + rest) =~= (vec_view(pre) + seq![x@])
                        + rest);
                },
                None => {},
            }
        }
    }
}

// ---------------------------------------------------------------------
// Context changes
// ---------------------------------------------------------------------

pub open spec fn sp_context_op(s: Seq<u8>, pos: int) -> Option<(OperationV, int)> {
    match sp_elem_open(s, pos) {
        Some((name, attrs, sc, p1)) => if name == lit_bytes("context_op") && !sc {
            match (
                dec_attr(attrs, lit_bytes("i")),
                dec_attr(attrs, lit_bytes("shift")),
                hex_attr(attrs, lit_bytes("mask")),
            ) {
                (Some(i), Some(shift), Some(mask)) => match sp_expr(s, p1) {
                    Some((patexp, p2)) => match sp_close_tag(s, p2, lit_bytes("context_op")) {
                        Some(p3) => Some((OperationV { i, shift, mask, patexp }, p3)),
                        None => None,
                    },
                    None => None,
                },
                _ => None,
            }
        } else {
            None
        },
        None => None,
    }
}

pub fn p_context_op(inp: &[u8], pos: usize) -> (r: Result<(Operation, usize), ParseError>)
    requires
        pos <= inp@.len(),
    ensures
        parsed(r, sp_context_op(inp@, pos as int), pos as int, inp@.len() as int),
{
    let el = elem_open(inp, pos)?;
    if !(kw_at(inp, el.ns, el.ne, "context_op".as_bytes()) && !el.self_closed) {
        return Err(ParseError::malformed(el.ns));
    }
    let i = req_dec(&el.attrs, "i".as_bytes(), el.ns)?;
    let shift = req_dec(&el.attrs, "shift".as_bytes(), el.ns)?;
    let mask = req_hex(&el.attrs, "mask".as_bytes(), el.ns)?;
    let (patexp, p2) = p_expr(inp, el.after)?;
    let p3 = close_tag(inp, p2, "context_op".as_bytes())?;
    Ok((Operation { i, shift, mask, patexp }, p3))
}

pub open spec fn sp_commit(s: Seq<u8>, pos: int) -> Option<(CommitV, int)> {
    match sp_elem_open(s, pos) {
        Some((name, attrs, sc, p)) => if name == lit_bytes("commit") && sc {
            match (
                hex_attr(attrs, lit_bytes("id")),
                dec_attr(attrs, lit_bytes("num")),
                hex_attr(attrs, lit_bytes("mask")),
                bool_attr(attrs, lit_bytes("flow")),
            ) {
                (Some(id), Some(num), Some(mask), Some(flow)) => Some(
                    (CommitV { id, num, mask, flow }, p),
                ),
                _ => None,
            }
        } else {
            None
        },
        None => None,
    }
}

pub fn p_commit(inp: &[u8], pos: usize) -> (r: Result<(Commit, usize), ParseError>)
    requires
        pos <= inp@.len(),
    ensures
        parsed(r, sp_commit(inp@, pos as int), pos as int, inp@.len() as int),
{
    let el = elem_open(inp, pos)?;
    if !(kw_at(inp, el.ns, el.ne, "commit".as_bytes()) && el.self_closed) {
        return Err(ParseError::malformed(el.ns));
    }
    let id = req_hex(&el.attrs, "id".as_bytes(), el.ns)?;
    let num = req_dec(&el.attrs, "num".as_bytes(), el.ns)?;
    let mask = req_hex(&el.attrs, "mask".as_bytes(), el.ns)?;
    let flow = req_bool(&el.attrs, "flow".as_bytes(), el.ns)?;
    Ok((Commit { id, num, mask, flow }, el.after))
}

pub open spec fn sp_context_change(s: Seq<u8>, pos: int) -> Option<(ContextChangeTypeV, int)> {
    match sp_peek_tag(s, pos) {
        Some((false, name, _)) => if name == lit_bytes("context_op") {
            match sp_context_op(s, pos) {
                Some((v, p)) => Some((ContextChangeTypeV::Operation(v), p)),
                None => None,
            }
        } else if name == lit_bytes("commit") {
            match sp_commit(s, pos) {
                Some((v, p)) => Some((ContextChangeTypeV::Commit(v), p)),
                None => None,
            }
        } else {
            None
        },
        _ => None,
    }
}

pub fn p_context_change(inp: &[u8], pos: usize) -> (r: Result<
    (ContextChangeType, usize),
    ParseError,
>)
    requires
        pos <= inp@.len(),
    ensures
        parsed(r, sp_context_change(inp@, pos as int), pos as int, inp@.len() as int),
{
    let pk = peek_tag(inp, pos)?;
    if pk.is_close {
        return Err(ParseError::malformed(pk.ns));
    }
    if kw_at(inp, pk.ns, pk.ne, "context_op".as_bytes()) {
        let (v, p) = p_context_op(inp, pos)?;
        Ok((ContextChangeType::Operation(v), p))
    } else if kw_at(inp, pk.ns, pk.ne, "commit".as_bytes()) {
        let (v, p) = p_commit(inp, pos)?;
        Ok((ContextChangeType::Commit(v), p))
    } else {
        Err(ParseError::malformed(pk.ns))
    }
}

pub open spec fn is_context_change_tag(name: Seq<u8>) -> bool {
    name == lit_bytes("context_op") || name == lit_bytes("commit")
}

pub open spec fn sp_context_change_list(s: Seq<u8>, pos: int) -> Option<
    (Seq<ContextChangeTypeV>, int),
>
    decreases s.len() - pos,
{
    match sp_peek_tag(s, pos) {
        Some((false, name, _)) => if is_context_change_tag(name) {
            match sp_context_change(s, pos) {
                Some((x, p2)) => if pos < p2 <= s.len() {
                    match sp_context_change_list(s, p2) {
                        Some((rest, end)) => Some((seq![x] + rest, end)),
                        None => None,
                    }
                } else {
                    None
                },
                None => None,
            }
        } else {
            Some((Seq::empty(), pos))
        },
        _ => Some((Seq::empty(), pos)),
    }
}

pub fn p_context_change_list(inp: &[u8], pos: usize) -> (r: Result<
    (Vec<ContextChangeType>, usize),
    ParseError,
>)
    requires
        pos <= inp@.len(),
    ensures
        match r {
            Ok((items, p)) => sp_context_change_list(inp@, pos as int) == Some(
                (vec_view(items@), p as int),
            ) && pos <= p <= inp@.len(),
            Err(_) => sp_context_change_list(inp@, pos as int) is None,
        },
{
    let mut items: Vec<ContextChangeType> = Vec::new();
    let mut cur: usize = pos;
    loop
        invariant
            pos <= cur <= inp@.len(),
            sp_context_change_list(inp@, pos as int) == match sp_context_change_list(
                inp@,
                cur as int,
            ) {
                Some((rest, end)) => Some::<(Seq<ContextChangeTypeV>, int)>(
                    (vec_view(items@) + rest, end),
                ),
                None => None::<(Seq<ContextChangeTypeV>, int)>,
            },
        decreases inp@.len() - cur,
    {
        let stop: bool = match peek_tag(inp, cur) {
            Ok(pk) => pk.is_close || !(kw_at(inp, pk.ns, pk.ne, "context_op".as_bytes())
                || kw_at(inp, pk.ns, pk.ne, "commit".as_bytes())),
            Err(_) => true,
        };
        if stop {
            proof {
                assert(vec_view(items@) + Seq::<ContextChangeTypeV>::empty() =~= vec_view(
                    items@,
                ));
            }
            return Ok((items, cur));
        }
        let (x, p2) = p_context_change(inp, cur)?;
        let ghost pre = items@;
        items.push(x);
        cur = p2;
        proof {
            assert(vec_view(items@) =~= vec_view(pre) + seq![x@]);
            match sp_context_change_list(inp@, cur as int) {
                Some((rest, end)) => {
                    assert(vec_view(pre) + (seq![x@] + rest) =~= (vec_view(pre) + seq![x@])
                        + rest);
                },
                None => {},
            }
        }
    }
}

// ---------------------------------------------------------------------
// The constructor element
// ---------------------------------------------------------------------

pub open spec fn sp_constructor(s: Seq<u8>, pos: int) -> Option<(ConstructorV, int)> {
    match sp_elem_open(s, pos) {
        Some((name, attrs, sc, p1)) => if name == lit_bytes("constructor") && !sc {
            match (
                hex_attr(attrs, lit_bytes("parent")),
                dec_attr(attrs, lit_bytes("first")),
                dec_attr(attrs, lit_bytes("length")),
                line_attr(attrs, lit_bytes("line")),
            ) {
                (Some(parent), Some(first), Some(length), Some(line)) => match sp_oper_list(
                    s,
                    p1,
                ) {
                    Some((operands, p2)) => match sp_print_piece_list(s, p2) {
                        Some((printpiece, p3)) => match sp_context_change_list(s, p3) {
                            Some((contexts, p4)) => match sp_construct_tpl_list(s, p4) {
                                Some((tpls, p5)) => match sp_close_tag(
                                    s,
                                    p5,
                                    lit_bytes("constructor"),
                                ) {
                                    Some(p6) => Some(
                                        (
                                            ConstructorV {
                                                parent,
                                                first,
                                                length,
                                                line,
                                                operands,
                                                printpiece,
                                                contexts,
                                                templ: if tpls.len() > 0 {
                                                    Some(tpls[0])
                                                } else {
                                                    None
                                                },
                                                namedtempl: if tpls.len() > 0 {
                                                    tpls.drop_first()
                                                } else {
                                                    Seq::empty()
                                                },
                                            },
                                            p6,
                                        ),
                                    ),
                                    None => None,
                                },
                                None => None,
                            },
                            None => None,
                        },
                        None => None,
                    },
                    None => None,
                },
                _ => None,
            }
        } else {
            None
        },
        None => None,
    }
}

#[verifier::rlimit(50)]
pub fn p_constructor(inp: &[u8], pos: usize) -> (r: Result<(Constructor, usize), ParseError>)
    requires
        pos <= inp@.len(),
    ensures
        parsed(r, sp_constructor(inp@, pos as int), pos as int, inp@.len() as int),
{
    let el = elem_open(inp, pos)?;
    if !(kw_at(inp, el.ns, el.ne, "constructor".as_bytes()) && !el.self_closed) {
        return Err(ParseError::malformed(el.ns));
    }
    let parent = req_hex(&el.attrs, "parent".as_bytes(), el.ns)?;
    let first = req_dec(&el.attrs, "first".as_bytes(), el.ns)?;
    let length = req_dec(&el.attrs, "length".as_bytes(), el.ns)?;
    let line = req_line(&el.attrs, "line".as_bytes(), el.ns)?;
    let (operands, p2) = p_oper_list(inp, el.after)?;
    let (printpiece, p3) = p_print_piece_list(inp, p2)?;
    let (contexts, p4) = p_context_change_list(inp, p3)?;
    let (mut tpls, p5) = p_construct_tpl_list(inp, p4)?;
    let p6 = close_tag(inp, p5, "constructor".as_bytes())?;
    let ghost tpls_v = vec_view(tpls@);
    let ghost pre = tpls@;
    let (templ, namedtempl) = if tpls.len() > 0 {
        let head = tpls.remove(0);
        proof {
            assert(tpls@ =~= pre.drop_first());
            assert(vec_view(tpls@) =~= tpls_v.drop_first());
        }
        (Some(head), tpls)
    } else {
        proof {
            assert(vec_view(tpls@) =~= Seq::<crate::model::ConstructorTemplateV>::empty());
        }
        (None, tpls)
    };
    let c = Constructor { parent, first, length, line, operands, printpiece, contexts, templ,
        namedtempl };
    Ok((c, p6))
}

} // verus!
