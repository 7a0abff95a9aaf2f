//! Parsers for pattern values and pattern expressions.
//!
//! A pattern expression is either a leaf value (token field, context
//! field, constant, operand reference, or an instruction-position
//! marker) or an operator tag wrapping its child expressions; the first
//! child element is the left operand.  Nesting depth is bounded only by
//! the input, so the parsers recurse on a strictly shrinking remainder
//! of the buffer.

use vstd::prelude::*;
use crate::attrs::{
    bool_attr, dec_attr, hex_attr, req_bool, req_dec, req_hex,
};
use crate::error::ParseError;
use crate::model::{
    BinaryExpressionType, BinaryOp, ConstantValue, ConstantValueV, ContextField, ContextFieldV,
    OperandValue, OperandValueV, PatternExpressionType, PatternExpressionTypeV, PatternValueType,
    PatternValueTypeV, TokenField, TokenFieldV, UnaryExpressionType, UnaryOp,
};
use crate::scan::{
    close_tag, elem_open, kw_at, lit_bytes, parsed, peek_tag, sp_close_tag, sp_elem_open,
    sp_peek_tag,
};

verus! {

broadcast use vstd::seq::group_seq_axioms, vstd::std_specs::vec::group_vec_axioms;

// ---------------------------------------------------------------------
// Leaf pattern values
// ---------------------------------------------------------------------

pub open spec fn sp_token_field(s: Seq<u8>, pos: int) -> Option<(TokenFieldV, int)> {
    match sp_elem_open(s, pos) {
        Some((name, attrs, sc, p)) => if name == lit_bytes("tokenfield") && sc {
            match (
                bool_attr(attrs, lit_bytes("bigendian")),
                bool_attr(attrs, lit_bytes("signbit")),
                dec_attr(attrs, lit_bytes("bitstart")),
                dec_attr(attrs, lit_bytes("bitend")),
                dec_attr(attrs, lit_bytes("bytestart")),
                dec_attr(attrs, lit_bytes("byteend")),
                dec_attr(attrs, lit_bytes("shift")),
            ) {
                (
                    Some(bigendian),
                    Some(signbit),
                    Some(bitstart),
                    Some(bitend),
                    Some(bytestart),
                    Some(byteend),
                    Some(shift),
                ) => Some(
                    (
                        TokenFieldV {
                            bigendian,
                            signbit,
                            bitstart,
                            bitend,
                            bytestart,
                            byteend,
                            shift,
                        },
                        p,
                    ),
                ),
                _ => None,
            }
        } else {
            None
        },
        None => None,
    }
}

pub fn p_token_field(inp: &[u8], pos: usize) -> (r: Result<(TokenField, usize), ParseError>)
    requires
        pos <= inp@.len(),
    ensures
        parsed(r, sp_token_field(inp@, pos as int), pos as int, inp@.len() as int),
{
    let el = elem_open(inp, pos)?;
    if !(kw_at(inp, el.ns, el.ne, "tokenfield".as_bytes()) && el.self_closed) {
        return Err(ParseError::malformed(el.ns));
    }
    let bigendian = req_bool(&el.attrs, "bigendian".as_bytes(), el.ns)?;
    let signbit = req_bool(&el.attrs, "signbit".as_bytes(), el.ns)?;
    let bitstart = req_dec(&el.attrs, "bitstart".as_bytes(), el.ns)?;
    let bitend = req_dec(&el.attrs, "bitend".as_bytes(), el.ns)?;
    let bytestart = req_dec(&el.attrs, "bytestart".as_bytes(), el.ns)?;
    let byteend = req_dec(&el.attrs, "byteend".as_bytes(), el.ns)?;
    let shift = req_dec(&el.attrs, "shift".as_bytes(), el.ns)?;
    Ok(
        (
            TokenField { bigendian, signbit, bitstart, bitend, bytestart, byteend, shift },
            el.after,
        ),
    )
}

pub open spec fn sp_context_field(s: Seq<u8>, pos: int) -> Option<(ContextFieldV, int)> {
    match sp_elem_open(s, pos) {
        Some((name, attrs, sc, p)) => if name == lit_bytes("contextfield") && sc {
            match (
                bool_attr(attrs, lit_bytes("signbit")),
                dec_attr(attrs, lit_bytes("startbit")),
                dec_attr(attrs, lit_bytes("endbit")),
                dec_attr(attrs, lit_bytes("startbyte")),
                dec_attr(attrs, lit_bytes("endbyte")),
                dec_attr(attrs, lit_bytes("shift")),
            ) {
                (
                    Some(signbit),
                    Some(startbit),
                    Some(endbit),
                    Some(startbyte),
                    Some(endbyte),
                    Some(shift),
                ) => Some(
                    (ContextFieldV { signbit, startbit, endbit, startbyte, endbyte, shift }, p),
                ),
                _ => None,
            }
        } else {
            None
        },
        None => None,
    }
}

pub fn p_context_field(inp: &[u8], pos: usize) -> (r: Result<(ContextField, usize), ParseError>)
    requires
        pos <= inp@.len(),
    ensures
        parsed(r, sp_context_field(inp@, pos as int), pos as int, inp@.len() as int),
{
    let el = elem_open(inp, pos)?;
    if !(kw_at(inp, el.ns, el.ne, "contextfield".as_bytes()) && el.self_closed) {
        return Err(ParseError::malformed(el.ns));
    }
    let signbit = req_bool(&el.attrs, "signbit".as_bytes(), el.ns)?;
    let startbit = req_dec(&el.attrs, "startbit".as_bytes(), el.ns)?;
    let endbit = req_dec(&el.attrs, "endbit".as_bytes(), el.ns)?;
    let startbyte = req_dec(&el.attrs, "startbyte".as_bytes(), el.ns)?;
    let endbyte = req_dec(&el.attrs, "endbyte".as_bytes(), el.ns)?;
    let shift = req_dec(&el.attrs, "shift".as_bytes(), el.ns)?;
    Ok((ContextField { signbit, startbit, endbit, startbyte, endbyte, shift }, el.after))
}

pub open spec fn sp_constant_value(s: Seq<u8>, pos: int) -> Option<(ConstantValueV, int)> {
    match sp_elem_open(s, pos) {
        Some((name, attrs, sc, p)) => if name == lit_bytes("intb") && sc {
            match dec_attr(attrs, lit_bytes("val")) {
                Some(val) => Some((ConstantValueV { val }, p)),
                None => None,
            }
        } else {
            None
        },
        None => None,
    }
}

pub fn p_constant_value(inp: &[u8], pos: usize) -> (r: Result<(ConstantValue, usize), ParseError>)
    requires
        pos <= inp@.len(),
    ensures
        parsed(r, sp_constant_value(inp@, pos as int), pos as int, inp@.len() as int),
{
    let el = elem_open(inp, pos)?;
    if !(kw_at(inp, el.ns, el.ne, "intb".as_bytes()) && el.self_closed) {
        return Err(ParseError::malformed(el.ns));
    }
    let val = req_dec(&el.attrs, "val".as_bytes(), el.ns)?;
    Ok((ConstantValue { val }, el.after))
}

pub open spec fn sp_operand_value(s: Seq<u8>, pos: int) -> Option<(OperandValueV, int)> {
    match sp_elem_open(s, pos) {
        Some((name, attrs, sc, p)) => if name == lit_bytes("operand_exp") && sc {
            match (
                dec_attr(attrs, lit_bytes("index")),
                hex_attr(attrs, lit_bytes("table")),
                hex_attr(attrs, lit_bytes("ct")),
            ) {
                (Some(index), Some(table), Some(constructor_id)) => Some(
                    (OperandValueV { index, table, constructor_id }, p),
                ),
                _ => None,
            }
        } else {
            None
        },
        None => None,
    }
}

pub fn p_operand_value(inp: &[u8], pos: usize) -> (r: Result<(OperandValue, usize), ParseError>)
    requires
        pos <= inp@.len(),
    ensures
        parsed(r, sp_operand_value(inp@, pos as int), pos as int, inp@.len() as int),
{
    let el = elem_open(inp, pos)?;
    if !(kw_at(inp, el.ns, el.ne, "operand_exp".as_bytes()) && el.self_closed) {
        return Err(ParseError::malformed(el.ns));
    }
    let index = req_dec(&el.attrs, "index".as_bytes(), el.ns)?;
    let table = req_hex(&el.attrs, "table".as_bytes(), el.ns)?;
    let constructor_id = req_hex(&el.attrs, "ct".as_bytes(), el.ns)?;
    Ok((OperandValue { index, table, constructor_id }, el.after))
}

/// A self-closing marker tag with no meaningful attributes.
pub open spec fn sp_marker(s: Seq<u8>, pos: int, name: Seq<u8>) -> Option<int> {
    match sp_elem_open(s, pos) {
        Some((nm, attrs, sc, p)) => if nm == name && sc {
            Some(p)
        } else {
            None
        },
        None => None,
    }
}

pub fn p_marker(inp: &[u8], pos: usize, kw: &[u8]) -> (r: Result<usize, ParseError>)
    requires
        pos <= inp@.len(),
    ensures
        match r {
            Ok(p) => sp_marker(inp@, pos as int, kw@) == Some(p as int) && pos < p <= inp@.len(),
            Err(_) => sp_marker(inp@, pos as int, kw@) is None,
        },
{
    let el = elem_open(inp, pos)?;
    if !(kw_at(inp, el.ns, el.ne, kw) && el.self_closed) {
        return Err(ParseError::malformed(el.ns));
    }
    Ok(el.after)
}

pub open spec fn sp_pattern_value(s: Seq<u8>, pos: int) -> Option<(PatternValueTypeV, int)> {
    match sp_peek_tag(s, pos) {
        Some((false, name, _)) => if name == lit_bytes("tokenfield") {
            match sp_token_field(s, pos) {
                Some((v, p)) => Some((PatternValueTypeV::TokenField(v), p)),
                None => None,
            }
        } else if name == lit_bytes("contextfield") {
            match sp_context_field(s, pos) {
                Some((v, p)) => Some((PatternValueTypeV::ContextField(v), p)),
                None => None,
            }
        } else if name == lit_bytes("intb") {
            match sp_constant_value(s, pos) {
                Some((v, p)) => Some((PatternValueTypeV::ConstantValue(v), p)),
                None => None,
            }
        } else if name == lit_bytes("operand_exp") {
            match sp_operand_value(s, pos) {
                Some((v, p)) => Some((PatternValueTypeV::OperandValue(v), p)),
                None => None,
            }
        } else if name == lit_bytes("start_exp") {
            match sp_marker(s, pos, lit_bytes("start_exp")) {
                Some(p) => Some((PatternValueTypeV::StartInstructionValue, p)),
                None => None,
            }
        } else if name == lit_bytes("end_exp") {
            match sp_marker(s, pos, lit_bytes("end_exp")) {
                Some(p) => Some((PatternValueTypeV::EndInstructionValue, p)),
                None => None,
            }
        } else if name == lit_bytes("next2_exp") {
            match sp_marker(s, pos, lit_bytes("next2_exp")) {
                Some(p) => Some((PatternValueTypeV::Next2InstructionValue, p)),
                None => None,
            }
        } else {
            None
        },
        _ => None,
    }
}

pub fn p_pattern_value(inp: &[u8], pos: usize) -> (r: Result<
    (PatternValueType, usize),
    ParseError,
>)
    requires
        pos <= inp@.len(),
    ensures
        parsed(r, sp_pattern_value(inp@, pos as int), pos as int, inp@.len() as int),
{
    let pk = peek_tag(inp, pos)?;
    if pk.is_close {
        return Err(ParseError::malformed(pk.ns));
    }
    if kw_at(inp, pk.ns, pk.ne, "tokenfield".as_bytes()) {
        let (v, p) = p_token_field(inp, pos)?;
        Ok((PatternValueType::TokenField(v), p))
    } else if kw_at(inp, pk.ns, pk.ne, "contextfield".as_bytes()) {
        let (v, p) = p_context_field(inp, pos)?;
        Ok((PatternValueType::ContextField(v), p))
    } else if kw_at(inp, pk.ns, pk.ne, "intb".as_bytes()) {
        let (v, p) = p_constant_value(inp, pos)?;
        Ok((PatternValueType::ConstantValue(v), p))
    } else if kw_at(inp, pk.ns, pk.ne, "operand_exp".as_bytes()) {
        let (v, p) = p_operand_value(inp, pos)?;
        Ok((PatternValueType::OperandValue(v), p))
    } else if kw_at(inp, pk.ns, pk.ne, "start_exp".as_bytes()) {
        let p = p_marker(inp, pos, "start_exp".as_bytes())?;
        Ok((PatternValueType::StartInstructionValue, p))
    } else if kw_at(inp, pk.ns, pk.ne, "end_exp".as_bytes()) {
        let p = p_marker(inp, pos, "end_exp".as_bytes())?;
        Ok((PatternValueType::EndInstructionValue, p))
    } else if kw_at(inp, pk.ns, pk.ne, "next2_exp".as_bytes()) {
        let p = p_marker(inp, pos, "next2_exp".as_bytes())?;
        Ok((PatternValueType::Next2InstructionValue, p))
    } else {
        Err(ParseError::malformed(pk.ns))
    }
}

// ---------------------------------------------------------------------
// Expressions
// ---------------------------------------------------------------------

/// The binary operator named by an expression tag, if any.
pub open spec fn binop_of(name: Seq<u8>) -> Option<BinaryOp> {
    if name == lit_bytes("plus_exp") {
        Some(BinaryOp::Plus)
    } else if name == lit_bytes("sub_exp") {
        Some(BinaryOp::Sub)
    } else if name == lit_bytes("mult_exp") {
        Some(BinaryOp::Mult)
    } else if name == lit_bytes("lshift_exp") {
        Some(BinaryOp::LeftShift)
    } else if name == lit_bytes("rshift_exp") {
        Some(BinaryOp::RightShift)
    } else if name == lit_bytes("and_exp") {
        Some(BinaryOp::And)
    } else if name == lit_bytes("or_exp") {
        Some(BinaryOp::Or)
    } else if name == lit_bytes("xor_exp") {
        Some(BinaryOp::Xor)
    } else if name == lit_bytes("div_exp") {
        Some(BinaryOp::Div)
    } else {
        None
    }
}

/// The unary operator named by an expression tag, if any.
pub open spec fn unop_of(name: Seq<u8>) -> Option<UnaryOp> {
    if name == lit_bytes("minus_exp") {
        Some(UnaryOp::Minus)
    } else if name == lit_bytes("not_exp") {
        Some(UnaryOp::Not)
    } else {
        None
    }
}

/// A pattern expression: an operator tag around child expressions, or a
/// leaf pattern value.  Document order gives operand order.
pub open spec fn sp_expr(s: Seq<u8>, pos: int) -> Option<(PatternExpressionTypeV, int)>
    decreases s.len() - pos,
{
    match sp_peek_tag(s, pos) {
        Some((false, name, _)) => if binop_of(name) is Some {
            let op = binop_of(name)->Some_0;
            match sp_elem_open(s, pos) {
                Some((nm, attrs, sc, p1)) => if !sc && pos < p1 <= s.len() {
                    match sp_expr(s, p1) {
                        Some((left, p2)) => if pos < p2 <= s.len() {
                            match sp_expr(s, p2) {
                                Some((right, p3)) => match sp_close_tag(s, p3, name) {
                                    Some(p4) => Some(
                                        (
                                            PatternExpressionTypeV::Binary(
                                                op,
                                                seq![left, right],
                                            ),
                                            p4,
                                        ),
                                    ),
                                    None => None,
                                },
                                None => None,
                            }
                        } else {
                            None
                        },
                        None => None,
                    }
                } else {
                    None
                },
                None => None,
            }
        } else if unop_of(name) is Some {
            let op = unop_of(name)->Some_0;
            match sp_elem_open(s, pos) {
                Some((nm, attrs, sc, p1)) => if !sc && pos < p1 <= s.len() {
                    match sp_expr(s, p1) {
                        Some((inner, p2)) => match sp_close_tag(s, p2, name) {
                            Some(p3) => Some(
                                (PatternExpressionTypeV::Unary(op, seq![inner]), p3),
                            ),
                            None => None,
                        },
                        None => None,
                    }
                } else {
                    None
                },
                None => None,
            }
        } else {
            match sp_pattern_value(s, pos) {
                Some((v, p)) => Some((PatternExpressionTypeV::PatternValue(v), p)),
                None => None,
            }
        },
        _ => None,
    }
}

/// Parse a binary operator node whose tag has already been peeked.
#[verifier::rlimit(50)]
fn p_binary_expr(inp: &[u8], pos: usize, kw: &[u8], op: BinaryOp) -> (r: Result<
    (PatternExpressionType, usize),
    ParseError,
>)
    requires
        pos <= inp@.len(),
        binop_of(kw@) == Some(op),
        sp_peek_tag(inp@, pos as int) matches Some((is_close, name, _)) && is_close == false
            && name == kw@,
    ensures
        parsed(r, sp_expr(inp@, pos as int), pos as int, inp@.len() as int),
    decreases inp@.len() - pos, 0int,
{
    let el = elem_open(inp, pos)?;
    if el.self_closed {
        return Err(ParseError::malformed(el.ns));
    }
    let (left, p2) = p_expr(inp, el.after)?;
    let (right, p3) = p_expr(inp, p2)?;
    let p4 = close_tag(inp, p3, kw)?;
    Ok(
        (
            PatternExpressionType::BinaryExpression(
                Box::new(BinaryExpressionType { op, left, right }),
            ),
            p4,
        ),
    )
}

/// Parse a unary operator node whose tag has already been peeked.
#[verifier::rlimit(50)]
fn p_unary_expr(inp: &[u8], pos: usize, kw: &[u8], op: UnaryOp) -> (r: Result<
    (PatternExpressionType, usize),
    ParseError,
>)
    requires
        pos <= inp@.len(),
        unop_of(kw@) == Some(op),
        binop_of(kw@) is None,
        sp_peek_tag(inp@, pos as int) matches Some((is_close, name, _)) && is_close == false
            && name == kw@,
    ensures
        parsed(r, sp_expr(inp@, pos as int), pos as int, inp@.len() as int),
    decreases inp@.len() - pos, 0int,
{
    let el = elem_open(inp, pos)?;
    if el.self_closed {
        return Err(ParseError::malformed(el.ns));
    }
    let (inner, p2) = p_expr(inp, el.after)?;
    let p3 = close_tag(inp, p2, kw)?;
    Ok(
        (
            PatternExpressionType::UnaryExpression(Box::new(UnaryExpressionType { op, inner })),
            p3,
        ),
    )
}

/// Parse one pattern expression.
pub fn p_expr(inp: &[u8], pos: usize) -> (r: Result<(PatternExpressionType, usize), ParseError>)
    requires
        pos <= inp@.len(),
    ensures
        parsed(r, sp_expr(inp@, pos as int), pos as int, inp@.len() as int),
    decreases inp@.len() - pos, 1int,
{
    let pk = peek_tag(inp, pos)?;
    if pk.is_close {
        return Err(ParseError::malformed(pk.ns));
    }
    if kw_at(inp, pk.ns, pk.ne, "plus_exp".as_bytes()) {
        p_binary_expr(inp, pos, "plus_exp".as_bytes(), BinaryOp::Plus)
    } else if kw_at(inp, pk.ns, pk.ne, "sub_exp".as_bytes()) {
        p_binary_expr(inp, pos, "sub_exp".as_bytes(), BinaryOp::Sub)
    } else if kw_at(inp, pk.ns, pk.ne, "mult_exp".as_bytes()) {
        p_binary_expr(inp, pos, "mult_exp".as_bytes(), BinaryOp::Mult)
    } else if kw_at(inp, pk.ns, pk.ne, "lshift_exp".as_bytes()) {
        p_binary_expr(inp, pos, "lshift_exp".as_bytes(), BinaryOp::LeftShift)
    } else if kw_at(inp, pk.ns, pk.ne, "rshift_exp".as_bytes()) {
        p_binary_expr(inp, pos, "rshift_exp".as_bytes(), BinaryOp::RightShift)
    } else if kw_at(inp, pk.ns, pk.ne, "and_exp".as_bytes()) {
        p_binary_expr(inp, pos, "and_exp".as_bytes(), BinaryOp::And)
    } else if kw_at(inp, pk.ns, pk.ne, "or_exp".as_bytes()) {
        p_binary_expr(inp, pos, "or_exp".as_bytes(), BinaryOp::Or)
    } else if kw_at(inp, pk.ns, pk.ne, "xor_exp".as_bytes()) {
        p_binary_expr(inp, pos, "xor_exp".as_bytes(), BinaryOp::Xor)
    } else if kw_at(inp, pk.ns, pk.ne, "div_exp".as_bytes()) {
        p_binary_expr(inp, pos, "div_exp".as_bytes(), BinaryOp::Div)
    } else if kw_at(inp, pk.ns, pk.ne, "minus_exp".as_bytes()) {
        p_unary_expr(inp, pos, "minus_exp".as_bytes(), UnaryOp::Minus)
    } else if kw_at(inp, pk.ns, pk.ne, "not_exp".as_bytes()) {
        p_unary_expr(inp, pos, "not_exp".as_bytes(), UnaryOp::Not)
    } else {
        match p_pattern_value(inp, pos) {
            Ok((v, p)) => Ok((PatternExpressionType::PatternValue(v), p)),
            Err(e) => Err(e),
        }
    }
}

} // verus!
