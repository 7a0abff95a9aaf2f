//! Parsers for pcode templates: constant templates, varnode and handle
//! templates, operation templates, and constructor templates.
//!
//! A constant template is one `const_tpl` tag whose shape is selected by
//! the value of its `type` attribute; an unrecognized type value is a
//! structural error, never ignored.  The same holds for the opcode
//! vocabulary of an operation template's `code` attribute.

use vstd::prelude::*;
use crate::attrs::{
    attr_find, dec_attr, find_attr, hex_attr, opt_dec, opt_dec_attr, opt_hex, opt_hex_attr,
    req_dec, req_hex, req_str_any, str_attr_any,
};
use crate::error::ParseError;
use crate::model::{
    ConstantTemplateSelector, ConstantTemplateType, ConstantTemplateTypeV, ConstructorTemplate,
    ConstructorTemplateResult, ConstructorTemplateResultV, ConstructorTemplateV, HandleTemplate,
    HandleTemplateV, OperationCode, OperationTemplate, OperationTemplateOutput,
    OperationTemplateOutputV, OperationTemplateV, VarNodeTemplate, VarNodeTemplateV, vec_view,
};
use crate::parse_expr::{p_marker, sp_marker};
use crate::scan::{
    close_tag, elem_open, kw_at, lit_bytes, parsed, peek_tag, sp_close_tag, sp_elem_open,
    sp_peek_tag,
};

verus! {

broadcast use vstd::seq::group_seq_axioms, vstd::std_specs::vec::group_vec_axioms;

// ---------------------------------------------------------------------
// Constant templates
// ---------------------------------------------------------------------

/// The selector named by the `s` attribute of a handle constant.
pub open spec fn sel_of(v: Seq<u8>) -> Option<ConstantTemplateSelector> {
    if v == lit_bytes("space") {
        Some(ConstantTemplateSelector::Space)
    } else if v == lit_bytes("offset") {
        Some(ConstantTemplateSelector::Offset)
    } else if v == lit_bytes("size") {
        Some(ConstantTemplateSelector::Size)
    } else if v == lit_bytes("offset_plus") {
        Some(ConstantTemplateSelector::OffsetPlus)
    } else {
        None
    }
}

pub open spec fn sp_const_tpl(s: Seq<u8>, pos: int) -> Option<(ConstantTemplateTypeV, int)> {
    match sp_elem_open(s, pos) {
        Some((name, attrs, sc, p)) => if name == lit_bytes("const_tpl") && sc {
            match attr_find(attrs, lit_bytes("type")) {
                Some(tv) => if tv == lit_bytes("real") {
                    match hex_attr(attrs, lit_bytes("val")) {
                        Some(val) => Some((ConstantTemplateTypeV::Real(val), p)),
                        None => None,
                    }
                } else if tv == lit_bytes("handle") {
                    match (
                        dec_attr(attrs, lit_bytes("val")),
                        attr_find(attrs, lit_bytes("s")),
                        opt_hex_attr(attrs, lit_bytes("plus")),
                    ) {
                        (Some(val), Some(sv), Some(plus)) => match sel_of(sv) {
                            Some(selector) => Some(
                                (ConstantTemplateTypeV::Handle { val, selector, plus }, p),
                            ),
                            None => None,
                        },
                        _ => None,
                    }
                } else if tv == lit_bytes("start") {
                    Some((ConstantTemplateTypeV::Start, p))
                } else if tv == lit_bytes("end") {
                    Some((ConstantTemplateTypeV::End, p))
                } else if tv == lit_bytes("next") {
                    Some((ConstantTemplateTypeV::Next, p))
                } else if tv == lit_bytes("next2") {
                    Some((ConstantTemplateTypeV::Next2, p))
                } else if tv == lit_bytes("curspace") {
                    Some((ConstantTemplateTypeV::CurSpace, p))
                } else if tv == lit_bytes("curspace_size") {
                    Some((ConstantTemplateTypeV::CurSpaceSize, p))
                } else if tv == lit_bytes("spaceid") {
                    match str_attr_any(attrs, lit_bytes("name")) {
                        Some(nm) => Some((ConstantTemplateTypeV::SpaceId(nm), p)),
                        None => None,
                    }
                } else if tv == lit_bytes("relative") {
                    match hex_attr(attrs, lit_bytes("val")) {
                        Some(val) => Some((ConstantTemplateTypeV::JumpRelative(val), p)),
                        None => None,
                    }
                } else if tv == lit_bytes("flowref") {
                    Some((ConstantTemplateTypeV::FlowRef, p))
                } else if tv == lit_bytes("flowdest") {
                    Some((ConstantTemplateTypeV::FlowDest, p))
                } else if tv == lit_bytes("flowdest_size") {
                    Some((ConstantTemplateTypeV::FlowDestSize, p))
                } else {
                    None
                },
                None => None,
            }
        } else {
            None
        },
        None => None,
    }
}

#[verifier::rlimit(50)]
pub fn p_const_tpl(inp: &[u8], pos: usize) -> (r: Result<
    (ConstantTemplateType, usize),
    ParseError,
>)
    requires
        pos <= inp@.len(),
    ensures
        parsed(r, sp_const_tpl(inp@, pos as int), pos as int, inp@.len() as int),
{
    let el = elem_open(inp, pos)?;
    if !(kw_at(inp, el.ns, el.ne, "const_tpl".as_bytes()) && el.self_closed) {
        return Err(ParseError::malformed(el.ns));
    }
    let ti = match find_attr(&el.attrs, "type".as_bytes()) {
        Some(i) => i,
        None => {
            return Err(ParseError::malformed(el.ns));
        },
    };
    let tlen = el.attrs[ti].value.len();
    proof {
        assert(el.attrs@[ti as int].value@.subrange(0, el.attrs@[ti as int].value@.len() as int)
            =~= el.attrs@[ti as int].value@);
    }
    if kw_at(el.attrs[ti].value.as_slice(), 0, tlen, "real".as_bytes()) {
        let val = req_hex(&el.attrs, "val".as_bytes(), el.ns)?;
        Ok((ConstantTemplateType::Real { val }, el.after))
    } else if kw_at(el.attrs[ti].value.as_slice(), 0, tlen, "handle".as_bytes()) {
        let val = req_dec(&el.attrs, "val".as_bytes(), el.ns)?;
        let si = match find_attr(&el.attrs, "s".as_bytes()) {
            Some(i) => i,
            None => {
                return Err(ParseError::malformed(el.ns));
            },
        };
        let slen = el.attrs[si].value.len();
        proof {
            assert(el.attrs@[si as int].value@.subrange(
                0,
                el.attrs@[si as int].value@.len() as int,
            ) =~= el.attrs@[si as int].value@);
        }
        let selector = if kw_at(el.attrs[si].value.as_slice(), 0, slen, "space".as_bytes()) {
            ConstantTemplateSelector::Space
        } else if kw_at(el.attrs[si].value.as_slice(), 0, slen, "offset".as_bytes()) {
            ConstantTemplateSelector::Offset
        } else if kw_at(el.attrs[si].value.as_slice(), 0, slen, "size".as_bytes()) {
            ConstantTemplateSelector::Size
        } else if kw_at(el.attrs[si].value.as_slice(), 0, slen, "offset_plus".as_bytes()) {
            ConstantTemplateSelector::OffsetPlus
        } else {
            return Err(ParseError::malformed(el.attrs[si].value_pos));
        };
        let plus = opt_hex(&el.attrs, "plus".as_bytes())?;
        Ok((ConstantTemplateType::Handle { val, selector, plus }, el.after))
    } else if kw_at(el.attrs[ti].value.as_slice(), 0, tlen, "start".as_bytes()) {
        Ok((ConstantTemplateType::Start, el.after))
    } else if kw_at(el.attrs[ti].value.as_slice(), 0, tlen, "end".as_bytes()) {
        Ok((ConstantTemplateType::End, el.after))
    } else if kw_at(el.attrs[ti].value.as_slice(), 0, tlen, "next".as_bytes()) {
        Ok((ConstantTemplateType::Next, el.after))
    } else if kw_at(el.attrs[ti].value.as_slice(), 0, tlen, "next2".as_bytes()) {
        Ok((ConstantTemplateType::Next2, el.after))
    } else if kw_at(el.attrs[ti].value.as_slice(), 0, tlen, "curspace".as_bytes()) {
        Ok((ConstantTemplateType::CurSpace, el.after))
    } else if kw_at(el.attrs[ti].value.as_slice(), 0, tlen, "curspace_size".as_bytes()) {
        Ok((ConstantTemplateType::CurSpaceSize, el.after))
    } else if kw_at(el.attrs[ti].value.as_slice(), 0, tlen, "spaceid".as_bytes()) {
        let name = req_str_any(&el.attrs, "name".as_bytes(), el.ns)?;
        Ok((ConstantTemplateType::SpaceId { name }, el.after))
    } else if kw_at(el.attrs[ti].value.as_slice(), 0, tlen, "relative".as_bytes()) {
        let val = req_hex(&el.attrs, "val".as_bytes(), el.ns)?;
        Ok((ConstantTemplateType::JumpRelative { val }, el.after))
    } else if kw_at(el.attrs[ti].value.as_slice(), 0, tlen, "flowref".as_bytes()) {
        Ok((ConstantTemplateType::FlowRef, el.after))
    } else if kw_at(el.attrs[ti].value.as_slice(), 0, tlen, "flowdest".as_bytes()) {
        Ok((ConstantTemplateType::FlowDest, el.after))
    } else if kw_at(el.attrs[ti].value.as_slice(), 0, tlen, "flowdest_size".as_bytes()) {
        Ok((ConstantTemplateType::FlowDestSize, el.after))
    } else {
        Err(ParseError::malformed(el.attrs[ti].value_pos))
    }
}

// ---------------------------------------------------------------------
// Varnode and handle templates
// ---------------------------------------------------------------------

pub open spec fn sp_varnode_tpl(s: Seq<u8>, pos: int) -> Option<(VarNodeTemplateV, int)> {
    match sp_elem_open(s, pos) {
        Some((name, attrs, sc, p1)) => if name == lit_bytes("varnode_tpl") && !sc {
            match sp_const_tpl(s, p1) {
                Some((space, p2)) => match sp_const_tpl(s, p2) {
                    Some((offset, p3)) => match sp_const_tpl(s, p3) {
                        Some((size, p4)) => match sp_close_tag(s, p4, lit_bytes("varnode_tpl")) {
                            Some(p5) => Some((VarNodeTemplateV { space, offset, size }, p5)),
                            None => None,
                        },
                        None => None,
                    },
                    None => None,
                },
                None => None,
            }
        } else {
            None
        },
        None => None,
    }
}

pub fn p_varnode_tpl(inp: &[u8], pos: usize) -> (r: Result<(VarNodeTemplate, usize), ParseError>)
    requires
        pos <= inp@.len(),
    ensures
        parsed(r, sp_varnode_tpl(inp@, pos as int), pos as int, inp@.len() as int),
{
    let el = elem_open(inp, pos)?;
    if !(kw_at(inp, el.ns, el.ne, "varnode_tpl".as_bytes()) && !el.self_closed) {
        return Err(ParseError::malformed(el.ns));
    }
    let (space, p2) = p_const_tpl(inp, el.after)?;
    let (offset, p3) = p_const_tpl(inp, p2)?;
    let (size, p4) = p_const_tpl(inp, p3)?;
    let p5 = close_tag(inp, p4, "varnode_tpl".as_bytes())?;
    Ok((VarNodeTemplate { space, offset, size }, p5))
}

pub open spec fn sp_handle_tpl(s: Seq<u8>, pos: int) -> Option<(HandleTemplateV, int)> {
    match sp_elem_open(s, pos) {
        Some((name, attrs, sc, p1)) => if name == lit_bytes("handle_tpl") && !sc {
            match sp_const_tpl(s, p1) {
                Some((space, p2)) => match sp_const_tpl(s, p2) {
                    Some((size, p3)) => match sp_const_tpl(s, p3) {
                        Some((ptrspace, p4)) => match sp_const_tpl(s, p4) {
                            Some((ptroffset, p5)) => match sp_const_tpl(s, p5) {
                                Some((ptrsize, p6)) => match sp_const_tpl(s, p6) {
                                    Some((temp_space, p7)) => match sp_const_tpl(s, p7) {
                                        Some((temp_offset, p8)) => match sp_close_tag(
                                            s,
                                            p8,
                                            lit_bytes("handle_tpl"),
                                        ) {
                                            Some(p9) => Some(
                                                (
                                                    HandleTemplateV {
                                                        space,
                                                        size,
                                                        ptrspace,
                                                        ptroffset,
                                                        ptrsize,
                                                        temp_space,
                                                        temp_offset,
                                                    },
                                                    p9,
                                                ),
                                            ),
                                            None => None,
                                        },
                                        None => None,
                                    },
                                    None => None,
                                },
                                None => None,
                            },
                            None => None,
                        },
                        None => None,
                    },
                    None => None,
                },
                None => None,
            }
        } else {
            None
        },
        None => None,
    }
}

pub fn p_handle_tpl(inp: &[u8], pos: usize) -> (r: Result<(HandleTemplate, usize), ParseError>)
    requires
        pos <= inp@.len(),
    ensures
        parsed(r, sp_handle_tpl(inp@, pos as int), pos as int, inp@.len() as int),
{
    let el = elem_open(inp, pos)?;
    if !(kw_at(inp, el.ns, el.ne, "handle_tpl".as_bytes()) && !el.self_closed) {
        return Err(ParseError::malformed(el.ns));
    }
    let (space, p2) = p_const_tpl(inp, el.after)?;
    let (size, p3) = p_const_tpl(inp, p2)?;
    let (ptrspace, p4) = p_const_tpl(inp, p3)?;
    let (ptroffset, p5) = p_const_tpl(inp, p4)?;
    let (ptrsize, p6) = p_const_tpl(inp, p5)?;
    let (temp_space, p7) = p_const_tpl(inp, p6)?;
    let (temp_offset, p8) = p_const_tpl(inp, p7)?;
    let p9 = close_tag(inp, p8, "handle_tpl".as_bytes())?;
    Ok(
        (
            HandleTemplate { space, size, ptrspace, ptroffset, ptrsize, temp_space, temp_offset },
            p9,
        ),
    )
}

// ---------------------------------------------------------------------
// Operation templates
// ---------------------------------------------------------------------

/// The pcode opcode named by a `code` attribute value.
pub open spec fn opcode_of(v: Seq<u8>) -> Option<OperationCode> {
    if v == lit_bytes("BLANK") {
        Some(OperationCode::Blank)
    } else if v == lit_bytes("COPY") {
        Some(OperationCode::Copy)
    } else if v == lit_bytes("LOAD") {
        Some(OperationCode::Load)
    } else if v == lit_bytes("STORE") {
        Some(OperationCode::Store)
    } else if v == lit_bytes("BRANCH") {
        Some(OperationCode::Branch)
    } else if v == lit_bytes("CBRANCH") {
        Some(OperationCode::ConditionalBranch)
    } else if v == lit_bytes("BRANCHIND") {
        Some(OperationCode::BranchIndirect)
    } else if v == lit_bytes("CALL") {
        Some(OperationCode::Call)
    } else if v == lit_bytes("CALLIND") {
        Some(OperationCode::CallIndirect)
    } else if v == lit_bytes("CALLOTHER") {
        Some(OperationCode::CallOther)
    } else if v == lit_bytes("RETURN") {
        Some(OperationCode::Return)
    } else if v == lit_bytes("INT_EQUAL") {
        Some(OperationCode::IntegerEqual)
    } else if v == lit_bytes("INT_NOTEQUAL") {
        Some(OperationCode::IntegerNotEqual)
    } else if v == lit_bytes("INT_SLESS") {
        Some(OperationCode::IntegerSignedLessThan)
    } else if v == lit_bytes("INT_SLESSEQUAL") {
        Some(OperationCode::IntegerSignedLessThanOrEqual)
    } else if v == lit_bytes("INT_LESS") {
        Some(OperationCode::IntegerUnsignedLessThan)
    } else if v == lit_bytes("INT_LESSEQUAL") {
        Some(OperationCode::IntegerUnsignedLessThanOrEqual)
    } else if v == lit_bytes("INT_ZEXT") {
        Some(OperationCode::IntegerZeroExtend)
    } else if v == lit_bytes("INT_SEXT") {
        Some(OperationCode::IntegerSignExtend)
    } else if v == lit_bytes("INT_ADD") {
        Some(OperationCode::IntegerAdd)
    } else if v == lit_bytes("INT_SUB") {
        Some(OperationCode::IntegerSubtract)
    } else if v == lit_bytes("INT_CARRY") {
        Some(OperationCode::IntegerCarry)
    } else if v == lit_bytes("INT_SCARRY") {
        Some(OperationCode::IntegerSignedCarry)
    } else if v == lit_bytes("INT_SBORROW") {
        Some(OperationCode::IntegerSignedBorrow)
    } else if v == lit_bytes("INT_2COMP") {
        Some(OperationCode::IntegerTwosCompliment)
    } else if v == lit_bytes("INT_NEGATE") {
        Some(OperationCode::IntegerNegate)
    } else if v == lit_bytes("INT_XOR") {
        Some(OperationCode::IntegerXor)
    } else if v == lit_bytes("INT_AND") {
        Some(OperationCode::IntegerAnd)
    } else if v == lit_bytes("INT_OR") {
        Some(OperationCode::IntegerOr)
    } else if v == lit_bytes("INT_LEFT") {
        Some(OperationCode::IntegerLeftShift)
    } else if v == lit_bytes("INT_RIGHT") {
        Some(OperationCode::IntegerRightShift)
    } else if v == lit_bytes("INT_SRIGHT") {
        Some(OperationCode::IntegerSignedRightShift)
    } else if v == lit_bytes("INT_MULT") {
        Some(OperationCode::IntegerMultiply)
    } else if v == lit_bytes("INT_DIV") {
        Some(OperationCode::IntegerDivide)
    } else if v == lit_bytes("INT_SDIV") {
        Some(OperationCode::IntegerSignedDivide)
    } else if v == lit_bytes("INT_REM") {
        Some(OperationCode::IntegerRemainder)
    } else if v == lit_bytes("INT_SREM") {
        Some(OperationCode::IntegerSignedRemainder)
    } else if v == lit_bytes("BOOL_NEGATE") {
        Some(OperationCode::BooleanNegate)
    } else if v == lit_bytes("BOOL_XOR") {
        Some(OperationCode::BooleanXor)
    } else if v == lit_bytes("BOOL_AND") {
        Some(OperationCode::BooleanAnd)
    } else if v == lit_bytes("BOOL_OR") {
        Some(OperationCode::BooleanOr)
    } else if v == lit_bytes("FLOAT_EQUAL") {
        Some(OperationCode::FloatEqual)
    } else if v == lit_bytes("FLOAT_NOTEQUAL") {
        Some(OperationCode::FloatNotEqual)
    } else if v == lit_bytes("FLOAT_LESS") {
        Some(OperationCode::FloatLessThan)
    } else if v == lit_bytes("FLOAT_LESSEQUAL") {
        Some(OperationCode::FloatLessThanOrEqual)
    } else if v == lit_bytes("UNUSED1") {
        Some(OperationCode::Unused1)
    } else if v == lit_bytes("FLOAT_NAN") {
        Some(OperationCode::FloatNotANumber)
    } else if v == lit_bytes("FLOAT_ADD") {
        Some(OperationCode::FloatAdd)
    } else if v == lit_bytes("FLOAT_DIV") {
        Some(OperationCode::FloatDivide)
    } else if v == lit_bytes("FLOAT_MULT") {
        Some(OperationCode::FloatMultiply)
    } else if v == lit_bytes("FLOAT_SUB") {
        Some(OperationCode::FloatSubtract)
    } else if v == lit_bytes("FLOAT_NEG") {
        Some(OperationCode::FloatNegate)
    } else if v == lit_bytes("FLOAT_ABS") {
        Some(OperationCode::FloatAbsoluteValue)
    } else if v == lit_bytes("FLOAT_SQRT") {
        Some(OperationCode::FloatSquareRoot)
    } else if v == lit_bytes("INT2FLOAT") {
        Some(OperationCode::IntegerToFloat)
    } else if v == lit_bytes("FLOAT2FLOAT") {
        Some(OperationCode::FloatToFloat)
    } else if v == lit_bytes("TRUNC") {
        Some(OperationCode::Truncate)
    } else if v == lit_bytes("CEIL") {
        Some(OperationCode::Ceiling)
    } else if v == lit_bytes("FLOOR") {
        Some(OperationCode::Floor)
    } else if v == lit_bytes("ROUND") {
        Some(OperationCode::Round)
    } else if v == lit_bytes("BUILD") {
        Some(OperationCode::Build)
    } else if v == lit_bytes("DELAY_SLOT") {
        Some(OperationCode::DelaySlot)
    } else if v == lit_bytes("PIECE") {
        Some(OperationCode::Piece)
    } else if v == lit_bytes("SUBPIECE") {
        Some(OperationCode::Subpiece)
    } else if v == lit_bytes("CAST") {
        Some(OperationCode::Cast)
    } else if v == lit_bytes("LABEL") {
        Some(OperationCode::Label)
    } else if v == lit_bytes("CROSSBUILD") {
        Some(OperationCode::CrossBuild)
    } else if v == lit_bytes("SEGMENTOP") {
        Some(OperationCode::SegmentOp)
    } else if v == lit_bytes("CPOOLREF") {
        Some(OperationCode::CpoolRef)
    } else if v == lit_bytes("NEW") {
        Some(OperationCode::New)
    } else if v == lit_bytes("INSERT") {
        Some(OperationCode::Insert)
    } else if v == lit_bytes("EXTRACT") {
        Some(OperationCode::Extract)
    } else if v == lit_bytes("POPCOUNT") {
        Some(OperationCode::PopCount)
    } else if v == lit_bytes("LZCOUNT") {
        Some(OperationCode::LzCount)
    } else {
        None
    }
}

/// Map a `code` attribute value to its opcode.
#[verifier::rlimit(100)]
pub fn opcode_from(value: &[u8]) -> (r: Option<OperationCode>)
    ensures
        r == opcode_of(value@),
{
    let n = value.len();
    proof {
        assert(value@.subrange(0, value@.len() as int) =~= value@);
    }
    if kw_at(value, 0, n, "BLANK".as_bytes()) {
        Some(OperationCode::Blank)
    } else if kw_at(value, 0, n, "COPY".as_bytes()) {
        Some(OperationCode::Copy)
    } else if kw_at(value, 0, n, "LOAD".as_bytes()) {
        Some(OperationCode::Load)
    } else if kw_at(value, 0, n, "STORE".as_bytes()) {
        Some(OperationCode::Store)
    } else if kw_at(value, 0, n, "BRANCH".as_bytes()) {
        Some(OperationCode::Branch)
    } else if kw_at(value, 0, n, "CBRANCH".as_bytes()) {
        Some(OperationCode::ConditionalBranch)
    } else if kw_at(value, 0, n, "BRANCHIND".as_bytes()) {
        Some(OperationCode::BranchIndirect)
    } else if kw_at(value, 0, n, "CALL".as_bytes()) {
        Some(OperationCode::Call)
    } else if kw_at(value, 0, n, "CALLIND".as_bytes()) {
        Some(OperationCode::CallIndirect)
    } else if kw_at(value, 0, n, "CALLOTHER".as_bytes()) {
        Some(OperationCode::CallOther)
    } else if kw_at(value, 0, n, "RETURN".as_bytes()) {
        Some(OperationCode::Return)
    } else if kw_at(value, 0, n, "INT_EQUAL".as_bytes()) {
        Some(OperationCode::IntegerEqual)
    } else if kw_at(value, 0, n, "INT_NOTEQUAL".as_bytes()) {
        Some(OperationCode::IntegerNotEqual)
    } else if kw_at(value, 0, n, "INT_SLESS".as_bytes()) {
        Some(OperationCode::IntegerSignedLessThan)
    } else if kw_at(value, 0, n, "INT_SLESSEQUAL".as_bytes()) {
        Some(OperationCode::IntegerSignedLessThanOrEqual)
    } else if kw_at(value, 0, n, "INT_LESS".as_bytes()) {
        Some(OperationCode::IntegerUnsignedLessThan)
    } else if kw_at(value, 0, n, "INT_LESSEQUAL".as_bytes()) {
        Some(OperationCode::IntegerUnsignedLessThanOrEqual)
    } else if kw_at(value, 0, n, "INT_ZEXT".as_bytes()) {
        Some(OperationCode::IntegerZeroExtend)
    } else if kw_at(value, 0, n, "INT_SEXT".as_bytes()) {
        Some(OperationCode::IntegerSignExtend)
    } else if kw_at(value, 0, n, "INT_ADD".as_bytes()) {
        Some(OperationCode::IntegerAdd)
    } else if kw_at(value, 0, n, "INT_SUB".as_bytes()) {
        Some(OperationCode::IntegerSubtract)
    } else if kw_at(value, 0, n, "INT_CARRY".as_bytes()) {
        Some(OperationCode::IntegerCarry)
    } else if kw_at(value, 0, n, "INT_SCARRY".as_bytes()) {
        Some(OperationCode::IntegerSignedCarry)
    } else if kw_at(value, 0, n, "INT_SBORROW".as_bytes()) {
        Some(OperationCode::IntegerSignedBorrow)
    } else if kw_at(value, 0, n, "INT_2COMP".as_bytes()) {
        Some(OperationCode::IntegerTwosCompliment)
    } else if kw_at(value, 0, n, "INT_NEGATE".as_bytes()) {
        Some(OperationCode::IntegerNegate)
    } else if kw_at(value, 0, n, "INT_XOR".as_bytes()) {
        Some(OperationCode::IntegerXor)
    } else if kw_at(value, 0, n, "INT_AND".as_bytes()) {
        Some(OperationCode::IntegerAnd)
    } else if kw_at(value, 0, n, "INT_OR".as_bytes()) {
        Some(OperationCode::IntegerOr)
    } else if kw_at(value, 0, n, "INT_LEFT".as_bytes()) {
        Some(OperationCode::IntegerLeftShift)
    } else if kw_at(value, 0, n, "INT_RIGHT".as_bytes()) {
        Some(OperationCode::IntegerRightShift)
    } else if kw_at(value, 0, n, "INT_SRIGHT".as_bytes()) {
        Some(OperationCode::IntegerSignedRightShift)
    } else if kw_at(value, 0, n, "INT_MULT".as_bytes()) {
        Some(OperationCode::IntegerMultiply)
    } else if kw_at(value, 0, n, "INT_DIV".as_bytes()) {
        Some(OperationCode::IntegerDivide)
    } else if kw_at(value, 0, n, "INT_SDIV".as_bytes()) {
        Some(OperationCode::IntegerSignedDivide)
    } else if kw_at(value, 0, n, "INT_REM".as_bytes()) {
        Some(OperationCode::IntegerRemainder)
    } else if kw_at(value, 0, n, "INT_SREM".as_bytes()) {
        Some(OperationCode::IntegerSignedRemainder)
    } else if kw_at(value, 0, n, "BOOL_NEGATE".as_bytes()) {
        Some(OperationCode::BooleanNegate)
    } else if kw_at(value, 0, n, "BOOL_XOR".as_bytes()) {
        Some(OperationCode::BooleanXor)
    } else if kw_at(value, 0, n, "BOOL_AND".as_bytes()) {
        Some(OperationCode::BooleanAnd)
    } else if kw_at(value, 0, n, "BOOL_OR".as_bytes()) {
        Some(OperationCode::BooleanOr)
    } else if kw_at(value, 0, n, "FLOAT_EQUAL".as_bytes()) {
        Some(OperationCode::FloatEqual)
    } else if kw_at(value, 0, n, "FLOAT_NOTEQUAL".as_bytes()) {
        Some(OperationCode::FloatNotEqual)
    } else if kw_at(value, 0, n, "FLOAT_LESS".as_bytes()) {
        Some(OperationCode::FloatLessThan)
    } else if kw_at(value, 0, n, "FLOAT_LESSEQUAL".as_bytes()) {
        Some(OperationCode::FloatLessThanOrEqual)
    } else if kw_at(value, 0, n, "UNUSED1".as_bytes()) {
        Some(OperationCode::Unused1)
    } else if kw_at(value, 0, n, "FLOAT_NAN".as_bytes()) {
        Some(OperationCode::FloatNotANumber)
    } else if kw_at(value, 0, n, "FLOAT_ADD".as_bytes()) {
        Some(OperationCode::FloatAdd)
    } else if kw_at(value, 0, n, "FLOAT_DIV".as_bytes()) {
        Some(OperationCode::FloatDivide)
    } else if kw_at(value, 0, n, "FLOAT_MULT".as_bytes()) {
        Some(OperationCode::FloatMultiply)
    } else if kw_at(value, 0, n, "FLOAT_SUB".as_bytes()) {
        Some(OperationCode::FloatSubtract)
    } else if kw_at(value, 0, n, "FLOAT_NEG".as_bytes()) {
        Some(OperationCode::FloatNegate)
    } else if kw_at(value, 0, n, "FLOAT_ABS".as_bytes()) {
        Some(OperationCode::FloatAbsoluteValue)
    } else if kw_at(value, 0, n, "FLOAT_SQRT".as_bytes()) {
        Some(OperationCode::FloatSquareRoot)
    } else if kw_at(value, 0, n, "INT2FLOAT".as_bytes()) {
        Some(OperationCode::IntegerToFloat)
    } else if kw_at(value, 0, n, "FLOAT2FLOAT".as_bytes()) {
        Some(OperationCode::FloatToFloat)
    } else if kw_at(value, 0, n, "TRUNC".as_bytes()) {
        Some(OperationCode::Truncate)
    } else if kw_at(value, 0, n, "CEIL".as_bytes()) {
        Some(OperationCode::Ceiling)
    } else if kw_at(value, 0, n, "FLOOR".as_bytes()) {
        Some(OperationCode::Floor)
    } else if kw_at(value, 0, n, "ROUND".as_bytes()) {
        Some(OperationCode::Round)
    } else if kw_at(value, 0, n, "BUILD".as_bytes()) {
        Some(OperationCode::Build)
    } else if kw_at(value, 0, n, "DELAY_SLOT".as_bytes()) {
        Some(OperationCode::DelaySlot)
    } else if kw_at(value, 0, n, "PIECE".as_bytes()) {
        Some(OperationCode::Piece)
    } else if kw_at(value, 0, n, "SUBPIECE".as_bytes()) {
        Some(OperationCode::Subpiece)
    } else if kw_at(value, 0, n, "CAST".as_bytes()) {
        Some(OperationCode::Cast)
    } else if kw_at(value, 0, n, "LABEL".as_bytes()) {
        Some(OperationCode::Label)
    } else if kw_at(value, 0, n, "CROSSBUILD".as_bytes()) {
        Some(OperationCode::CrossBuild)
    } else if kw_at(value, 0, n, "SEGMENTOP".as_bytes()) {
        Some(OperationCode::SegmentOp)
    } else if kw_at(value, 0, n, "CPOOLREF".as_bytes()) {
        Some(OperationCode::CpoolRef)
    } else if kw_at(value, 0, n, "NEW".as_bytes()) {
        Some(OperationCode::New)
    } else if kw_at(value, 0, n, "INSERT".as_bytes()) {
        Some(OperationCode::Insert)
    } else if kw_at(value, 0, n, "EXTRACT".as_bytes()) {
        Some(OperationCode::Extract)
    } else if kw_at(value, 0, n, "POPCOUNT".as_bytes()) {
        Some(OperationCode::PopCount)
    } else if kw_at(value, 0, n, "LZCOUNT".as_bytes()) {
        Some(OperationCode::LzCount)
    } else {
        None
    }
}

pub open spec fn sp_op_output(s: Seq<u8>, pos: int) -> Option<(OperationTemplateOutputV, int)> {
    match sp_peek_tag(s, pos) {
        Some((false, name, _)) => if name == lit_bytes("null") {
            match sp_marker(s, pos, lit_bytes("null")) {
                Some(p) => Some((OperationTemplateOutputV::Null, p)),
                None => None,
            }
        } else if name == lit_bytes("varnode_tpl") {
            match sp_varnode_tpl(s, pos) {
                Some((v, p)) => Some((OperationTemplateOutputV::Output(v), p)),
                None => None,
            }
        } else {
            None
        },
        _ => None,
    }
}

pub fn p_op_output(inp: &[u8], pos: usize) -> (r: Result<
    (OperationTemplateOutput, usize),
    ParseError,
>)
    requires
        pos <= inp@.len(),
    ensures
        parsed(r, sp_op_output(inp@, pos as int), pos as int, inp@.len() as int),
{
    let pk = peek_tag(inp, pos)?;
    if pk.is_close {
        return Err(ParseError::malformed(pk.ns));
    }
    if kw_at(inp, pk.ns, pk.ne, "null".as_bytes()) {
        let p = p_marker(inp, pos, "null".as_bytes())?;
        Ok((OperationTemplateOutput::Null, p))
    } else if kw_at(inp, pk.ns, pk.ne, "varnode_tpl".as_bytes()) {
        let (v, p) = p_varnode_tpl(inp, pos)?;
        Ok((OperationTemplateOutput::Output(v), p))
    } else {
        Err(ParseError::malformed(pk.ns))
    }
}

/// Zero or more varnode templates.
pub open spec fn sp_varnode_list(s: Seq<u8>, pos: int) -> Option<(Seq<VarNodeTemplateV>, int)>
    decreases s.len() - pos,
{
    match sp_peek_tag(s, pos) {
        Some((false, name, _)) => if name == lit_bytes("varnode_tpl") {
            match sp_varnode_tpl(s, pos) {
                Some((x, p2)) => if pos < p2 <= s.len() {
                    match sp_varnode_list(s, p2) {
                        Some((rest, end)) => Some((seq![x] + rest, end)),
                        None => None,
                    }
                } else {
                    None
                },
                None => None,
            }
        } else {
            Some((Seq::empty(), pos))
        },
        _ => Some((Seq::empty(), pos)),
    }
}

pub fn p_varnode_list(inp: &[u8], pos: usize) -> (r: Result<
    (Vec<VarNodeTemplate>, usize),
    ParseError,
>)
    requires
        pos <= inp@.len(),
    ensures
        match r {
            Ok((items, p)) => sp_varnode_list(inp@, pos as int) == Some(
                (vec_view(items@), p as int),
            ) && pos <= p <= inp@.len(),
            Err(_) => sp_varnode_list(inp@, pos as int) is None,
        },
{
    let mut items: Vec<VarNodeTemplate> = Vec::new();
    let mut cur: usize = pos;
    loop
        invariant
            pos <= cur <= inp@.len(),
            sp_varnode_list(inp@, pos as int) == match sp_varnode_list(inp@, cur as int) {
                Some((rest, end)) => Some::<(Seq<VarNodeTemplateV>, int)>(
                    (vec_view(items@) + rest, end),
                ),
                None => None::<(Seq<VarNodeTemplateV>, int)>,
            },
        decreases inp@.len() - cur,
    {
        let stop: bool = match peek_tag(inp, cur) {
            Ok(pk) => pk.is_close || !kw_at(inp, pk.ns, pk.ne, "varnode_tpl".as_bytes()),
            Err(_) => true,
        };
        if stop {
            proof {
                assert(vec_view(items@) + Seq::<VarNodeTemplateV>::empty() =~= vec_view(items@));
            }
            return Ok((items, cur));
        }
        let (x, p2) = p_varnode_tpl(inp, cur)?;
        let ghost pre = items@;
        items.push(x);
        cur = p2;
        proof {
            assert(vec_view(items@) =~= vec_view(pre) + seq![x@]);
            match sp_varnode_list(inp@, cur as int) {
                Some((rest, end)) => {
                    assert(vec_view(pre) + (seq![x@] + rest) =~= (vec_view(pre) + seq![x@])
                        + rest);
                },
                None => {},
            }
        }
    }
}

pub open spec fn sp_op_tpl(s: Seq<u8>, pos: int) -> Option<(OperationTemplateV, int)> {
    match sp_elem_open(s, pos) {
        Some((name, attrs, sc, p1)) => if name == lit_bytes("op_tpl") && !sc {
            match attr_find(attrs, lit_bytes("code")) {
                Some(cv) => match opcode_of(cv) {
                    Some(code) => match sp_op_output(s, p1) {
                        Some((output, p2)) => match sp_varnode_list(s, p2) {
                            Some((input, p3)) => match sp_close_tag(s, p3, lit_bytes("op_tpl")) {
                                Some(p4) => Some(
                                    (OperationTemplateV { code, output, input }, p4),
                                ),
                                None => None,
                            },
                            None => None,
                        },
                        None => None,
                    },
                    None => None,
                },
                None => None,
            }
        } else {
            None
        },
        None => None,
    }
}

pub fn p_op_tpl(inp: &[u8], pos: usize) -> (r: Result<(OperationTemplate, usize), ParseError>)
    requires
        pos <= inp@.len(),
    ensures
        parsed(r, sp_op_tpl(inp@, pos as int), pos as int, inp@.len() as int),
{
    let el = elem_open(inp, pos)?;
    if !(kw_at(inp, el.ns, el.ne, "op_tpl".as_bytes()) && !el.self_closed) {
        return Err(ParseError::malformed(el.ns));
    }
    let ci = match find_attr(&el.attrs, "code".as_bytes()) {
        Some(i) => i,
        None => {
            return Err(ParseError::malformed(el.ns));
        },
    };
    let code = match opcode_from(el.attrs[ci].value.as_slice()) {
        Some(c) => c,
        None => {
            return Err(ParseError::malformed(el.attrs[ci].value_pos));
        },
    };
    let (output, p2) = p_op_output(inp, el.after)?;
    let (input, p3) = p_varnode_list(inp, p2)?;
    let p4 = close_tag(inp, p3, "op_tpl".as_bytes())?;
    Ok((OperationTemplate { code, output, input }, p4))
}

/// Zero or more operation templates.
pub open spec fn sp_op_tpl_list(s: Seq<u8>, pos: int) -> Option<(Seq<OperationTemplateV>, int)>
    decreases s.len() - pos,
{
    match sp_peek_tag(s, pos) {
        Some((false, name, _)) => if name == lit_bytes("op_tpl") {
            match sp_op_tpl(s, pos) {
                Some((x, p2)) => if pos < p2 <= s.len() {
                    match sp_op_tpl_list(s, p2) {
                        Some((rest, end)) => Some((seq![x] + rest, end)),
                        None => None,
                    }
                } else {
                    None
                },
                None => None,
            }
        } else {
            Some((Seq::empty(), pos))
        },
        _ => Some((Seq::empty(), pos)),
    }
}

pub fn p_op_tpl_list(inp: &[u8], pos: usize) -> (r: Result<
    (Vec<OperationTemplate>, usize),
    ParseError,
>)
    requires
        pos <= inp@.len(),
    ensures
        match r {
            Ok((items, p)) => sp_op_tpl_list(inp@, pos as int) == Some(
                (vec_view(items@), p as int),
            ) && pos <= p <= inp@.len(),
            Err(_) => sp_op_tpl_list(inp@, pos as int) is None,
        },
{
    let mut items: Vec<OperationTemplate> = Vec::new();
    let mut cur: usize = pos;
    loop
        invariant
            pos <= cur <= inp@.len(),
            sp_op_tpl_list(inp@, pos as int) == match sp_op_tpl_list(inp@, cur as int) {
                Some((rest, end)) => Some::<(Seq<OperationTemplateV>, int)>(
                    (vec_view(items@) + rest, end),
                ),
                None => None::<(Seq<OperationTemplateV>, int)>,
            },
        decreases inp@.len() - cur,
    {
        let stop: bool = match peek_tag(inp, cur) {
            Ok(pk) => pk.is_close || !kw_at(inp, pk.ns, pk.ne, "op_tpl".as_bytes()),
            Err(_) => true,
        };
        if stop {
            proof {
                assert(vec_view(items@) + Seq::<OperationTemplateV>::empty() =~= vec_view(items@));
            }
            return Ok((items, cur));
        }
        let (x, p2) = p_op_tpl(inp, cur)?;
        let ghost pre = items@;
        items.push(x);
        cur = p2;
        proof {
            assert(vec_view(items@) =~= vec_view(pre) + seq![x@]);
            match sp_op_tpl_list(inp@, cur as int) {
                Some((rest, end)) => {
                    assert(vec_view(pre) + (seq![x@] + rest) =~= (vec_view(pre) + seq![x@])
                        + rest);
                },
                None => {},
            }
        }
    }
}

// ---------------------------------------------------------------------
// Constructor templates
// ---------------------------------------------------------------------

pub open spec fn sp_ctpl_result(s: Seq<u8>, pos: int) -> Option<(ConstructorTemplateResultV, int)> {
    match sp_peek_tag(s, pos) {
        Some((false, name, _)) => if name == lit_bytes("null") {
            match sp_marker(s, pos, lit_bytes("null")) {
                Some(p) => Some((ConstructorTemplateResultV::Null, p)),
                None => None,
            }
        } else if name == lit_bytes("handle_tpl") {
            match sp_handle_tpl(s, pos) {
                Some((h, p)) => Some((ConstructorTemplateResultV::Handle(h), p)),
                None => None,
            }
        } else {
            None
        },
        _ => None,
    }
}

pub fn p_ctpl_result(inp: &[u8], pos: usize) -> (r: Result<
    (ConstructorTemplateResult, usize),
    ParseError,
>)
    requires
        pos <= inp@.len(),
    ensures
        parsed(r, sp_ctpl_result(inp@, pos as int), pos as int, inp@.len() as int),
{
    let pk = peek_tag(inp, pos)?;
    if pk.is_close {
        return Err(ParseError::malformed(pk.ns));
    }
    if kw_at(inp, pk.ns, pk.ne, "null".as_bytes()) {
        let p = p_marker(inp, pos, "null".as_bytes())?;
        Ok((ConstructorTemplateResult::Null, p))
    } else if kw_at(inp, pk.ns, pk.ne, "handle_tpl".as_bytes()) {
        let (h, p) = p_handle_tpl(inp, pos)?;
        Ok((ConstructorTemplateResult::Handle(h), p))
    } else {
        Err(ParseError::malformed(pk.ns))
    }
}

pub open spec fn sp_construct_tpl(s: Seq<u8>, pos: int) -> Option<(ConstructorTemplateV, int)> {
    match sp_elem_open(s, pos) {
        Some((name, attrs, sc, p1)) => if name == lit_bytes("construct_tpl") && !sc {
            match (
                opt_dec_attr(attrs, lit_bytes("section")),
                opt_dec_attr(attrs, lit_bytes("delay")),
                opt_dec_attr(attrs, lit_bytes("labels")),
            ) {
                (Some(section), Some(delay), Some(numlabels)) => match sp_ctpl_result(s, p1) {
                    Some((result, p2)) => match sp_op_tpl_list(s, p2) {
                        Some((ops, p3)) => match sp_close_tag(s, p3, lit_bytes("construct_tpl")) {
                            Some(p4) => Some(
                                (
                                    ConstructorTemplateV {
                                        section,
                                        delay,
                                        numlabels,
                                        result,
                                        vec: ops,
                                    },
                                    p4,
                                ),
                            ),
                            None => None,
                        },
                        None => None,
                    },
                    None => None,
                },
                _ => None,
            }
        } else {
            None
        },
        None => None,
    }
}

pub fn p_construct_tpl(inp: &[u8], pos: usize) -> (r: Result<
    (ConstructorTemplate, usize),
    ParseError,
>)
    requires
        pos <= inp@.len(),
    ensures
        parsed(r, sp_construct_tpl(inp@, pos as int), pos as int, inp@.len() as int),
{
    let el = elem_open(inp, pos)?;
    if !(kw_at(inp, el.ns, el.ne, "construct_tpl".as_bytes()) && !el.self_closed) {
        return Err(ParseError::malformed(el.ns));
    }
    let section = opt_dec(&el.attrs, "section".as_bytes())?;
    let delay = opt_dec(&el.attrs, "delay".as_bytes())?;
    let numlabels = opt_dec(&el.attrs, "labels".as_bytes())?;
    let (result, p2) = p_ctpl_result(inp, el.after)?;
    let (ops, p3) = p_op_tpl_list(inp, p2)?;
    let p4 = close_tag(inp, p3, "construct_tpl".as_bytes())?;
    Ok((ConstructorTemplate { section, delay, numlabels, result, vec: ops }, p4))
}

/// Zero or more constructor templates.
pub open spec fn sp_construct_tpl_list(s: Seq<u8>, pos: int) -> Option<
    (Seq<ConstructorTemplateV>, int),
>
    decreases s.len() - pos,
{
    match sp_peek_tag(s, pos) {
        Some((false, name, _)) => if name == lit_bytes("construct_tpl") {
            match sp_construct_tpl(s, pos) {
                Some((x, p2)) => if pos < p2 <= s.len() {
                    match sp_construct_tpl_list(s, p2) {
                        Some((rest, end)) => Some((seq![x] + rest, end)),
                        None => None,
                    }
                } else {
                    None
                },
                None => None,
            }
        } else {
            Some((Seq::empty(), pos))
        },
        _ => Some((Seq::empty(), pos)),
    }
}

pub fn p_construct_tpl_list(inp: &[u8], pos: usize) -> (r: Result<
    (Vec<ConstructorTemplate>, usize),
    ParseError,
>)
    requires
        pos <= inp@.len(),
    ensures
        match r {
            Ok((items, p)) => sp_construct_tpl_list(inp@, pos as int) == Some(
                (vec_view(items@), p as int),
            ) && pos <= p <= inp@.len(),
            Err(_) => sp_construct_tpl_list(inp@, pos as int) is None,
        },
{
    let mut items: Vec<ConstructorTemplate> = Vec::new();
    let mut cur: usize = pos;
    loop
        invariant
            pos <= cur <= inp@.len(),
            sp_construct_tpl_list(inp@, pos as int) == match sp_construct_tpl_list(
                inp@,
                cur as int,
            ) {
                Some((rest, end)) => Some::<(Seq<ConstructorTemplateV>, int)>(
                    (vec_view(items@) + rest, end),
                ),
                None => None::<(Seq<ConstructorTemplateV>, int)>,
            },
        decreases inp@.len() - cur,
    {
        let stop: bool = match peek_tag(inp, cur) {
            Ok(pk) => pk.is_close || !kw_at(inp, pk.ns, pk.ne, "construct_tpl".as_bytes()),
            Err(_) => true,
        };
        if stop {
            proof {
                assert(vec_view(items@) + Seq::<ConstructorTemplateV>::empty() =~= vec_view(
                    items@,
                ));
            }
            return Ok((items, cur));
        }
        let (x, p2) = p_construct_tpl(inp, cur)?;
        let ghost pre = items@;
        items.push(x);
        cur = p2;
        proof {
            assert(vec_view(items@) =~= vec_view(pre) + seq![x@]);
            match sp_construct_tpl_list(inp@, cur as int) {
                Some((rest, end)) => {
                    assert(vec_view(pre) + (seq![x@] + rest) =~= (vec_view(pre) + seq![x@])
                        + rest);
                },
                None => {},
            }
        }
    }
}

} // verus!
