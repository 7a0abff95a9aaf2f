//! Parsers for bit patterns and the instruction-decoding decision tree.
//!
//! A decision node owns a list of (constructor id, disjoint pattern)
//! pairs and a list of child decision nodes; terminal nodes have no
//! children.  The tree nests to a depth bounded only by the input, so
//! both the grammar specification and the parser recurse on a strictly
//! shrinking remainder of the buffer.

use vstd::prelude::*;
use crate::attrs::{dec_attr, bool_attr, hex_attr, req_bool, req_dec, req_hex};
use crate::error::ParseError;
use crate::model::{
    CombinePattern, CombinePatternV, ContextPattern, ContextPatternV, DecisionNode, DecisionNodeV,
    DecisionNodePair, DecisionNodePairV, DisjointPatternType, DisjointPatternTypeV,
    InstructionPattern, InstructionPatternV, PatternBlock, PatternBlockV, PatternBlockWord,
    PatternBlockWordV, decision_v, vec_view,
};
use crate::scan::{
    close_tag, elem_open, kw_at, lit_bytes, parsed, peek_tag, sp_close_tag, sp_elem_open,
    sp_peek_tag,
};

verus! {

broadcast use vstd::seq::group_seq_axioms, vstd::std_specs::vec::group_vec_axioms;

// ---------------------------------------------------------------------
// Pattern blocks
// ---------------------------------------------------------------------

pub open spec fn sp_mask_word(s: Seq<u8>, pos: int) -> Option<(PatternBlockWordV, int)> {
    match sp_elem_open(s, pos) {
        Some((name, attrs, sc, p)) => if name == lit_bytes("mask_word") && sc {
            match (hex_attr(attrs, lit_bytes("mask")), hex_attr(attrs, lit_bytes("val"))) {
                (Some(mask), Some(val)) => Some((PatternBlockWordV { mask, val }, p)),
                _ => None,
            }
        } else {
            None
        },
        None => None,
    }
}

pub fn p_mask_word(inp: &[u8], pos: usize) -> (r: Result<(PatternBlockWord, usize), ParseError>)
    requires
        pos <= inp@.len(),
    ensures
        parsed(r, sp_mask_word(inp@, pos as int), pos as int, inp@.len() as int),
{
    let el = elem_open(inp, pos)?;
    if !(kw_at(inp, el.ns, el.ne, "mask_word".as_bytes()) && el.self_closed) {
        return Err(ParseError::malformed(el.ns));
    }
    let mask = req_hex(&el.attrs, "mask".as_bytes(), el.ns)?;
    let val = req_hex(&el.attrs, "val".as_bytes(), el.ns)?;
    Ok((PatternBlockWord { mask, val }, el.after))
}

/// Zero or more mask words.
pub open spec fn sp_mask_word_list(s: Seq<u8>, pos: int) -> Option<(Seq<PatternBlockWordV>, int)>
    decreases s.len() - pos,
{
    match sp_peek_tag(s, pos) {
        Some((false, name, _)) => if name == lit_bytes("mask_word") {
            match sp_mask_word(s, pos) {
                Some((x, p2)) => if pos < p2 <= s.len() {
                    match sp_mask_word_list(s, p2) {
                        Some((rest, end)) => Some((seq![x] + rest, end)),
                        None => None,
                    }
                } else {
                    None
                },
                None => None,
            }
        } else {
            Some((Seq::empty(), pos))
        },
        _ => Some((Seq::empty(), pos)),
    }
}

pub fn p_mask_word_list(inp: &[u8], pos: usize) -> (r: Result<
    (Vec<PatternBlockWord>, usize),
    ParseError,
>)
    requires
        pos <= inp@.len(),
    ensures
        match r {
            Ok((items, p)) => sp_mask_word_list(inp@, pos as int) == Some(
                (vec_view(items@), p as int),
            ) && pos <= p <= inp@.len(),
            Err(_) => sp_mask_word_list(inp@, pos as int) is None,
        },
{
    let mut items: Vec<PatternBlockWord> = Vec::new();
    let mut cur: usize = pos;
    loop
        invariant
            pos <= cur <= inp@.len(),
            sp_mask_word_list(inp@, pos as int) == match sp_mask_word_list(inp@, cur as int) {
                Some((rest, end)) => Some::<(Seq<PatternBlockWordV>, int)>(
                    (vec_view(items@) + rest, end),
                ),
                None => None::<(Seq<PatternBlockWordV>, int)>,
            },
        decreases inp@.len() - cur,
    {
        let stop: bool = match peek_tag(inp, cur) {
            Ok(pk) => pk.is_close || !kw_at(inp, pk.ns, pk.ne, "mask_word".as_bytes()),
            Err(_) => true,
        };
        if stop {
            proof {
                assert(vec_view(items@) + Seq::<PatternBlockWordV>::empty() =~= vec_view(
                    items@,
                ));
            }
            return Ok((items, cur));
        }
        let (x, p2) = p_mask_word(inp, cur)?;
        let ghost pre = items@;
        items.push(x);
        cur = p2;
        proof {
            assert(vec_view(items@) =~= vec_view(pre) + seq![x@]);
            match sp_mask_word_list(inp@, cur as int) {
                Some((rest, end)) => {
                    assert(vec_view(pre) + (seq![x@] + rest) =~= (vec_view(pre) + seq![x@])
                        + rest);
                },
                None => {},
            }
        }
    }
}

pub open spec fn sp_pat_block(s: Seq<u8>, pos: int) -> Option<(PatternBlockV, int)> {
    match sp_elem_open(s, pos) {
        Some((name, attrs, sc, p1)) => if name == lit_bytes("pat_block") && !sc {
            match (dec_attr(attrs, lit_bytes("offset")), dec_attr(attrs, lit_bytes("nonzero"))) {
                (Some(offset), Some(nonzero)) => match sp_mask_word_list(s, p1) {
                    Some((mask_vals, p2)) => match sp_close_tag(s, p2, lit_bytes("pat_block")) {
                        Some(p3) => Some((PatternBlockV { offset, nonzero, mask_vals }, p3)),
                        None => None,
                    },
                    None => None,
                },
                _ => None,
            }
        } else {
            None
        },
        None => None,
    }
}

pub fn p_pat_block(inp: &[u8], pos: usize) -> (r: Result<(PatternBlock, usize), ParseError>)
    requires
        pos <= inp@.len(),
    ensures
        parsed(r, sp_pat_block(inp@, pos as int), pos as int, inp@.len() as int),
{
    let el = elem_open(inp, pos)?;
    if !(kw_at(inp, el.ns, el.ne, "pat_block".as_bytes()) && !el.self_closed) {
        return Err(ParseError::malformed(el.ns));
    }
    let offset = req_dec(&el.attrs, "offset".as_bytes(), el.ns)?;
    let nonzero = req_dec(&el.attrs, "nonzero".as_bytes(), el.ns)?;
    let (mask_vals, p2) = p_mask_word_list(inp, el.after)?;
    let p3 = close_tag(inp, p2, "pat_block".as_bytes())?;
    Ok((PatternBlock { offset, nonzero, mask_vals }, p3))
}

// ---------------------------------------------------------------------
// Disjoint patterns
// ---------------------------------------------------------------------

pub open spec fn sp_instruct_pat(s: Seq<u8>, pos: int) -> Option<(InstructionPatternV, int)> {
    match sp_elem_open(s, pos) {
        Some((name, attrs, sc, p1)) => if name == lit_bytes("instruct_pat") && !sc {
            match sp_pat_block(s, p1) {
                Some((mask_value, p2)) => match sp_close_tag(s, p2, lit_bytes("instruct_pat")) {
                    Some(p3) => Some((InstructionPatternV { mask_value }, p3)),
                    None => None,
                },
                None => None,
            }
        } else {
            None
        },
        None => None,
    }
}

pub fn p_instruct_pat(inp: &[u8], pos: usize) -> (r: Result<
    (InstructionPattern, usize),
    ParseError,
>)
    requires
        pos <= inp@.len(),
    ensures
        parsed(r, sp_instruct_pat(inp@, pos as int), pos as int, inp@.len() as int),
{
    let el = elem_open(inp, pos)?;
    if !(kw_at(inp, el.ns, el.ne, "instruct_pat".as_bytes()) && !el.self_closed) {
        return Err(ParseError::malformed(el.ns));
    }
    let (mask_value, p2) = p_pat_block(inp, el.after)?;
    let p3 = close_tag(inp, p2, "instruct_pat".as_bytes())?;
    Ok((InstructionPattern { mask_value }, p3))
}

pub open spec fn sp_context_pat(s: Seq<u8>, pos: int) -> Option<(ContextPatternV, int)> {
    match sp_elem_open(s, pos) {
        Some((name, attrs, sc, p1)) => if name == lit_bytes("context_pat") && !sc {
            match sp_pat_block(s, p1) {
                Some((mask_value, p2)) => match sp_close_tag(s, p2, lit_bytes("context_pat")) {
                    Some(p3) => Some((ContextPatternV { mask_value }, p3)),
                    None => None,
                },
                None => None,
            }
        } else {
            None
        },
        None => None,
    }
}

pub fn p_context_pat(inp: &[u8], pos: usize) -> (r: Result<(ContextPattern, usize), ParseError>)
    requires
        pos <= inp@.len(),
    ensures
        parsed(r, sp_context_pat(inp@, pos as int), pos as int, inp@.len() as int),
{
    let el = elem_open(inp, pos)?;
    if !(kw_at(inp, el.ns, el.ne, "context_pat".as_bytes()) && !el.self_closed) {
        return Err(ParseError::malformed(el.ns));
    }
    let (mask_value, p2) = p_pat_block(inp, el.after)?;
    let p3 = close_tag(inp, p2, "context_pat".as_bytes())?;
    Ok((ContextPattern { mask_value }, p3))
}

pub open spec fn sp_combine_pat(s: Seq<u8>, pos: int) -> Option<(CombinePatternV, int)> {
    match sp_elem_open(s, pos) {
        Some((name, attrs, sc, p1)) => if name == lit_bytes("combine_pat") && !sc {
            match sp_context_pat(s, p1) {
                Some((context, p2)) => match sp_instruct_pat(s, p2) {
                    Some((instr, p3)) => match sp_close_tag(s, p3, lit_bytes("combine_pat")) {
                        Some(p4) => Some((CombinePatternV { context, instr }, p4)),
                        None => None,
                    },
                    None => None,
                },
                None => None,
            }
        } else {
            None
        },
        None => None,
    }
}

pub fn p_combine_pat(inp: &[u8], pos: usize) -> (r: Result<(CombinePattern, usize), ParseError>)
    requires
        pos <= inp@.len(),
    ensures
        parsed(r, sp_combine_pat(inp@, pos as int), pos as int, inp@.len() as int),
{
    let el = elem_open(inp, pos)?;
    if !(kw_at(inp, el.ns, el.ne, "combine_pat".as_bytes()) && !el.self_closed) {
        return Err(ParseError::malformed(el.ns));
    }
    let (context, p2) = p_context_pat(inp, el.after)?;
    let (instr, p3) = p_instruct_pat(inp, p2)?;
    let p4 = close_tag(inp, p3, "combine_pat".as_bytes())?;
    Ok((CombinePattern { context, instr }, p4))
}

pub open spec fn sp_disjoint_pat(s: Seq<u8>, pos: int) -> Option<(DisjointPatternTypeV, int)> {
    match sp_peek_tag(s, pos) {
        Some((false, name, _)) => if name == lit_bytes("instruct_pat") {
            match sp_instruct_pat(s, pos) {
                Some((v, p)) => Some((DisjointPatternTypeV::Instruction(v), p)),
                None => None,
            }
        } else if name == lit_bytes("context_pat") {
            match sp_context_pat(s, pos) {
                Some((v, p)) => Some((DisjointPatternTypeV::Context(v), p)),
                None => None,
            }
        } else if name == lit_bytes("combine_pat") {
            match sp_combine_pat(s, pos) {
                Some((v, p)) => Some((DisjointPatternTypeV::Combine(v), p)),
                None => None,
            }
        } else {
            None
        },
        _ => None,
    }
}

pub fn p_disjoint_pat(inp: &[u8], pos: usize) -> (r: Result<
    (DisjointPatternType, usize),
    ParseError,
>)
    requires
        pos <= inp@.len(),
    ensures
        parsed(r, sp_disjoint_pat(inp@, pos as int), pos as int, inp@.len() as int),
{
    let pk = peek_tag(inp, pos)?;
    if pk.is_close {
        return Err(ParseError::malformed(pk.ns));
    }
    if kw_at(inp, pk.ns, pk.ne, "instruct_pat".as_bytes()) {
        let (v, p) = p_instruct_pat(inp, pos)?;
        Ok((DisjointPatternType::Instruction(v), p))
    } else if kw_at(inp, pk.ns, pk.ne, "context_pat".as_bytes()) {
        let (v, p) = p_context_pat(inp, pos)?;
        Ok((DisjointPatternType::Context(v), p))
    } else if kw_at(inp, pk.ns, pk.ne, "combine_pat".as_bytes()) {
        let (v, p) = p_combine_pat(inp, pos)?;
        Ok((DisjointPatternType::Combine(v), p))
    } else {
        Err(ParseError::malformed(pk.ns))
    }
}

// ---------------------------------------------------------------------
// Decision tree
// ---------------------------------------------------------------------

pub open spec fn sp_pair(s: Seq<u8>, pos: int) -> Option<(DecisionNodePairV, int)> {
    match sp_elem_open(s, pos) {
        Some((name, attrs, sc, p1)) => if name == lit_bytes("pair") && !sc {
            match dec_attr(attrs, lit_bytes("id")) {
                Some(id) => match sp_disjoint_pat(s, p1) {
                    Some((pattern, p2)) => match sp_close_tag(s, p2, lit_bytes("pair")) {
                        Some(p3) => Some((DecisionNodePairV { id, pattern }, p3)),
                        None => None,
                    },
                    None => None,
                },
                None => None,
            }
        } else {
            None
        },
        None => None,
    }
}

pub fn p_pair(inp: &[u8], pos: usize) -> (r: Result<(DecisionNodePair, usize), ParseError>)
    requires
        pos <= inp@.len(),
    ensures
        parsed(r, sp_pair(inp@, pos as int), pos as int, inp@.len() as int),
{
    let el = elem_open(inp, pos)?;
    if !(kw_at(inp, el.ns, el.ne, "pair".as_bytes()) && !el.self_closed) {
        return Err(ParseError::malformed(el.ns));
    }
    let id = req_dec(&el.attrs, "id".as_bytes(), el.ns)?;
    let (pattern, p2) = p_disjoint_pat(inp, el.after)?;
    let p3 = close_tag(inp, p2, "pair".as_bytes())?;
    Ok((DecisionNodePair { id, pattern }, p3))
}

/// Zero or more pattern pairs.
pub open spec fn sp_pair_list(s: Seq<u8>, pos: int) -> Option<(Seq<DecisionNodePairV>, int)>
    decreases s.len() - pos,
{
    match sp_peek_tag(s, pos) {
        Some((false, name, _)) => if name == lit_bytes("pair") {
            match sp_pair(s, pos) {
                Some((x, p2)) => if pos < p2 <= s.len() {
                    match sp_pair_list(s, p2) {
                        Some((rest, end)) => Some((seq![x] + rest, end)),
                        None => None,
                    }
                } else {
                    None
                },
                None => None,
            }
        } else {
            Some((Seq::empty(), pos))
        },
        _ => Some((Seq::empty(), pos)),
    }
}

pub fn p_pair_list(inp: &[u8], pos: usize) -> (r: Result<
    (Vec<DecisionNodePair>, usize),
    ParseError,
>)
    requires
        pos <= inp@.len(),
    ensures
        match r {
            Ok((items, p)) => sp_pair_list(inp@, pos as int) == Some(
                (vec_view(items@), p as int),
            ) && pos <= p <= inp@.len(),
            Err(_) => sp_pair_list(inp@, pos as int) is None,
        },
{
    let mut items: Vec<DecisionNodePair> = Vec::new();
    let mut cur: usize = pos;
    loop
        invariant
            pos <= cur <= inp@.len(),
            sp_pair_list(inp@, pos as int) == match sp_pair_list(inp@, cur as int) {
                Some((rest, end)) => Some::<(Seq<DecisionNodePairV>, int)>(
                    (vec_view(items@) + rest, end),
                ),
                None => None::<(Seq<DecisionNodePairV>, int)>,
            },
        decreases inp@.len() - cur,
    {
        let stop: bool = match peek_tag(inp, cur) {
            Ok(pk) => pk.is_close || !kw_at(inp, pk.ns, pk.ne, "pair".as_bytes()),
            Err(_) => true,
        };
        if stop {
            proof {
                assert(vec_view(items@) + Seq::<DecisionNodePairV>::empty() =~= vec_view(
                    items@,
                ));
            }
            return Ok((items, cur));
        }
        let (x, p2) = p_pair(inp, cur)?;
        let ghost pre = items@;
        items.push(x);
        cur = p2;
        proof {
            assert(vec_view(items@) =~= vec_view(pre) + seq![x@]);
            match sp_pair_list(inp@, cur as int) {
                Some((rest, end)) => {
                    assert(vec_view(pre) + (seq![x@] + rest) =~= (vec_view(pre) + seq![x@])
                        + rest);
                },
                None => {},
            }
        }
    }
}

/// One decision node: metadata attributes, pattern pairs, child nodes.
pub open spec fn sp_decision(s: Seq<u8>, pos: int) -> Option<(DecisionNodeV, int)>
    decreases s.len() - pos, 0int,
{
    match sp_elem_open(s, pos) {
        Some((name, attrs, sc, p1)) => if name == lit_bytes("decision") && !sc && pos < p1
            <= s.len() {
            match (
                dec_attr(attrs, lit_bytes("number")),
                bool_attr(attrs, lit_bytes("context")),
                dec_attr(attrs, lit_bytes("start")),
                dec_attr(attrs, lit_bytes("size")),
            ) {
                (Some(number), Some(context), Some(start), Some(bitsize)) => match sp_pair_list(
                    s,
                    p1,
                ) {
                    Some((pairs, p2)) => if pos < p2 <= s.len() {
                        match sp_decision_list(s, p2) {
                            Some((children, p3)) => match sp_close_tag(
                                s,
                                p3,
                                lit_bytes("decision"),
                            ) {
                                Some(p4) => Some(
                                    (
                                        DecisionNodeV {
                                            number,
                                            context,
                                            start,
                                            bitsize,
                                            pairs,
                                            children,
                                        },
                                        p4,
                                    ),
                                ),
                                None => None,
                            },
                            None => None,
                        }
                    } else {
                        None
                    },
                    None => None,
                },
                _ => None,
            }
        } else {
            None
        },
        None => None,
    }
}

/// Zero or more child decision nodes.
pub open spec fn sp_decision_list(s: Seq<u8>, pos: int) -> Option<(Seq<DecisionNodeV>, int)>
    decreases s.len() - pos, 1int,
{
    match sp_peek_tag(s, pos) {
        Some((false, name, _)) => if name == lit_bytes("decision") {
            match sp_decision(s, pos) {
                Some((x, p2)) => if pos < p2 <= s.len() {
                    match sp_decision_list(s, p2) {
                        Some((rest, end)) => Some((seq![x] + rest, end)),
                        None => None,
                    }
                } else {
                    None
                },
                None => None,
            }
        } else {
            Some((Seq::empty(), pos))
        },
        _ => Some((Seq::empty(), pos)),
    }
}

/// Parse one decision node, recursing into its children.
#[verifier::rlimit(50)]
#[verifier::loop_isolation(false)]
pub fn p_decision(inp: &[u8], pos: usize) -> (r: Result<(DecisionNode, usize), ParseError>)
    requires
        pos <= inp@.len(),
    ensures
        parsed(r, sp_decision(inp@, pos as int), pos as int, inp@.len() as int),
    decreases inp@.len() - pos,
{
    let el = elem_open(inp, pos)?;
    if !(kw_at(inp, el.ns, el.ne, "decision".as_bytes()) && !el.self_closed) {
        return Err(ParseError::malformed(el.ns));
    }
    let number = req_dec(&el.attrs, "number".as_bytes(), el.ns)?;
    let context = req_bool(&el.attrs, "context".as_bytes(), el.ns)?;
    let start = req_dec(&el.attrs, "start".as_bytes(), el.ns)?;
    let bitsize = req_dec(&el.attrs, "size".as_bytes(), el.ns)?;
    let (pairs, p2) = p_pair_list(inp, el.after)?;
    let mut children: Vec<DecisionNode> = Vec::new();
    let mut cur: usize = p2;
    loop
        invariant
            pos < p2 <= cur <= inp@.len(),
            sp_decision_list(inp@, p2 as int) == match sp_decision_list(inp@, cur as int) {
                Some((rest, end)) => Some::<(Seq<DecisionNodeV>, int)>(
                    (vec_view(children@) + rest, end),
                ),
                None => None::<(Seq<DecisionNodeV>, int)>,
            },
        decreases inp@.len() - cur,
    {
        let stop: bool = match peek_tag(inp, cur) {
            Ok(pk) => pk.is_close || !kw_at(inp, pk.ns, pk.ne, "decision".as_bytes()),
            Err(_) => true,
        };
        if stop {
            proof {
                assert(vec_view(children@) + Seq::<DecisionNodeV>::empty() =~= vec_view(
                    children@,
                ));
            }
            let p4 = close_tag(inp, cur, "decision".as_bytes())?;
            let node = DecisionNode { number, context, start, bitsize, pairs, children };
            proof {
                assert(decision_v(node).children =~= vec_view(node.children@));
                assert(decision_v(node).pairs == vec_view(node.pairs@));
            }
            return Ok((node, p4));
        }
        let (x, pn) = match p_decision(inp, cur) {
            Ok(v) => v,
            Err(e) => {
                return Err(e);
            },
        };
        let ghost pre = children@;
        children.push(x);
        cur = pn;
        proof {
            assert(vec_view(children@) =~= vec_view(pre) + seq![x@]);
            match sp_decision_list(inp@, cur as int) {
                Some((rest, end)) => {
                    assert(vec_view(pre) + (seq![x@] + rest) =~= (vec_view(pre) + seq![x@])
                        + rest);
                },
                None => {},
            }
        }
    }
}

} // verus!
