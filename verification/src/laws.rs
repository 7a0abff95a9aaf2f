//! Properties relating the parsers, stated and proved.
//!
//! The executable entry point is pinned to the grammar function
//! [`crate::parse_doc::sp_parse`], so the statements here are made over
//! that function and the codec specifications.

use vstd::prelude::*;
use crate::codec::bool_token_val;
use crate::model::{
    AddrSpaceTypeV, BinaryOp, ConstantTemplateSelector, ConstantTemplateTypeV, OperationCode,
    PatternExpressionTypeV, PatternValueTypeV, SleighV, SymbolHeaderTypeV, UnaryOp,
};
use crate::parse_doc::{sp_addr_space, sp_parse};
use crate::parse_expr::{sp_expr, sp_pattern_value};
use crate::parse_sym::sp_sym_head;
use crate::parse_tpl::{opcode_of, sel_of, sp_const_tpl};
use crate::scan::sp_elem_open;
use crate::scan::{lit_bytes, sp_peek_tag};
use vstd::string::is_ascii;

verus! {

/// Determinism of the grammar: any two document trees that the grammar
/// assigns to the same input are equal.  Together with the contract of
/// [`crate::parse_doc::parse`] -- whose result on success is exactly
/// `sp_parse` of the input -- parsing the same bytes twice yields
/// trees with equal views; and since every numeric value in a tree is
/// canonical by [`crate::big_int::BigInt`]'s type invariant, equal views
/// carry identical signs and limbs
/// ([`crate::big_int::lemma_wf_value_injective`]).
pub proof fn lemma_parse_deterministic(s: Seq<u8>, d1: SleighV, d2: SleighV)
    requires
        sp_parse(s) == Some(d1),
        sp_parse(s) == Some(d2),
    ensures
        d1 == d2,
{
}

/// Boolean token exhaustiveness: a boolean attribute value decodes
/// exactly when it is one of the two documented tokens; any third token
/// is a decode failure, never a default value.
pub proof fn lemma_boolean_tokens(v: Seq<u8>)
    ensures
        bool_token_val(v) is Some <==> (v == lit_bytes("y") || v == lit_bytes("n")),
        bool_token_val(v) == Some(true) <==> v == lit_bytes("y"),
        bool_token_val(v) == Some(false) <==> v == lit_bytes("n"),
{
    reveal_strlit("y");
    reveal_strlit("n");
    assert(is_ascii("y"));
    assert(is_ascii("n"));
    vstd::string::is_ascii_spec_bytes("y");
    vstd::string::is_ascii_spec_bytes("n");
    assert(lit_bytes("y")[0] == 121);
    assert(lit_bytes("n")[0] == 110);
}

/// Tagged-union dispatch for the address-space vocabulary: each of the
/// five listed tags, where an address space is expected, yields exactly
/// its own variant; the grammar never maps one listed tag to another's
/// variant.  (An unlisted tag makes `sp_addr_space` refuse, directly by
/// its definition.)
pub proof fn lemma_space_dispatch(s: Seq<u8>, pos: int)
    ensures
        sp_peek_tag(s, pos) matches Some((false, name, _)) ==> {
            &&& name == lit_bytes("space_base") ==> (sp_addr_space(s, pos) matches Some((v, _))
                ==> v is Base)
            &&& name == lit_bytes("space_unique") ==> (sp_addr_space(s, pos) matches Some((v, _))
                ==> v is Unique)
            &&& name == lit_bytes("space_other") ==> (sp_addr_space(s, pos) matches Some((v, _))
                ==> v is Other)
            &&& name == lit_bytes("space_overlay") ==> (sp_addr_space(s, pos) matches Some((v, _))
                ==> v is Overlay)
            &&& name == lit_bytes("space") ==> (sp_addr_space(s, pos) matches Some((v, _))
                ==> v is Space)
        },
{
    reveal_strlit("space_base");
    reveal_strlit("space_unique");
    reveal_strlit("space_other");
    reveal_strlit("space_overlay");
    reveal_strlit("space");
    assert(is_ascii("space_base"));
    assert(is_ascii("space_unique"));
    assert(is_ascii("space_other"));
    assert(is_ascii("space_overlay"));
    assert(is_ascii("space"));
    vstd::string::is_ascii_spec_bytes("space_base");
    vstd::string::is_ascii_spec_bytes("space_unique");
    vstd::string::is_ascii_spec_bytes("space_other");
    vstd::string::is_ascii_spec_bytes("space_overlay");
    vstd::string::is_ascii_spec_bytes("space");
    assert(lit_bytes("space_base").len() == 10);
    assert(lit_bytes("space_unique").len() == 12);
    assert(lit_bytes("space_other").len() == 11);
    assert(lit_bytes("space_overlay").len() == 13);
    assert(lit_bytes("space").len() == 5);
}

/// Tagged-union dispatch for the pattern-value vocabulary: each of the
/// seven listed tags, where a pattern value is expected, yields exactly
/// its own variant.
pub proof fn lemma_pattern_value_dispatch(s: Seq<u8>, pos: int)
    ensures
        sp_peek_tag(s, pos) matches Some((false, name, _)) ==> {
            &&& name == lit_bytes("tokenfield") ==> (sp_pattern_value(s, pos) matches Some(
                (v, _),
            ) ==> v is TokenField)
            &&& name == lit_bytes("contextfield") ==> (sp_pattern_value(s, pos) matches Some(
                (v, _),
            ) ==> v is ContextField)
            &&& name == lit_bytes("intb") ==> (sp_pattern_value(s, pos) matches Some((v, _))
                ==> v is ConstantValue)
            &&& name == lit_bytes("operand_exp") ==> (sp_pattern_value(s, pos) matches Some(
                (v, _),
            ) ==> v is OperandValue)
            &&& name == lit_bytes("start_exp") ==> (sp_pattern_value(s, pos) matches Some((v, _))
                ==> v is StartInstructionValue)
            &&& name == lit_bytes("end_exp") ==> (sp_pattern_value(s, pos) matches Some((v, _))
                ==> v is EndInstructionValue)
            &&& name == lit_bytes("next2_exp") ==> (sp_pattern_value(s, pos) matches Some((v, _))
                ==> v is Next2InstructionValue)
        },
{
    reveal_strlit("tokenfield");
    reveal_strlit("contextfield");
    reveal_strlit("intb");
    reveal_strlit("operand_exp");
    reveal_strlit("start_exp");
    reveal_strlit("end_exp");
    reveal_strlit("next2_exp");
    assert(is_ascii("tokenfield"));
    assert(is_ascii("contextfield"));
    assert(is_ascii("intb"));
    assert(is_ascii("operand_exp"));
    assert(is_ascii("start_exp"));
    assert(is_ascii("end_exp"));
    assert(is_ascii("next2_exp"));
    vstd::string::is_ascii_spec_bytes("tokenfield");
    vstd::string::is_ascii_spec_bytes("contextfield");
    vstd::string::is_ascii_spec_bytes("intb");
    vstd::string::is_ascii_spec_bytes("operand_exp");
    vstd::string::is_ascii_spec_bytes("start_exp");
    vstd::string::is_ascii_spec_bytes("end_exp");
    vstd::string::is_ascii_spec_bytes("next2_exp");
    assert(lit_bytes("tokenfield").len() == 10);
    assert(lit_bytes("contextfield").len() == 12);
    assert(lit_bytes("intb").len() == 4);
    assert(lit_bytes("operand_exp").len() == 11);
    assert(lit_bytes("start_exp").len() == 9);
    assert(lit_bytes("end_exp").len() == 7);
    assert(lit_bytes("next2_exp").len() == 9);
    assert(lit_bytes("start_exp")[0] == 115);
    assert(lit_bytes("next2_exp")[0] == 110);
}

/// The handle-selector tokens: each of the four documented `s` values
/// selects exactly its variant, and nothing else selects any.
pub proof fn lemma_selector_tokens(v: Seq<u8>)
    ensures
        sel_of(v) == Some(ConstantTemplateSelector::Space) <==> v == lit_bytes("space"),
        sel_of(v) == Some(ConstantTemplateSelector::Offset) <==> v == lit_bytes("offset"),
        sel_of(v) == Some(ConstantTemplateSelector::Size) <==> v == lit_bytes("size"),
        sel_of(v) == Some(ConstantTemplateSelector::OffsetPlus) <==> v == lit_bytes(
            "offset_plus",
        ),
        sel_of(v) is None <==> !(v == lit_bytes("space") || v == lit_bytes("offset") || v
            == lit_bytes("size") || v == lit_bytes("offset_plus")),
{
    reveal_strlit("space");
    reveal_strlit("offset");
    reveal_strlit("size");
    reveal_strlit("offset_plus");
    assert(is_ascii("space"));
    assert(is_ascii("offset"));
    assert(is_ascii("size"));
    assert(is_ascii("offset_plus"));
    vstd::string::is_ascii_spec_bytes("space");
    vstd::string::is_ascii_spec_bytes("offset");
    vstd::string::is_ascii_spec_bytes("size");
    vstd::string::is_ascii_spec_bytes("offset_plus");
    assert(lit_bytes("space").len() == 5);
    assert(lit_bytes("offset").len() == 6);
    assert(lit_bytes("size").len() == 4);
    assert(lit_bytes("offset_plus").len() == 11);
}


/// Tagged-union dispatch for the operator vocabulary: each of the nine
/// binary and two unary expression tags yields exactly its operator.
#[verifier::rlimit(100)]
pub proof fn lemma_operator_dispatch(s: Seq<u8>, pos: int)
    ensures
        sp_peek_tag(s, pos) matches Some((false, name, _)) ==> {
            &&& name == lit_bytes("plus_exp") ==> (sp_expr(s, pos) matches Some((v, _))
                ==> v matches PatternExpressionTypeV::Binary(op, _) && op == BinaryOp::Plus)
            &&& name == lit_bytes("sub_exp") ==> (sp_expr(s, pos) matches Some((v, _))
                ==> v matches PatternExpressionTypeV::Binary(op, _) && op == BinaryOp::Sub)
            &&& name == lit_bytes("mult_exp") ==> (sp_expr(s, pos) matches Some((v, _))
                ==> v matches PatternExpressionTypeV::Binary(op, _) && op == BinaryOp::Mult)
            &&& name == lit_bytes("lshift_exp") ==> (sp_expr(s, pos) matches Some((v, _))
                ==> v matches PatternExpressionTypeV::Binary(op, _) && op == BinaryOp::LeftShift)
            &&& name == lit_bytes("rshift_exp") ==> (sp_expr(s, pos) matches Some((v, _))
                ==> v matches PatternExpressionTypeV::Binary(op, _) && op == BinaryOp::RightShift)
            &&& name == lit_bytes("and_exp") ==> (sp_expr(s, pos) matches Some((v, _))
                ==> v matches PatternExpressionTypeV::Binary(op, _) && op == BinaryOp::And)
            &&& name == lit_bytes("or_exp") ==> (sp_expr(s, pos) matches Some((v, _))
                ==> v matches PatternExpressionTypeV::Binary(op, _) && op == BinaryOp::Or)
            &&& name == lit_bytes("xor_exp") ==> (sp_expr(s, pos) matches Some((v, _))
                ==> v matches PatternExpressionTypeV::Binary(op, _) && op == BinaryOp::Xor)
            &&& name == lit_bytes("div_exp") ==> (sp_expr(s, pos) matches Some((v, _))
                ==> v matches PatternExpressionTypeV::Binary(op, _) && op == BinaryOp::Div)
            &&& name == lit_bytes("minus_exp") ==> (sp_expr(s, pos) matches Some((v, _))
                ==> v matches PatternExpressionTypeV::Unary(op, _) && op == UnaryOp::Minus)
            &&& name == lit_bytes("not_exp") ==> (sp_expr(s, pos) matches Some((v, _))
                ==> v matches PatternExpressionTypeV::Unary(op, _) && op == UnaryOp::Not)
        },
{
    reveal_strlit("plus_exp");
    reveal_strlit("sub_exp");
    reveal_strlit("mult_exp");
    reveal_strlit("lshift_exp");
    reveal_strlit("rshift_exp");
    reveal_strlit("and_exp");
    reveal_strlit("or_exp");
    reveal_strlit("xor_exp");
    reveal_strlit("div_exp");
    reveal_strlit("minus_exp");
    reveal_strlit("not_exp");
    assert(is_ascii("plus_exp"));
    assert(is_ascii("sub_exp"));
    assert(is_ascii("mult_exp"));
    assert(is_ascii("lshift_exp"));
    assert(is_ascii("rshift_exp"));
    assert(is_ascii("and_exp"));
    assert(is_ascii("or_exp"));
    assert(is_ascii("xor_exp"));
    assert(is_ascii("div_exp"));
    assert(is_ascii("minus_exp"));
    assert(is_ascii("not_exp"));
    vstd::string::is_ascii_spec_bytes("plus_exp");
    vstd::string::is_ascii_spec_bytes("sub_exp");
    vstd::string::is_ascii_spec_bytes("mult_exp");
    vstd::string::is_ascii_spec_bytes("lshift_exp");
    vstd::string::is_ascii_spec_bytes("rshift_exp");
    vstd::string::is_ascii_spec_bytes("and_exp");
    vstd::string::is_ascii_spec_bytes("or_exp");
    vstd::string::is_ascii_spec_bytes("xor_exp");
    vstd::string::is_ascii_spec_bytes("div_exp");
    vstd::string::is_ascii_spec_bytes("minus_exp");
    vstd::string::is_ascii_spec_bytes("not_exp");
    assert(lit_bytes("plus_exp") =~= seq![112u8, 108u8, 117u8, 115u8, 95u8, 101u8, 120u8, 112u8]);
    assert(lit_bytes("sub_exp") =~= seq![115u8, 117u8, 98u8, 95u8, 101u8, 120u8, 112u8]);
    assert(lit_bytes("mult_exp") =~= seq![109u8, 117u8, 108u8, 116u8, 95u8, 101u8, 120u8, 112u8]);
    assert(lit_bytes("lshift_exp") =~= seq![108u8, 115u8, 104u8, 105u8, 102u8, 116u8, 95u8, 101u8, 120u8, 112u8]);
    assert(lit_bytes("rshift_exp") =~= seq![114u8, 115u8, 104u8, 105u8, 102u8, 116u8, 95u8, 101u8, 120u8, 112u8]);
    assert(lit_bytes("and_exp") =~= seq![97u8, 110u8, 100u8, 95u8, 101u8, 120u8, 112u8]);
    assert(lit_bytes("or_exp") =~= seq![111u8, 114u8, 95u8, 101u8, 120u8, 112u8]);
    assert(lit_bytes("xor_exp") =~= seq![120u8, 111u8, 114u8, 95u8, 101u8, 120u8, 112u8]);
    assert(lit_bytes("div_exp") =~= seq![100u8, 105u8, 118u8, 95u8, 101u8, 120u8, 112u8]);
    assert(lit_bytes("minus_exp") =~= seq![109u8, 105u8, 110u8, 117u8, 115u8, 95u8, 101u8, 120u8, 112u8]);
    assert(lit_bytes("not_exp") =~= seq![110u8, 111u8, 116u8, 95u8, 101u8, 120u8, 112u8]);
}

/// Tagged-union dispatch for the symbol-header vocabulary: each of the
/// fifteen header tags yields exactly its variant.
#[verifier::rlimit(100)]
pub proof fn lemma_sym_head_dispatch(s: Seq<u8>, pos: int)
    ensures
        sp_peek_tag(s, pos) matches Some((false, name, _)) ==> {
            &&& name == lit_bytes("userop_head") ==> (sp_sym_head(s, pos) matches Some((v, _))
                ==> v is UserOp)
            &&& name == lit_bytes("epsilon_sym_head") ==> (sp_sym_head(s, pos) matches Some((v, _))
                ==> v is Epsilon)
            &&& name == lit_bytes("value_sym_head") ==> (sp_sym_head(s, pos) matches Some((v, _))
                ==> v is Value)
            &&& name == lit_bytes("valuemap_sym_head") ==> (sp_sym_head(s, pos) matches Some((v, _))
                ==> v is ValueMap)
            &&& name == lit_bytes("name_sym_head") ==> (sp_sym_head(s, pos) matches Some((v, _))
                ==> v is Name)
            &&& name == lit_bytes("varnode_sym_head") ==> (sp_sym_head(s, pos) matches Some((v, _))
                ==> v is VarNode)
            &&& name == lit_bytes("context_sym_head") ==> (sp_sym_head(s, pos) matches Some((v, _))
                ==> v is Context)
            &&& name == lit_bytes("varlist_sym_head") ==> (sp_sym_head(s, pos) matches Some((v, _))
                ==> v is VarNodeList)
            &&& name == lit_bytes("operand_sym_head") ==> (sp_sym_head(s, pos) matches Some((v, _))
                ==> v is Operand)
            &&& name == lit_bytes("start_sym_head") ==> (sp_sym_head(s, pos) matches Some((v, _))
                ==> v is Start)
            &&& name == lit_bytes("end_sym_head") ==> (sp_sym_head(s, pos) matches Some((v, _))
                ==> v is End)
            &&& name == lit_bytes("next2_sym_head") ==> (sp_sym_head(s, pos) matches Some((v, _))
                ==> v is Next2)
            &&& name == lit_bytes("flowdest_sym_head") ==> (sp_sym_head(s, pos) matches Some((v, _))
                ==> v is FlowDest)
            &&& name == lit_bytes("flowref_sym_head") ==> (sp_sym_head(s, pos) matches Some((v, _))
                ==> v is FlowRef)
            &&& name == lit_bytes("subtable_sym_head") ==> (sp_sym_head(s, pos) matches Some((v, _))
                ==> v is SubTable)
        },
{
    reveal_strlit("userop_head");
    reveal_strlit("epsilon_sym_head");
    reveal_strlit("value_sym_head");
    reveal_strlit("valuemap_sym_head");
    reveal_strlit("name_sym_head");
    reveal_strlit("varnode_sym_head");
    reveal_strlit("context_sym_head");
    reveal_strlit("varlist_sym_head");
    reveal_strlit("operand_sym_head");
    reveal_strlit("start_sym_head");
    reveal_strlit("end_sym_head");
    reveal_strlit("next2_sym_head");
    reveal_strlit("flowdest_sym_head");
    reveal_strlit("flowref_sym_head");
    reveal_strlit("subtable_sym_head");
    assert(is_ascii("userop_head"));
    assert(is_ascii("epsilon_sym_head"));
    assert(is_ascii("value_sym_head"));
    assert(is_ascii("valuemap_sym_head"));
    assert(is_ascii("name_sym_head"));
    assert(is_ascii("varnode_sym_head"));
    assert(is_ascii("context_sym_head"));
    assert(is_ascii("varlist_sym_head"));
    assert(is_ascii("operand_sym_head"));
    assert(is_ascii("start_sym_head"));
    assert(is_ascii("end_sym_head"));
    assert(is_ascii("next2_sym_head"));
    assert(is_ascii("flowdest_sym_head"));
    assert(is_ascii("flowref_sym_head"));
    assert(is_ascii("subtable_sym_head"));
    vstd::string::is_ascii_spec_bytes("userop_head");
    vstd::string::is_ascii_spec_bytes("epsilon_sym_head");
    vstd::string::is_ascii_spec_bytes("value_sym_head");
    vstd::string::is_ascii_spec_bytes("valuemap_sym_head");
    vstd::string::is_ascii_spec_bytes("name_sym_head");
    vstd::string::is_ascii_spec_bytes("varnode_sym_head");
    vstd::string::is_ascii_spec_bytes("context_sym_head");
    vstd::string::is_ascii_spec_bytes("varlist_sym_head");
    vstd::string::is_ascii_spec_bytes("operand_sym_head");
    vstd::string::is_ascii_spec_bytes("start_sym_head");
    vstd::string::is_ascii_spec_bytes("end_sym_head");
    vstd::string::is_ascii_spec_bytes("next2_sym_head");
    vstd::string::is_ascii_spec_bytes("flowdest_sym_head");
    vstd::string::is_ascii_spec_bytes("flowref_sym_head");
    vstd::string::is_ascii_spec_bytes("subtable_sym_head");
    assert(lit_bytes("userop_head") =~= seq![117u8, 115u8, 101u8, 114u8, 111u8, 112u8, 95u8, 104u8, 101u8, 97u8, 100u8]);
    assert(lit_bytes("epsilon_sym_head") =~= seq![101u8, 112u8, 115u8, 105u8, 108u8, 111u8, 110u8, 95u8, 115u8, 121u8, 109u8, 95u8, 104u8, 101u8, 97u8, 100u8]);
    assert(lit_bytes("value_sym_head") =~= seq![118u8, 97u8, 108u8, 117u8, 101u8, 95u8, 115u8, 121u8, 109u8, 95u8, 104u8, 101u8, 97u8, 100u8]);
    assert(lit_bytes("valuemap_sym_head") =~= seq![118u8, 97u8, 108u8, 117u8, 101u8, 109u8, 97u8, 112u8, 95u8, 115u8, 121u8, 109u8, 95u8, 104u8, 101u8, 97u8, 100u8]);
    assert(lit_bytes("name_sym_head") =~= seq![110u8, 97u8, 109u8, 101u8, 95u8, 115u8, 121u8, 109u8, 95u8, 104u8, 101u8, 97u8, 100u8]);
    assert(lit_bytes("varnode_sym_head") =~= seq![118u8, 97u8, 114u8, 110u8, 111u8, 100u8, 101u8, 95u8, 115u8, 121u8, 109u8, 95u8, 104u8, 101u8, 97u8, 100u8]);
    assert(lit_bytes("context_sym_head") =~= seq![99u8, 111u8, 110u8, 116u8, 101u8, 120u8, 116u8, 95u8, 115u8, 121u8, 109u8, 95u8, 104u8, 101u8, 97u8, 100u8]);
    assert(lit_bytes("varlist_sym_head") =~= seq![118u8, 97u8, 114u8, 108u8, 105u8, 115u8, 116u8, 95u8, 115u8, 121u8, 109u8, 95u8, 104u8, 101u8, 97u8, 100u8]);
    assert(lit_bytes("operand_sym_head") =~= seq![111u8, 112u8, 101u8, 114u8, 97u8, 110u8, 100u8, 95u8, 115u8, 121u8, 109u8, 95u8, 104u8, 101u8, 97u8, 100u8]);
    assert(lit_bytes("start_sym_head") =~= seq![115u8, 116u8, 97u8, 114u8, 116u8, 95u8, 115u8, 121u8, 109u8, 95u8, 104u8, 101u8, 97u8, 100u8]);
    assert(lit_bytes("end_sym_head") =~= seq![101u8, 110u8, 100u8, 95u8, 115u8, 121u8, 109u8, 95u8, 104u8, 101u8, 97u8, 100u8]);
    assert(lit_bytes("next2_sym_head") =~= seq![110u8, 101u8, 120u8, 116u8, 50u8, 95u8, 115u8, 121u8, 109u8, 95u8, 104u8, 101u8, 97u8, 100u8]);
    assert(lit_bytes("flowdest_sym_head") =~= seq![102u8, 108u8, 111u8, 119u8, 100u8, 101u8, 115u8, 116u8, 95u8, 115u8, 121u8, 109u8, 95u8, 104u8, 101u8, 97u8, 100u8]);
    assert(lit_bytes("flowref_sym_head") =~= seq![102u8, 108u8, 111u8, 119u8, 114u8, 101u8, 102u8, 95u8, 115u8, 121u8, 109u8, 95u8, 104u8, 101u8, 97u8, 100u8]);
    assert(lit_bytes("subtable_sym_head") =~= seq![115u8, 117u8, 98u8, 116u8, 97u8, 98u8, 108u8, 101u8, 95u8, 115u8, 121u8, 109u8, 95u8, 104u8, 101u8, 97u8, 100u8]);
}

/// Tagged-union dispatch for the constant-template vocabulary: each of
/// the thirteen `type` attribute values yields exactly its variant.
#[verifier::rlimit(100)]
pub proof fn lemma_const_tpl_dispatch(s: Seq<u8>, pos: int, tv: Seq<u8>)
    requires
        sp_elem_open(s, pos) matches Some((name, attrs, sc, p)) && crate::attrs::attr_find(
            attrs,
            lit_bytes("type"),
        ) == Some(tv),
    ensures
        tv == lit_bytes("real") ==> (sp_const_tpl(s, pos) matches Some((v, _)) ==> v is Real),
        tv == lit_bytes("handle") ==> (sp_const_tpl(s, pos) matches Some((v, _)) ==> v is Handle),
        tv == lit_bytes("start") ==> (sp_const_tpl(s, pos) matches Some((v, _)) ==> v is Start),
        tv == lit_bytes("end") ==> (sp_const_tpl(s, pos) matches Some((v, _)) ==> v is End),
        tv == lit_bytes("next") ==> (sp_const_tpl(s, pos) matches Some((v, _)) ==> v is Next),
        tv == lit_bytes("next2") ==> (sp_const_tpl(s, pos) matches Some((v, _)) ==> v is Next2),
        tv == lit_bytes("curspace") ==> (sp_const_tpl(s, pos) matches Some((v, _)) ==> v is CurSpace),
        tv == lit_bytes("curspace_size") ==> (sp_const_tpl(s, pos) matches Some((v, _)) ==> v is CurSpaceSize),
        tv == lit_bytes("spaceid") ==> (sp_const_tpl(s, pos) matches Some((v, _)) ==> v is SpaceId),
        tv == lit_bytes("relative") ==> (sp_const_tpl(s, pos) matches Some((v, _)) ==> v is JumpRelative),
        tv == lit_bytes("flowref") ==> (sp_const_tpl(s, pos) matches Some((v, _)) ==> v is FlowRef),
        tv == lit_bytes("flowdest") ==> (sp_const_tpl(s, pos) matches Some((v, _)) ==> v is FlowDest),
        tv == lit_bytes("flowdest_size") ==> (sp_const_tpl(s, pos) matches Some((v, _)) ==> v is FlowDestSize),
{
    reveal_strlit("real");
    reveal_strlit("handle");
    reveal_strlit("start");
    reveal_strlit("end");
    reveal_strlit("next");
    reveal_strlit("next2");
    reveal_strlit("curspace");
    reveal_strlit("curspace_size");
    reveal_strlit("spaceid");
    reveal_strlit("relative");
    reveal_strlit("flowref");
    reveal_strlit("flowdest");
    reveal_strlit("flowdest_size");
    assert(is_ascii("real"));
    assert(is_ascii("handle"));
    assert(is_ascii("start"));
    assert(is_ascii("end"));
    assert(is_ascii("next"));
    assert(is_ascii("next2"));
    assert(is_ascii("curspace"));
    assert(is_ascii("curspace_size"));
    assert(is_ascii("spaceid"));
    assert(is_ascii("relative"));
    assert(is_ascii("flowref"));
    assert(is_ascii("flowdest"));
    assert(is_ascii("flowdest_size"));
    vstd::string::is_ascii_spec_bytes("real");
    vstd::string::is_ascii_spec_bytes("handle");
    vstd::string::is_ascii_spec_bytes("start");
    vstd::string::is_ascii_spec_bytes("end");
    vstd::string::is_ascii_spec_bytes("next");
    vstd::string::is_ascii_spec_bytes("next2");
    vstd::string::is_ascii_spec_bytes("curspace");
    vstd::string::is_ascii_spec_bytes("curspace_size");
    vstd::string::is_ascii_spec_bytes("spaceid");
    vstd::string::is_ascii_spec_bytes("relative");
    vstd::string::is_ascii_spec_bytes("flowref");
    vstd::string::is_ascii_spec_bytes("flowdest");
    vstd::string::is_ascii_spec_bytes("flowdest_size");
    assert(lit_bytes("real") =~= seq![114u8, 101u8, 97u8, 108u8]);
    assert(lit_bytes("handle") =~= seq![104u8, 97u8, 110u8, 100u8, 108u8, 101u8]);
    assert(lit_bytes("start") =~= seq![115u8, 116u8, 97u8, 114u8, 116u8]);
    assert(lit_bytes("end") =~= seq![101u8, 110u8, 100u8]);
    assert(lit_bytes("next") =~= seq![110u8, 101u8, 120u8, 116u8]);
    assert(lit_bytes("next2") =~= seq![110u8, 101u8, 120u8, 116u8, 50u8]);
    assert(lit_bytes("curspace") =~= seq![99u8, 117u8, 114u8, 115u8, 112u8, 97u8, 99u8, 101u8]);
    assert(lit_bytes("curspace_size") =~= seq![99u8, 117u8, 114u8, 115u8, 112u8, 97u8, 99u8, 101u8, 95u8, 115u8, 105u8, 122u8, 101u8]);
    assert(lit_bytes("spaceid") =~= seq![115u8, 112u8, 97u8, 99u8, 101u8, 105u8, 100u8]);
    assert(lit_bytes("relative") =~= seq![114u8, 101u8, 108u8, 97u8, 116u8, 105u8, 118u8, 101u8]);
    assert(lit_bytes("flowref") =~= seq![102u8, 108u8, 111u8, 119u8, 114u8, 101u8, 102u8]);
    assert(lit_bytes("flowdest") =~= seq![102u8, 108u8, 111u8, 119u8, 100u8, 101u8, 115u8, 116u8]);
    assert(lit_bytes("flowdest_size") =~= seq![102u8, 108u8, 111u8, 119u8, 100u8, 101u8, 115u8, 116u8, 95u8, 115u8, 105u8, 122u8, 101u8]);
}

/// The opcode tokens, first quarter of the vocabulary: each listed
/// `code` value selects exactly its opcode, and nothing else does.
#[verifier::rlimit(100)]
pub proof fn lemma_opcode_tokens_first_quarter(v: Seq<u8>)
    ensures
        opcode_of(v) == Some(OperationCode::Blank) <==> v == lit_bytes("BLANK"),
        opcode_of(v) == Some(OperationCode::Copy) <==> v == lit_bytes("COPY"),
        opcode_of(v) == Some(OperationCode::Load) <==> v == lit_bytes("LOAD"),
        opcode_of(v) == Some(OperationCode::Store) <==> v == lit_bytes("STORE"),
        opcode_of(v) == Some(OperationCode::Branch) <==> v == lit_bytes("BRANCH"),
        opcode_of(v) == Some(OperationCode::ConditionalBranch) <==> v == lit_bytes("CBRANCH"),
        opcode_of(v) == Some(OperationCode::BranchIndirect) <==> v == lit_bytes("BRANCHIND"),
        opcode_of(v) == Some(OperationCode::Call) <==> v == lit_bytes("CALL"),
        opcode_of(v) == Some(OperationCode::CallIndirect) <==> v == lit_bytes("CALLIND"),
        opcode_of(v) == Some(OperationCode::CallOther) <==> v == lit_bytes("CALLOTHER"),
        opcode_of(v) == Some(OperationCode::Return) <==> v == lit_bytes("RETURN"),
        opcode_of(v) == Some(OperationCode::IntegerEqual) <==> v == lit_bytes("INT_EQUAL"),
        opcode_of(v) == Some(OperationCode::IntegerNotEqual) <==> v == lit_bytes("INT_NOTEQUAL"),
        opcode_of(v) == Some(OperationCode::IntegerSignedLessThan) <==> v == lit_bytes("INT_SLESS"),
        opcode_of(v) == Some(OperationCode::IntegerSignedLessThanOrEqual) <==> v == lit_bytes("INT_SLESSEQUAL"),
        opcode_of(v) == Some(OperationCode::IntegerUnsignedLessThan) <==> v == lit_bytes("INT_LESS"),
        opcode_of(v) == Some(OperationCode::IntegerUnsignedLessThanOrEqual) <==> v == lit_bytes("INT_LESSEQUAL"),
        opcode_of(v) == Some(OperationCode::IntegerZeroExtend) <==> v == lit_bytes("INT_ZEXT"),
        opcode_of(v) == Some(OperationCode::IntegerSignExtend) <==> v == lit_bytes("INT_SEXT"),
{
    reveal_strlit("BLANK");
    reveal_strlit("COPY");
    reveal_strlit("LOAD");
    reveal_strlit("STORE");
    reveal_strlit("BRANCH");
    reveal_strlit("CBRANCH");
    reveal_strlit("BRANCHIND");
    reveal_strlit("CALL");
    reveal_strlit("CALLIND");
    reveal_strlit("CALLOTHER");
    reveal_strlit("RETURN");
    reveal_strlit("INT_EQUAL");
    reveal_strlit("INT_NOTEQUAL");
    reveal_strlit("INT_SLESS");
    reveal_strlit("INT_SLESSEQUAL");
    reveal_strlit("INT_LESS");
    reveal_strlit("INT_LESSEQUAL");
    reveal_strlit("INT_ZEXT");
    reveal_strlit("INT_SEXT");
    reveal_strlit("INT_ADD");
    reveal_strlit("INT_SUB");
    reveal_strlit("INT_CARRY");
    reveal_strlit("INT_SCARRY");
    reveal_strlit("INT_SBORROW");
    reveal_strlit("INT_2COMP");
    reveal_strlit("INT_NEGATE");
    reveal_strlit("INT_XOR");
    reveal_strlit("INT_AND");
    reveal_strlit("INT_OR");
    reveal_strlit("INT_LEFT");
    reveal_strlit("INT_RIGHT");
    reveal_strlit("INT_SRIGHT");
    reveal_strlit("INT_MULT");
    reveal_strlit("INT_DIV");
    reveal_strlit("INT_SDIV");
    reveal_strlit("INT_REM");
    reveal_strlit("INT_SREM");
    reveal_strlit("BOOL_NEGATE");
    reveal_strlit("BOOL_XOR");
    reveal_strlit("BOOL_AND");
    reveal_strlit("BOOL_OR");
    reveal_strlit("FLOAT_EQUAL");
    reveal_strlit("FLOAT_NOTEQUAL");
    reveal_strlit("FLOAT_LESS");
    reveal_strlit("FLOAT_LESSEQUAL");
    reveal_strlit("UNUSED1");
    reveal_strlit("FLOAT_NAN");
    reveal_strlit("FLOAT_ADD");
    reveal_strlit("FLOAT_DIV");
    reveal_strlit("FLOAT_MULT");
    reveal_strlit("FLOAT_SUB");
    reveal_strlit("FLOAT_NEG");
    reveal_strlit("FLOAT_ABS");
    reveal_strlit("FLOAT_SQRT");
    reveal_strlit("INT2FLOAT");
    reveal_strlit("FLOAT2FLOAT");
    reveal_strlit("TRUNC");
    reveal_strlit("CEIL");
    reveal_strlit("FLOOR");
    reveal_strlit("ROUND");
    reveal_strlit("BUILD");
    reveal_strlit("DELAY_SLOT");
    reveal_strlit("PIECE");
    reveal_strlit("SUBPIECE");
    reveal_strlit("CAST");
    reveal_strlit("LABEL");
    reveal_strlit("CROSSBUILD");
    reveal_strlit("SEGMENTOP");
    reveal_strlit("CPOOLREF");
    reveal_strlit("NEW");
    reveal_strlit("INSERT");
    reveal_strlit("EXTRACT");
    reveal_strlit("POPCOUNT");
    reveal_strlit("LZCOUNT");
    assert(is_ascii("BLANK"));
    assert(is_ascii("COPY"));
    assert(is_ascii("LOAD"));
    assert(is_ascii("STORE"));
    assert(is_ascii("BRANCH"));
    assert(is_ascii("CBRANCH"));
    assert(is_ascii("BRANCHIND"));
    assert(is_ascii("CALL"));
    assert(is_ascii("CALLIND"));
    assert(is_ascii("CALLOTHER"));
    assert(is_ascii("RETURN"));
    assert(is_ascii("INT_EQUAL"));
    assert(is_ascii("INT_NOTEQUAL"));
    assert(is_ascii("INT_SLESS"));
    assert(is_ascii("INT_SLESSEQUAL"));
    assert(is_ascii("INT_LESS"));
    assert(is_ascii("INT_LESSEQUAL"));
    assert(is_ascii("INT_ZEXT"));
    assert(is_ascii("INT_SEXT"));
    assert(is_ascii("INT_ADD"));
    assert(is_ascii("INT_SUB"));
    assert(is_ascii("INT_CARRY"));
    assert(is_ascii("INT_SCARRY"));
    assert(is_ascii("INT_SBORROW"));
    assert(is_ascii("INT_2COMP"));
    assert(is_ascii("INT_NEGATE"));
    assert(is_ascii("INT_XOR"));
    assert(is_ascii("INT_AND"));
    assert(is_ascii("INT_OR"));
    assert(is_ascii("INT_LEFT"));
    assert(is_ascii("INT_RIGHT"));
    assert(is_ascii("INT_SRIGHT"));
    assert(is_ascii("INT_MULT"));
    assert(is_ascii("INT_DIV"));
    assert(is_ascii("INT_SDIV"));
    assert(is_ascii("INT_REM"));
    assert(is_ascii("INT_SREM"));
    assert(is_ascii("BOOL_NEGATE"));
    assert(is_ascii("BOOL_XOR"));
    assert(is_ascii("BOOL_AND"));
    assert(is_ascii("BOOL_OR"));
    assert(is_ascii("FLOAT_EQUAL"));
    assert(is_ascii("FLOAT_NOTEQUAL"));
    assert(is_ascii("FLOAT_LESS"));
    assert(is_ascii("FLOAT_LESSEQUAL"));
    assert(is_ascii("UNUSED1"));
    assert(is_ascii("FLOAT_NAN"));
    assert(is_ascii("FLOAT_ADD"));
    assert(is_ascii("FLOAT_DIV"));
    assert(is_ascii("FLOAT_MULT"));
    assert(is_ascii("FLOAT_SUB"));
    assert(is_ascii("FLOAT_NEG"));
    assert(is_ascii("FLOAT_ABS"));
    assert(is_ascii("FLOAT_SQRT"));
    assert(is_ascii("INT2FLOAT"));
    assert(is_ascii("FLOAT2FLOAT"));
    assert(is_ascii("TRUNC"));
    assert(is_ascii("CEIL"));
    assert(is_ascii("FLOOR"));
    assert(is_ascii("ROUND"));
    assert(is_ascii("BUILD"));
    assert(is_ascii("DELAY_SLOT"));
    assert(is_ascii("PIECE"));
    assert(is_ascii("SUBPIECE"));
    assert(is_ascii("CAST"));
    assert(is_ascii("LABEL"));
    assert(is_ascii("CROSSBUILD"));
    assert(is_ascii("SEGMENTOP"));
    assert(is_ascii("CPOOLREF"));
    assert(is_ascii("NEW"));
    assert(is_ascii("INSERT"));
    assert(is_ascii("EXTRACT"));
    assert(is_ascii("POPCOUNT"));
    assert(is_ascii("LZCOUNT"));
    vstd::string::is_ascii_spec_bytes("BLANK");
    vstd::string::is_ascii_spec_bytes("COPY");
    vstd::string::is_ascii_spec_bytes("LOAD");
    vstd::string::is_ascii_spec_bytes("STORE");
    vstd::string::is_ascii_spec_bytes("BRANCH");
    vstd::string::is_ascii_spec_bytes("CBRANCH");
    vstd::string::is_ascii_spec_bytes("BRANCHIND");
    vstd::string::is_ascii_spec_bytes("CALL");
    vstd::string::is_ascii_spec_bytes("CALLIND");
    vstd::string::is_ascii_spec_bytes("CALLOTHER");
    vstd::string::is_ascii_spec_bytes("RETURN");
    vstd::string::is_ascii_spec_bytes("INT_EQUAL");
    vstd::string::is_ascii_spec_bytes("INT_NOTEQUAL");
    vstd::string::is_ascii_spec_bytes("INT_SLESS");
    vstd::string::is_ascii_spec_bytes("INT_SLESSEQUAL");
    vstd::string::is_ascii_spec_bytes("INT_LESS");
    vstd::string::is_ascii_spec_bytes("INT_LESSEQUAL");
    vstd::string::is_ascii_spec_bytes("INT_ZEXT");
    vstd::string::is_ascii_spec_bytes("INT_SEXT");
    vstd::string::is_ascii_spec_bytes("INT_ADD");
    vstd::string::is_ascii_spec_bytes("INT_SUB");
    vstd::string::is_ascii_spec_bytes("INT_CARRY");
    vstd::string::is_ascii_spec_bytes("INT_SCARRY");
    vstd::string::is_ascii_spec_bytes("INT_SBORROW");
    vstd::string::is_ascii_spec_bytes("INT_2COMP");
    vstd::string::is_ascii_spec_bytes("INT_NEGATE");
    vstd::string::is_ascii_spec_bytes("INT_XOR");
    vstd::string::is_ascii_spec_bytes("INT_AND");
    vstd::string::is_ascii_spec_bytes("INT_OR");
    vstd::string::is_ascii_spec_bytes("INT_LEFT");
    vstd::string::is_ascii_spec_bytes("INT_RIGHT");
    vstd::string::is_ascii_spec_bytes("INT_SRIGHT");
    vstd::string::is_ascii_spec_bytes("INT_MULT");
    vstd::string::is_ascii_spec_bytes("INT_DIV");
    vstd::string::is_ascii_spec_bytes("INT_SDIV");
    vstd::string::is_ascii_spec_bytes("INT_REM");
    vstd::string::is_ascii_spec_bytes("INT_SREM");
    vstd::string::is_ascii_spec_bytes("BOOL_NEGATE");
    vstd::string::is_ascii_spec_bytes("BOOL_XOR");
    vstd::string::is_ascii_spec_bytes("BOOL_AND");
    vstd::string::is_ascii_spec_bytes("BOOL_OR");
    vstd::string::is_ascii_spec_bytes("FLOAT_EQUAL");
    vstd::string::is_ascii_spec_bytes("FLOAT_NOTEQUAL");
    vstd::string::is_ascii_spec_bytes("FLOAT_LESS");
    vstd::string::is_ascii_spec_bytes("FLOAT_LESSEQUAL");
    vstd::string::is_ascii_spec_bytes("UNUSED1");
    vstd::string::is_ascii_spec_bytes("FLOAT_NAN");
    vstd::string::is_ascii_spec_bytes("FLOAT_ADD");
    vstd::string::is_ascii_spec_bytes("FLOAT_DIV");
    vstd::string::is_ascii_spec_bytes("FLOAT_MULT");
    vstd::string::is_ascii_spec_bytes("FLOAT_SUB");
    vstd::string::is_ascii_spec_bytes("FLOAT_NEG");
    vstd::string::is_ascii_spec_bytes("FLOAT_ABS");
    vstd::string::is_ascii_spec_bytes("FLOAT_SQRT");
    vstd::string::is_ascii_spec_bytes("INT2FLOAT");
    vstd::string::is_ascii_spec_bytes("FLOAT2FLOAT");
    vstd::string::is_ascii_spec_bytes("TRUNC");
    vstd::string::is_ascii_spec_bytes("CEIL");
    vstd::string::is_ascii_spec_bytes("FLOOR");
    vstd::string::is_ascii_spec_bytes("ROUND");
    vstd::string::is_ascii_spec_bytes("BUILD");
    vstd::string::is_ascii_spec_bytes("DELAY_SLOT");
    vstd::string::is_ascii_spec_bytes("PIECE");
    vstd::string::is_ascii_spec_bytes("SUBPIECE");
    vstd::string::is_ascii_spec_bytes("CAST");
    vstd::string::is_ascii_spec_bytes("LABEL");
    vstd::string::is_ascii_spec_bytes("CROSSBUILD");
    vstd::string::is_ascii_spec_bytes("SEGMENTOP");
    vstd::string::is_ascii_spec_bytes("CPOOLREF");
    vstd::string::is_ascii_spec_bytes("NEW");
    vstd::string::is_ascii_spec_bytes("INSERT");
    vstd::string::is_ascii_spec_bytes("EXTRACT");
    vstd::string::is_ascii_spec_bytes("POPCOUNT");
    vstd::string::is_ascii_spec_bytes("LZCOUNT");
    assert(lit_bytes("BLANK") =~= seq![66u8, 76u8, 65u8, 78u8, 75u8]);
    assert(lit_bytes("COPY") =~= seq![67u8, 79u8, 80u8, 89u8]);
    assert(lit_bytes("LOAD") =~= seq![76u8, 79u8, 65u8, 68u8]);
    assert(lit_bytes("STORE") =~= seq![83u8, 84u8, 79u8, 82u8, 69u8]);
    assert(lit_bytes("BRANCH") =~= seq![66u8, 82u8, 65u8, 78u8, 67u8, 72u8]);
    assert(lit_bytes("CBRANCH") =~= seq![67u8, 66u8, 82u8, 65u8, 78u8, 67u8, 72u8]);
    assert(lit_bytes("BRANCHIND") =~= seq![66u8, 82u8, 65u8, 78u8, 67u8, 72u8, 73u8, 78u8, 68u8]);
    assert(lit_bytes("CALL") =~= seq![67u8, 65u8, 76u8, 76u8]);
    assert(lit_bytes("CALLIND") =~= seq![67u8, 65u8, 76u8, 76u8, 73u8, 78u8, 68u8]);
    assert(lit_bytes("CALLOTHER") =~= seq![67u8, 65u8, 76u8, 76u8, 79u8, 84u8, 72u8, 69u8, 82u8]);
    assert(lit_bytes("RETURN") =~= seq![82u8, 69u8, 84u8, 85u8, 82u8, 78u8]);
    assert(lit_bytes("INT_EQUAL") =~= seq![73u8, 78u8, 84u8, 95u8, 69u8, 81u8, 85u8, 65u8, 76u8]);
    assert(lit_bytes("INT_NOTEQUAL") =~= seq![73u8, 78u8, 84u8, 95u8, 78u8, 79u8, 84u8, 69u8, 81u8, 85u8, 65u8, 76u8]);
    assert(lit_bytes("INT_SLESS") =~= seq![73u8, 78u8, 84u8, 95u8, 83u8, 76u8, 69u8, 83u8, 83u8]);
    assert(lit_bytes("INT_SLESSEQUAL") =~= seq![73u8, 78u8, 84u8, 95u8, 83u8, 76u8, 69u8, 83u8, 83u8, 69u8, 81u8, 85u8, 65u8, 76u8]);
    assert(lit_bytes("INT_LESS") =~= seq![73u8, 78u8, 84u8, 95u8, 76u8, 69u8, 83u8, 83u8]);
    assert(lit_bytes("INT_LESSEQUAL") =~= seq![73u8, 78u8, 84u8, 95u8, 76u8, 69u8, 83u8, 83u8, 69u8, 81u8, 85u8, 65u8, 76u8]);
    assert(lit_bytes("INT_ZEXT") =~= seq![73u8, 78u8, 84u8, 95u8, 90u8, 69u8, 88u8, 84u8]);
    assert(lit_bytes("INT_SEXT") =~= seq![73u8, 78u8, 84u8, 95u8, 83u8, 69u8, 88u8, 84u8]);
    assert(lit_bytes("INT_ADD") =~= seq![73u8, 78u8, 84u8, 95u8, 65u8, 68u8, 68u8]);
    assert(lit_bytes("INT_SUB") =~= seq![73u8, 78u8, 84u8, 95u8, 83u8, 85u8, 66u8]);
    assert(lit_bytes("INT_CARRY") =~= seq![73u8, 78u8, 84u8, 95u8, 67u8, 65u8, 82u8, 82u8, 89u8]);
    assert(lit_bytes("INT_SCARRY") =~= seq![73u8, 78u8, 84u8, 95u8, 83u8, 67u8, 65u8, 82u8, 82u8, 89u8]);
    assert(lit_bytes("INT_SBORROW") =~= seq![73u8, 78u8, 84u8, 95u8, 83u8, 66u8, 79u8, 82u8, 82u8, 79u8, 87u8]);
    assert(lit_bytes("INT_2COMP") =~= seq![73u8, 78u8, 84u8, 95u8, 50u8, 67u8, 79u8, 77u8, 80u8]);
    assert(lit_bytes("INT_NEGATE") =~= seq![73u8, 78u8, 84u8, 95u8, 78u8, 69u8, 71u8, 65u8, 84u8, 69u8]);
    assert(lit_bytes("INT_XOR") =~= seq![73u8, 78u8, 84u8, 95u8, 88u8, 79u8, 82u8]);
    assert(lit_bytes("INT_AND") =~= seq![73u8, 78u8, 84u8, 95u8, 65u8, 78u8, 68u8]);
    assert(lit_bytes("INT_OR") =~= seq![73u8, 78u8, 84u8, 95u8, 79u8, 82u8]);
    assert(lit_bytes("INT_LEFT") =~= seq![73u8, 78u8, 84u8, 95u8, 76u8, 69u8, 70u8, 84u8]);
    assert(lit_bytes("INT_RIGHT") =~= seq![73u8, 78u8, 84u8, 95u8, 82u8, 73u8, 71u8, 72u8, 84u8]);
    assert(lit_bytes("INT_SRIGHT") =~= seq![73u8, 78u8, 84u8, 95u8, 83u8, 82u8, 73u8, 71u8, 72u8, 84u8]);
    assert(lit_bytes("INT_MULT") =~= seq![73u8, 78u8, 84u8, 95u8, 77u8, 85u8, 76u8, 84u8]);
    assert(lit_bytes("INT_DIV") =~= seq![73u8, 78u8, 84u8, 95u8, 68u8, 73u8, 86u8]);
    assert(lit_bytes("INT_SDIV") =~= seq![73u8, 78u8, 84u8, 95u8, 83u8, 68u8, 73u8, 86u8]);
    assert(lit_bytes("INT_REM") =~= seq![73u8, 78u8, 84u8, 95u8, 82u8, 69u8, 77u8]);
    assert(lit_bytes("INT_SREM") =~= seq![73u8, 78u8, 84u8, 95u8, 83u8, 82u8, 69u8, 77u8]);
    assert(lit_bytes("BOOL_NEGATE") =~= seq![66u8, 79u8, 79u8, 76u8, 95u8, 78u8, 69u8, 71u8, 65u8, 84u8, 69u8]);
    assert(lit_bytes("BOOL_XOR") =~= seq![66u8, 79u8, 79u8, 76u8, 95u8, 88u8, 79u8, 82u8]);
    assert(lit_bytes("BOOL_AND") =~= seq![66u8, 79u8, 79u8, 76u8, 95u8, 65u8, 78u8, 68u8]);
    assert(lit_bytes("BOOL_OR") =~= seq![66u8, 79u8, 79u8, 76u8, 95u8, 79u8, 82u8]);
    assert(lit_bytes("FLOAT_EQUAL") =~= seq![70u8, 76u8, 79u8, 65u8, 84u8, 95u8, 69u8, 81u8, 85u8, 65u8, 76u8]);
    assert(lit_bytes("FLOAT_NOTEQUAL") =~= seq![70u8, 76u8, 79u8, 65u8, 84u8, 95u8, 78u8, 79u8, 84u8, 69u8, 81u8, 85u8, 65u8, 76u8]);
    assert(lit_bytes("FLOAT_LESS") =~= seq![70u8, 76u8, 79u8, 65u8, 84u8, 95u8, 76u8, 69u8, 83u8, 83u8]);
    assert(lit_bytes("FLOAT_LESSEQUAL") =~= seq![70u8, 76u8, 79u8, 65u8, 84u8, 95u8, 76u8, 69u8, 83u8, 83u8, 69u8, 81u8, 85u8, 65u8, 76u8]);
    assert(lit_bytes("UNUSED1") =~= seq![85u8, 78u8, 85u8, 83u8, 69u8, 68u8, 49u8]);
    assert(lit_bytes("FLOAT_NAN") =~= seq![70u8, 76u8, 79u8, 65u8, 84u8, 95u8, 78u8, 65u8, 78u8]);
    assert(lit_bytes("FLOAT_ADD") =~= seq![70u8, 76u8, 79u8, 65u8, 84u8, 95u8, 65u8, 68u8, 68u8]);
    assert(lit_bytes("FLOAT_DIV") =~= seq![70u8, 76u8, 79u8, 65u8, 84u8, 95u8, 68u8, 73u8, 86u8]);
    assert(lit_bytes("FLOAT_MULT") =~= seq![70u8, 76u8, 79u8, 65u8, 84u8, 95u8, 77u8, 85u8, 76u8, 84u8]);
    assert(lit_bytes("FLOAT_SUB") =~= seq![70u8, 76u8, 79u8, 65u8, 84u8, 95u8, 83u8, 85u8, 66u8]);
    assert(lit_bytes("FLOAT_NEG") =~= seq![70u8, 76u8, 79u8, 65u8, 84u8, 95u8, 78u8, 69u8, 71u8]);
    assert(lit_bytes("FLOAT_ABS") =~= seq![70u8, 76u8, 79u8, 65u8, 84u8, 95u8, 65u8, 66u8, 83u8]);
    assert(lit_bytes("FLOAT_SQRT") =~= seq![70u8, 76u8, 79u8, 65u8, 84u8, 95u8, 83u8, 81u8, 82u8, 84u8]);
    assert(lit_bytes("INT2FLOAT") =~= seq![73u8, 78u8, 84u8, 50u8, 70u8, 76u8, 79u8, 65u8, 84u8]);
    assert(lit_bytes("FLOAT2FLOAT") =~= seq![70u8, 76u8, 79u8, 65u8, 84u8, 50u8, 70u8, 76u8, 79u8, 65u8, 84u8]);
    assert(lit_bytes("TRUNC") =~= seq![84u8, 82u8, 85u8, 78u8, 67u8]);
    assert(lit_bytes("CEIL") =~= seq![67u8, 69u8, 73u8, 76u8]);
    assert(lit_bytes("FLOOR") =~= seq![70u8, 76u8, 79u8, 79u8, 82u8]);
    assert(lit_bytes("ROUND") =~= seq![82u8, 79u8, 85u8, 78u8, 68u8]);
    assert(lit_bytes("BUILD") =~= seq![66u8, 85u8, 73u8, 76u8, 68u8]);
    assert(lit_bytes("DELAY_SLOT") =~= seq![68u8, 69u8, 76u8, 65u8, 89u8, 95u8, 83u8, 76u8, 79u8, 84u8]);
    assert(lit_bytes("PIECE") =~= seq![80u8, 73u8, 69u8, 67u8, 69u8]);
    assert(lit_bytes("SUBPIECE") =~= seq![83u8, 85u8, 66u8, 80u8, 73u8, 69u8, 67u8, 69u8]);
    assert(lit_bytes("CAST") =~= seq![67u8, 65u8, 83u8, 84u8]);
    assert(lit_bytes("LABEL") =~= seq![76u8, 65u8, 66u8, 69u8, 76u8]);
    assert(lit_bytes("CROSSBUILD") =~= seq![67u8, 82u8, 79u8, 83u8, 83u8, 66u8, 85u8, 73u8, 76u8, 68u8]);
    assert(lit_bytes("SEGMENTOP") =~= seq![83u8, 69u8, 71u8, 77u8, 69u8, 78u8, 84u8, 79u8, 80u8]);
    assert(lit_bytes("CPOOLREF") =~= seq![67u8, 80u8, 79u8, 79u8, 76u8, 82u8, 69u8, 70u8]);
    assert(lit_bytes("NEW") =~= seq![78u8, 69u8, 87u8]);
    assert(lit_bytes("INSERT") =~= seq![73u8, 78u8, 83u8, 69u8, 82u8, 84u8]);
    assert(lit_bytes("EXTRACT") =~= seq![69u8, 88u8, 84u8, 82u8, 65u8, 67u8, 84u8]);
    assert(lit_bytes("POPCOUNT") =~= seq![80u8, 79u8, 80u8, 67u8, 79u8, 85u8, 78u8, 84u8]);
    assert(lit_bytes("LZCOUNT") =~= seq![76u8, 90u8, 67u8, 79u8, 85u8, 78u8, 84u8]);
}

/// The opcode tokens, second quarter of the vocabulary: each listed
/// `code` value selects exactly its opcode, and nothing else does.
#[verifier::rlimit(100)]
pub proof fn lemma_opcode_tokens_second_quarter(v: Seq<u8>)
    ensures
        opcode_of(v) == Some(OperationCode::IntegerAdd) <==> v == lit_bytes("INT_ADD"),
        opcode_of(v) == Some(OperationCode::IntegerSubtract) <==> v == lit_bytes("INT_SUB"),
        opcode_of(v) == Some(OperationCode::IntegerCarry) <==> v == lit_bytes("INT_CARRY"),
        opcode_of(v) == Some(OperationCode::IntegerSignedCarry) <==> v == lit_bytes("INT_SCARRY"),
        opcode_of(v) == Some(OperationCode::IntegerSignedBorrow) <==> v == lit_bytes("INT_SBORROW"),
        opcode_of(v) == Some(OperationCode::IntegerTwosCompliment) <==> v == lit_bytes("INT_2COMP"),
        opcode_of(v) == Some(OperationCode::IntegerNegate) <==> v == lit_bytes("INT_NEGATE"),
        opcode_of(v) == Some(OperationCode::IntegerXor) <==> v == lit_bytes("INT_XOR"),
        opcode_of(v) == Some(OperationCode::IntegerAnd) <==> v == lit_bytes("INT_AND"),
        opcode_of(v) == Some(OperationCode::IntegerOr) <==> v == lit_bytes("INT_OR"),
        opcode_of(v) == Some(OperationCode::IntegerLeftShift) <==> v == lit_bytes("INT_LEFT"),
        opcode_of(v) == Some(OperationCode::IntegerRightShift) <==> v == lit_bytes("INT_RIGHT"),
        opcode_of(v) == Some(OperationCode::IntegerSignedRightShift) <==> v == lit_bytes("INT_SRIGHT"),
        opcode_of(v) == Some(OperationCode::IntegerMultiply) <==> v == lit_bytes("INT_MULT"),
        opcode_of(v) == Some(OperationCode::IntegerDivide) <==> v == lit_bytes("INT_DIV"),
        opcode_of(v) == Some(OperationCode::IntegerSignedDivide) <==> v == lit_bytes("INT_SDIV"),
        opcode_of(v) == Some(OperationCode::IntegerRemainder) <==> v == lit_bytes("INT_REM"),
        opcode_of(v) == Some(OperationCode::IntegerSignedRemainder) <==> v == lit_bytes("INT_SREM"),
        opcode_of(v) == Some(OperationCode::BooleanNegate) <==> v == lit_bytes("BOOL_NEGATE"),
{
    reveal_strlit("BLANK");
    reveal_strlit("COPY");
    reveal_strlit("LOAD");
    reveal_strlit("STORE");
    reveal_strlit("BRANCH");
    reveal_strlit("CBRANCH");
    reveal_strlit("BRANCHIND");
    reveal_strlit("CALL");
    reveal_strlit("CALLIND");
    reveal_strlit("CALLOTHER");
    reveal_strlit("RETURN");
    reveal_strlit("INT_EQUAL");
    reveal_strlit("INT_NOTEQUAL");
    reveal_strlit("INT_SLESS");
    reveal_strlit("INT_SLESSEQUAL");
    reveal_strlit("INT_LESS");
    reveal_strlit("INT_LESSEQUAL");
    reveal_strlit("INT_ZEXT");
    reveal_strlit("INT_SEXT");
    reveal_strlit("INT_ADD");
    reveal_strlit("INT_SUB");
    reveal_strlit("INT_CARRY");
    reveal_strlit("INT_SCARRY");
    reveal_strlit("INT_SBORROW");
    reveal_strlit("INT_2COMP");
    reveal_strlit("INT_NEGATE");
    reveal_strlit("INT_XOR");
    reveal_strlit("INT_AND");
    reveal_strlit("INT_OR");
    reveal_strlit("INT_LEFT");
    reveal_strlit("INT_RIGHT");
    reveal_strlit("INT_SRIGHT");
    reveal_strlit("INT_MULT");
    reveal_strlit("INT_DIV");
    reveal_strlit("INT_SDIV");
    reveal_strlit("INT_REM");
    reveal_strlit("INT_SREM");
    reveal_strlit("BOOL_NEGATE");
    reveal_strlit("BOOL_XOR");
    reveal_strlit("BOOL_AND");
    reveal_strlit("BOOL_OR");
    reveal_strlit("FLOAT_EQUAL");
    reveal_strlit("FLOAT_NOTEQUAL");
    reveal_strlit("FLOAT_LESS");
    reveal_strlit("FLOAT_LESSEQUAL");
    reveal_strlit("UNUSED1");
    reveal_strlit("FLOAT_NAN");
    reveal_strlit("FLOAT_ADD");
    reveal_strlit("FLOAT_DIV");
    reveal_strlit("FLOAT_MULT");
    reveal_strlit("FLOAT_SUB");
    reveal_strlit("FLOAT_NEG");
    reveal_strlit("FLOAT_ABS");
    reveal_strlit("FLOAT_SQRT");
    reveal_strlit("INT2FLOAT");
    reveal_strlit("FLOAT2FLOAT");
    reveal_strlit("TRUNC");
    reveal_strlit("CEIL");
    reveal_strlit("FLOOR");
    reveal_strlit("ROUND");
    reveal_strlit("BUILD");
    reveal_strlit("DELAY_SLOT");
    reveal_strlit("PIECE");
    reveal_strlit("SUBPIECE");
    reveal_strlit("CAST");
    reveal_strlit("LABEL");
    reveal_strlit("CROSSBUILD");
    reveal_strlit("SEGMENTOP");
    reveal_strlit("CPOOLREF");
    reveal_strlit("NEW");
    reveal_strlit("INSERT");
    reveal_strlit("EXTRACT");
    reveal_strlit("POPCOUNT");
    reveal_strlit("LZCOUNT");
    assert(is_ascii("BLANK"));
    assert(is_ascii("COPY"));
    assert(is_ascii("LOAD"));
    assert(is_ascii("STORE"));
    assert(is_ascii("BRANCH"));
    assert(is_ascii("CBRANCH"));
    assert(is_ascii("BRANCHIND"));
    assert(is_ascii("CALL"));
    assert(is_ascii("CALLIND"));
    assert(is_ascii("CALLOTHER"));
    assert(is_ascii("RETURN"));
    assert(is_ascii("INT_EQUAL"));
    assert(is_ascii("INT_NOTEQUAL"));
    assert(is_ascii("INT_SLESS"));
    assert(is_ascii("INT_SLESSEQUAL"));
    assert(is_ascii("INT_LESS"));
    assert(is_ascii("INT_LESSEQUAL"));
    assert(is_ascii("INT_ZEXT"));
    assert(is_ascii("INT_SEXT"));
    assert(is_ascii("INT_ADD"));
    assert(is_ascii("INT_SUB"));
    assert(is_ascii("INT_CARRY"));
    assert(is_ascii("INT_SCARRY"));
    assert(is_ascii("INT_SBORROW"));
    assert(is_ascii("INT_2COMP"));
    assert(is_ascii("INT_NEGATE"));
    assert(is_ascii("INT_XOR"));
    assert(is_ascii("INT_AND"));
    assert(is_ascii("INT_OR"));
    assert(is_ascii("INT_LEFT"));
    assert(is_ascii("INT_RIGHT"));
    assert(is_ascii("INT_SRIGHT"));
    assert(is_ascii("INT_MULT"));
    assert(is_ascii("INT_DIV"));
    assert(is_ascii("INT_SDIV"));
    assert(is_ascii("INT_REM"));
    assert(is_ascii("INT_SREM"));
    assert(is_ascii("BOOL_NEGATE"));
    assert(is_ascii("BOOL_XOR"));
    assert(is_ascii("BOOL_AND"));
    assert(is_ascii("BOOL_OR"));
    assert(is_ascii("FLOAT_EQUAL"));
    assert(is_ascii("FLOAT_NOTEQUAL"));
    assert(is_ascii("FLOAT_LESS"));
    assert(is_ascii("FLOAT_LESSEQUAL"));
    assert(is_ascii("UNUSED1"));
    assert(is_ascii("FLOAT_NAN"));
    assert(is_ascii("FLOAT_ADD"));
    assert(is_ascii("FLOAT_DIV"));
    assert(is_ascii("FLOAT_MULT"));
    assert(is_ascii("FLOAT_SUB"));
    assert(is_ascii("FLOAT_NEG"));
    assert(is_ascii("FLOAT_ABS"));
    assert(is_ascii("FLOAT_SQRT"));
    assert(is_ascii("INT2FLOAT"));
    assert(is_ascii("FLOAT2FLOAT"));
    assert(is_ascii("TRUNC"));
    assert(is_ascii("CEIL"));
    assert(is_ascii("FLOOR"));
    assert(is_ascii("ROUND"));
    assert(is_ascii("BUILD"));
    assert(is_ascii("DELAY_SLOT"));
    assert(is_ascii("PIECE"));
    assert(is_ascii("SUBPIECE"));
    assert(is_ascii("CAST"));
    assert(is_ascii("LABEL"));
    assert(is_ascii("CROSSBUILD"));
    assert(is_ascii("SEGMENTOP"));
    assert(is_ascii("CPOOLREF"));
    assert(is_ascii("NEW"));
    assert(is_ascii("INSERT"));
    assert(is_ascii("EXTRACT"));
    assert(is_ascii("POPCOUNT"));
    assert(is_ascii("LZCOUNT"));
    vstd::string::is_ascii_spec_bytes("BLANK");
    vstd::string::is_ascii_spec_bytes("COPY");
    vstd::string::is_ascii_spec_bytes("LOAD");
    vstd::string::is_ascii_spec_bytes("STORE");
    vstd::string::is_ascii_spec_bytes("BRANCH");
    vstd::string::is_ascii_spec_bytes("CBRANCH");
    vstd::string::is_ascii_spec_bytes("BRANCHIND");
    vstd::string::is_ascii_spec_bytes("CALL");
    vstd::string::is_ascii_spec_bytes("CALLIND");
    vstd::string::is_ascii_spec_bytes("CALLOTHER");
    vstd::string::is_ascii_spec_bytes("RETURN");
    vstd::string::is_ascii_spec_bytes("INT_EQUAL");
    vstd::string::is_ascii_spec_bytes("INT_NOTEQUAL");
    vstd::string::is_ascii_spec_bytes("INT_SLESS");
    vstd::string::is_ascii_spec_bytes("INT_SLESSEQUAL");
    vstd::string::is_ascii_spec_bytes("INT_LESS");
    vstd::string::is_ascii_spec_bytes("INT_LESSEQUAL");
    vstd::string::is_ascii_spec_bytes("INT_ZEXT");
    vstd::string::is_ascii_spec_bytes("INT_SEXT");
    vstd::string::is_ascii_spec_bytes("INT_ADD");
    vstd::string::is_ascii_spec_bytes("INT_SUB");
    vstd::string::is_ascii_spec_bytes("INT_CARRY");
    vstd::string::is_ascii_spec_bytes("INT_SCARRY");
    vstd::string::is_ascii_spec_bytes("INT_SBORROW");
    vstd::string::is_ascii_spec_bytes("INT_2COMP");
    vstd::string::is_ascii_spec_bytes("INT_NEGATE");
    vstd::string::is_ascii_spec_bytes("INT_XOR");
    vstd::string::is_ascii_spec_bytes("INT_AND");
    vstd::string::is_ascii_spec_bytes("INT_OR");
    vstd::string::is_ascii_spec_bytes("INT_LEFT");
    vstd::string::is_ascii_spec_bytes("INT_RIGHT");
    vstd::string::is_ascii_spec_bytes("INT_SRIGHT");
    vstd::string::is_ascii_spec_bytes("INT_MULT");
    vstd::string::is_ascii_spec_bytes("INT_DIV");
    vstd::string::is_ascii_spec_bytes("INT_SDIV");
    vstd::string::is_ascii_spec_bytes("INT_REM");
    vstd::string::is_ascii_spec_bytes("INT_SREM");
    vstd::string::is_ascii_spec_bytes("BOOL_NEGATE");
    vstd::string::is_ascii_spec_bytes("BOOL_XOR");
    vstd::string::is_ascii_spec_bytes("BOOL_AND");
    vstd::string::is_ascii_spec_bytes("BOOL_OR");
    vstd::string::is_ascii_spec_bytes("FLOAT_EQUAL");
    vstd::string::is_ascii_spec_bytes("FLOAT_NOTEQUAL");
    vstd::string::is_ascii_spec_bytes("FLOAT_LESS");
    vstd::string::is_ascii_spec_bytes("FLOAT_LESSEQUAL");
    vstd::string::is_ascii_spec_bytes("UNUSED1");
    vstd::string::is_ascii_spec_bytes("FLOAT_NAN");
    vstd::string::is_ascii_spec_bytes("FLOAT_ADD");
    vstd::string::is_ascii_spec_bytes("FLOAT_DIV");
    vstd::string::is_ascii_spec_bytes("FLOAT_MULT");
    vstd::string::is_ascii_spec_bytes("FLOAT_SUB");
    vstd::string::is_ascii_spec_bytes("FLOAT_NEG");
    vstd::string::is_ascii_spec_bytes("FLOAT_ABS");
    vstd::string::is_ascii_spec_bytes("FLOAT_SQRT");
    vstd::string::is_ascii_spec_bytes("INT2FLOAT");
    vstd::string::is_ascii_spec_bytes("FLOAT2FLOAT");
    vstd::string::is_ascii_spec_bytes("TRUNC");
    vstd::string::is_ascii_spec_bytes("CEIL");
    vstd::string::is_ascii_spec_bytes("FLOOR");
    vstd::string::is_ascii_spec_bytes("ROUND");
    vstd::string::is_ascii_spec_bytes("BUILD");
    vstd::string::is_ascii_spec_bytes("DELAY_SLOT");
    vstd::string::is_ascii_spec_bytes("PIECE");
    vstd::string::is_ascii_spec_bytes("SUBPIECE");
    vstd::string::is_ascii_spec_bytes("CAST");
    vstd::string::is_ascii_spec_bytes("LABEL");
    vstd::string::is_ascii_spec_bytes("CROSSBUILD");
    vstd::string::is_ascii_spec_bytes("SEGMENTOP");
    vstd::string::is_ascii_spec_bytes("CPOOLREF");
    vstd::string::is_ascii_spec_bytes("NEW");
    vstd::string::is_ascii_spec_bytes("INSERT");
    vstd::string::is_ascii_spec_bytes("EXTRACT");
    vstd::string::is_ascii_spec_bytes("POPCOUNT");
    vstd::string::is_ascii_spec_bytes("LZCOUNT");
    assert(lit_bytes("BLANK") =~= seq![66u8, 76u8, 65u8, 78u8, 75u8]);
    assert(lit_bytes("COPY") =~= seq![67u8, 79u8, 80u8, 89u8]);
    assert(lit_bytes("LOAD") =~= seq![76u8, 79u8, 65u8, 68u8]);
    assert(lit_bytes("STORE") =~= seq![83u8, 84u8, 79u8, 82u8, 69u8]);
    assert(lit_bytes("BRANCH") =~= seq![66u8, 82u8, 65u8, 78u8, 67u8, 72u8]);
    assert(lit_bytes("CBRANCH") =~= seq![67u8, 66u8, 82u8, 65u8, 78u8, 67u8, 72u8]);
    assert(lit_bytes("BRANCHIND") =~= seq![66u8, 82u8, 65u8, 78u8, 67u8, 72u8, 73u8, 78u8, 68u8]);
    assert(lit_bytes("CALL") =~= seq![67u8, 65u8, 76u8, 76u8]);
    assert(lit_bytes("CALLIND") =~= seq![67u8, 65u8, 76u8, 76u8, 73u8, 78u8, 68u8]);
    assert(lit_bytes("CALLOTHER") =~= seq![67u8, 65u8, 76u8, 76u8, 79u8, 84u8, 72u8, 69u8, 82u8]);
    assert(lit_bytes("RETURN") =~= seq![82u8, 69u8, 84u8, 85u8, 82u8, 78u8]);
    assert(lit_bytes("INT_EQUAL") =~= seq![73u8, 78u8, 84u8, 95u8, 69u8, 81u8, 85u8, 65u8, 76u8]);
    assert(lit_bytes("INT_NOTEQUAL") =~= seq![73u8, 78u8, 84u8, 95u8, 78u8, 79u8, 84u8, 69u8, 81u8, 85u8, 65u8, 76u8]);
    assert(lit_bytes("INT_SLESS") =~= seq![73u8, 78u8, 84u8, 95u8, 83u8, 76u8, 69u8, 83u8, 83u8]);
    assert(lit_bytes("INT_SLESSEQUAL") =~= seq![73u8, 78u8, 84u8, 95u8, 83u8, 76u8, 69u8, 83u8, 83u8, 69u8, 81u8, 85u8, 65u8, 76u8]);
    assert(lit_bytes("INT_LESS") =~= seq![73u8, 78u8, 84u8, 95u8, 76u8, 69u8, 83u8, 83u8]);
    assert(lit_bytes("INT_LESSEQUAL") =~= seq![73u8, 78u8, 84u8, 95u8, 76u8, 69u8, 83u8, 83u8, 69u8, 81u8, 85u8, 65u8, 76u8]);
    assert(lit_bytes("INT_ZEXT") =~= seq![73u8, 78u8, 84u8, 95u8, 90u8, 69u8, 88u8, 84u8]);
    assert(lit_bytes("INT_SEXT") =~= seq![73u8, 78u8, 84u8, 95u8, 83u8, 69u8, 88u8, 84u8]);
    assert(lit_bytes("INT_ADD") =~= seq![73u8, 78u8, 84u8, 95u8, 65u8, 68u8, 68u8]);
    assert(lit_bytes("INT_SUB") =~= seq![73u8, 78u8, 84u8, 95u8, 83u8, 85u8, 66u8]);
    assert(lit_bytes("INT_CARRY") =~= seq![73u8, 78u8, 84u8, 95u8, 67u8, 65u8, 82u8, 82u8, 89u8]);
    assert(lit_bytes("INT_SCARRY") =~= seq![73u8, 78u8, 84u8, 95u8, 83u8, 67u8, 65u8, 82u8, 82u8, 89u8]);
    assert(lit_bytes("INT_SBORROW") =~= seq![73u8, 78u8, 84u8, 95u8, 83u8, 66u8, 79u8, 82u8, 82u8, 79u8, 87u8]);
    assert(lit_bytes("INT_2COMP") =~= seq![73u8, 78u8, 84u8, 95u8, 50u8, 67u8, 79u8, 77u8, 80u8]);
    assert(lit_bytes("INT_NEGATE") =~= seq![73u8, 78u8, 84u8, 95u8, 78u8, 69u8, 71u8, 65u8, 84u8, 69u8]);
    assert(lit_bytes("INT_XOR") =~= seq![73u8, 78u8, 84u8, 95u8, 88u8, 79u8, 82u8]);
    assert(lit_bytes("INT_AND") =~= seq![73u8, 78u8, 84u8, 95u8, 65u8, 78u8, 68u8]);
    assert(lit_bytes("INT_OR") =~= seq![73u8, 78u8, 84u8, 95u8, 79u8, 82u8]);
    assert(lit_bytes("INT_LEFT") =~= seq![73u8, 78u8, 84u8, 95u8, 76u8, 69u8, 70u8, 84u8]);
    assert(lit_bytes("INT_RIGHT") =~= seq![73u8, 78u8, 84u8, 95u8, 82u8, 73u8, 71u8, 72u8, 84u8]);
    assert(lit_bytes("INT_SRIGHT") =~= seq![73u8, 78u8, 84u8, 95u8, 83u8, 82u8, 73u8, 71u8, 72u8, 84u8]);
    assert(lit_bytes("INT_MULT") =~= seq![73u8, 78u8, 84u8, 95u8, 77u8, 85u8, 76u8, 84u8]);
    assert(lit_bytes("INT_DIV") =~= seq![73u8, 78u8, 84u8, 95u8, 68u8, 73u8, 86u8]);
    assert(lit_bytes("INT_SDIV") =~= seq![73u8, 78u8, 84u8, 95u8, 83u8, 68u8, 73u8, 86u8]);
    assert(lit_bytes("INT_REM") =~= seq![73u8, 78u8, 84u8, 95u8, 82u8, 69u8, 77u8]);
    assert(lit_bytes("INT_SREM") =~= seq![73u8, 78u8, 84u8, 95u8, 83u8, 82u8, 69u8, 77u8]);
    assert(lit_bytes("BOOL_NEGATE") =~= seq![66u8, 79u8, 79u8, 76u8, 95u8, 78u8, 69u8, 71u8, 65u8, 84u8, 69u8]);
    assert(lit_bytes("BOOL_XOR") =~= seq![66u8, 79u8, 79u8, 76u8, 95u8, 88u8, 79u8, 82u8]);
    assert(lit_bytes("BOOL_AND") =~= seq![66u8, 79u8, 79u8, 76u8, 95u8, 65u8, 78u8, 68u8]);
    assert(lit_bytes("BOOL_OR") =~= seq![66u8, 79u8, 79u8, 76u8, 95u8, 79u8, 82u8]);
    assert(lit_bytes("FLOAT_EQUAL") =~= seq![70u8, 76u8, 79u8, 65u8, 84u8, 95u8, 69u8, 81u8, 85u8, 65u8, 76u8]);
    assert(lit_bytes("FLOAT_NOTEQUAL") =~= seq![70u8, 76u8, 79u8, 65u8, 84u8, 95u8, 78u8, 79u8, 84u8, 69u8, 81u8, 85u8, 65u8, 76u8]);
    assert(lit_bytes("FLOAT_LESS") =~= seq![70u8, 76u8, 79u8, 65u8, 84u8, 95u8, 76u8, 69u8, 83u8, 83u8]);
    assert(lit_bytes("FLOAT_LESSEQUAL") =~= seq![70u8, 76u8, 79u8, 65u8, 84u8, 95u8, 76u8, 69u8, 83u8, 83u8, 69u8, 81u8, 85u8, 65u8, 76u8]);
    assert(lit_bytes("UNUSED1") =~= seq![85u8, 78u8, 85u8, 83u8, 69u8, 68u8, 49u8]);
    assert(lit_bytes("FLOAT_NAN") =~= seq![70u8, 76u8, 79u8, 65u8, 84u8, 95u8, 78u8, 65u8, 78u8]);
    assert(lit_bytes("FLOAT_ADD") =~= seq![70u8, 76u8, 79u8, 65u8, 84u8, 95u8, 65u8, 68u8, 68u8]);
    assert(lit_bytes("FLOAT_DIV") =~= seq![70u8, 76u8, 79u8, 65u8, 84u8, 95u8, 68u8, 73u8, 86u8]);
    assert(lit_bytes("FLOAT_MULT") =~= seq![70u8, 76u8, 79u8, 65u8, 84u8, 95u8, 77u8, 85u8, 76u8, 84u8]);
    assert(lit_bytes("FLOAT_SUB") =~= seq![70u8, 76u8, 79u8, 65u8, 84u8, 95u8, 83u8, 85u8, 66u8]);
    assert(lit_bytes("FLOAT_NEG") =~= seq![70u8, 76u8, 79u8, 65u8, 84u8, 95u8, 78u8, 69u8, 71u8]);
    assert(lit_bytes("FLOAT_ABS") =~= seq![70u8, 76u8, 79u8, 65u8, 84u8, 95u8, 65u8, 66u8, 83u8]);
    assert(lit_bytes("FLOAT_SQRT") =~= seq![70u8, 76u8, 79u8, 65u8, 84u8, 95u8, 83u8, 81u8, 82u8, 84u8]);
    assert(lit_bytes("INT2FLOAT") =~= seq![73u8, 78u8, 84u8, 50u8, 70u8, 76u8, 79u8, 65u8, 84u8]);
    assert(lit_bytes("FLOAT2FLOAT") =~= seq![70u8, 76u8, 79u8, 65u8, 84u8, 50u8, 70u8, 76u8, 79u8, 65u8, 84u8]);
    assert(lit_bytes("TRUNC") =~= seq![84u8, 82u8, 85u8, 78u8, 67u8]);
    assert(lit_bytes("CEIL") =~= seq![67u8, 69u8, 73u8, 76u8]);
    assert(lit_bytes("FLOOR") =~= seq![70u8, 76u8, 79u8, 79u8, 82u8]);
    assert(lit_bytes("ROUND") =~= seq![82u8, 79u8, 85u8, 78u8, 68u8]);
    assert(lit_bytes("BUILD") =~= seq![66u8, 85u8, 73u8, 76u8, 68u8]);
    assert(lit_bytes("DELAY_SLOT") =~= seq![68u8, 69u8, 76u8, 65u8, 89u8, 95u8, 83u8, 76u8, 79u8, 84u8]);
    assert(lit_bytes("PIECE") =~= seq![80u8, 73u8, 69u8, 67u8, 69u8]);
    assert(lit_bytes("SUBPIECE") =~= seq![83u8, 85u8, 66u8, 80u8, 73u8, 69u8, 67u8, 69u8]);
    assert(lit_bytes("CAST") =~= seq![67u8, 65u8, 83u8, 84u8]);
    assert(lit_bytes("LABEL") =~= seq![76u8, 65u8, 66u8, 69u8, 76u8]);
    assert(lit_bytes("CROSSBUILD") =~= seq![67u8, 82u8, 79u8, 83u8, 83u8, 66u8, 85u8, 73u8, 76u8, 68u8]);
    assert(lit_bytes("SEGMENTOP") =~= seq![83u8, 69u8, 71u8, 77u8, 69u8, 78u8, 84u8, 79u8, 80u8]);
    assert(lit_bytes("CPOOLREF") =~= seq![67u8, 80u8, 79u8, 79u8, 76u8, 82u8, 69u8, 70u8]);
    assert(lit_bytes("NEW") =~= seq![78u8, 69u8, 87u8]);
    assert(lit_bytes("INSERT") =~= seq![73u8, 78u8, 83u8, 69u8, 82u8, 84u8]);
    assert(lit_bytes("EXTRACT") =~= seq![69u8, 88u8, 84u8, 82u8, 65u8, 67u8, 84u8]);
    assert(lit_bytes("POPCOUNT") =~= seq![80u8, 79u8, 80u8, 67u8, 79u8, 85u8, 78u8, 84u8]);
    assert(lit_bytes("LZCOUNT") =~= seq![76u8, 90u8, 67u8, 79u8, 85u8, 78u8, 84u8]);
}

/// The opcode tokens, third quarter of the vocabulary: each listed
/// `code` value selects exactly its opcode, and nothing else does.
#[verifier::rlimit(100)]
pub proof fn lemma_opcode_tokens_third_quarter(v: Seq<u8>)
    ensures
        opcode_of(v) == Some(OperationCode::BooleanXor) <==> v == lit_bytes("BOOL_XOR"),
        opcode_of(v) == Some(OperationCode::BooleanAnd) <==> v == lit_bytes("BOOL_AND"),
        opcode_of(v) == Some(OperationCode::BooleanOr) <==> v == lit_bytes("BOOL_OR"),
        opcode_of(v) == Some(OperationCode::FloatEqual) <==> v == lit_bytes("FLOAT_EQUAL"),
        opcode_of(v) == Some(OperationCode::FloatNotEqual) <==> v == lit_bytes("FLOAT_NOTEQUAL"),
        opcode_of(v) == Some(OperationCode::FloatLessThan) <==> v == lit_bytes("FLOAT_LESS"),
        opcode_of(v) == Some(OperationCode::FloatLessThanOrEqual) <==> v == lit_bytes("FLOAT_LESSEQUAL"),
        opcode_of(v) == Some(OperationCode::Unused1) <==> v == lit_bytes("UNUSED1"),
        opcode_of(v) == Some(OperationCode::FloatNotANumber) <==> v == lit_bytes("FLOAT_NAN"),
        opcode_of(v) == Some(OperationCode::FloatAdd) <==> v == lit_bytes("FLOAT_ADD"),
        opcode_of(v) == Some(OperationCode::FloatDivide) <==> v == lit_bytes("FLOAT_DIV"),
        opcode_of(v) == Some(OperationCode::FloatMultiply) <==> v == lit_bytes("FLOAT_MULT"),
        opcode_of(v) == Some(OperationCode::FloatSubtract) <==> v == lit_bytes("FLOAT_SUB"),
        opcode_of(v) == Some(OperationCode::FloatNegate) <==> v == lit_bytes("FLOAT_NEG"),
        opcode_of(v) == Some(OperationCode::FloatAbsoluteValue) <==> v == lit_bytes("FLOAT_ABS"),
        opcode_of(v) == Some(OperationCode::FloatSquareRoot) <==> v == lit_bytes("FLOAT_SQRT"),
        opcode_of(v) == Some(OperationCode::IntegerToFloat) <==> v == lit_bytes("INT2FLOAT"),
        opcode_of(v) == Some(OperationCode::FloatToFloat) <==> v == lit_bytes("FLOAT2FLOAT"),
{
    reveal_strlit("BLANK");
    reveal_strlit("COPY");
    reveal_strlit("LOAD");
    reveal_strlit("STORE");
    reveal_strlit("BRANCH");
    reveal_strlit("CBRANCH");
    reveal_strlit("BRANCHIND");
    reveal_strlit("CALL");
    reveal_strlit("CALLIND");
    reveal_strlit("CALLOTHER");
    reveal_strlit("RETURN");
    reveal_strlit("INT_EQUAL");
    reveal_strlit("INT_NOTEQUAL");
    reveal_strlit("INT_SLESS");
    reveal_strlit("INT_SLESSEQUAL");
    reveal_strlit("INT_LESS");
    reveal_strlit("INT_LESSEQUAL");
    reveal_strlit("INT_ZEXT");
    reveal_strlit("INT_SEXT");
    reveal_strlit("INT_ADD");
    reveal_strlit("INT_SUB");
    reveal_strlit("INT_CARRY");
    reveal_strlit("INT_SCARRY");
    reveal_strlit("INT_SBORROW");
    reveal_strlit("INT_2COMP");
    reveal_strlit("INT_NEGATE");
    reveal_strlit("INT_XOR");
    reveal_strlit("INT_AND");
    reveal_strlit("INT_OR");
    reveal_strlit("INT_LEFT");
    reveal_strlit("INT_RIGHT");
    reveal_strlit("INT_SRIGHT");
    reveal_strlit("INT_MULT");
    reveal_strlit("INT_DIV");
    reveal_strlit("INT_SDIV");
    reveal_strlit("INT_REM");
    reveal_strlit("INT_SREM");
    reveal_strlit("BOOL_NEGATE");
    reveal_strlit("BOOL_XOR");
    reveal_strlit("BOOL_AND");
    reveal_strlit("BOOL_OR");
    reveal_strlit("FLOAT_EQUAL");
    reveal_strlit("FLOAT_NOTEQUAL");
    reveal_strlit("FLOAT_LESS");
    reveal_strlit("FLOAT_LESSEQUAL");
    reveal_strlit("UNUSED1");
    reveal_strlit("FLOAT_NAN");
    reveal_strlit("FLOAT_ADD");
    reveal_strlit("FLOAT_DIV");
    reveal_strlit("FLOAT_MULT");
    reveal_strlit("FLOAT_SUB");
    reveal_strlit("FLOAT_NEG");
    reveal_strlit("FLOAT_ABS");
    reveal_strlit("FLOAT_SQRT");
    reveal_strlit("INT2FLOAT");
    reveal_strlit("FLOAT2FLOAT");
    reveal_strlit("TRUNC");
    reveal_strlit("CEIL");
    reveal_strlit("FLOOR");
    reveal_strlit("ROUND");
    reveal_strlit("BUILD");
    reveal_strlit("DELAY_SLOT");
    reveal_strlit("PIECE");
    reveal_strlit("SUBPIECE");
    reveal_strlit("CAST");
    reveal_strlit("LABEL");
    reveal_strlit("CROSSBUILD");
    reveal_strlit("SEGMENTOP");
    reveal_strlit("CPOOLREF");
    reveal_strlit("NEW");
    reveal_strlit("INSERT");
    reveal_strlit("EXTRACT");
    reveal_strlit("POPCOUNT");
    reveal_strlit("LZCOUNT");
    assert(is_ascii("BLANK"));
    assert(is_ascii("COPY"));
    assert(is_ascii("LOAD"));
    assert(is_ascii("STORE"));
    assert(is_ascii("BRANCH"));
    assert(is_ascii("CBRANCH"));
    assert(is_ascii("BRANCHIND"));
    assert(is_ascii("CALL"));
    assert(is_ascii("CALLIND"));
    assert(is_ascii("CALLOTHER"));
    assert(is_ascii("RETURN"));
    assert(is_ascii("INT_EQUAL"));
    assert(is_ascii("INT_NOTEQUAL"));
    assert(is_ascii("INT_SLESS"));
    assert(is_ascii("INT_SLESSEQUAL"));
    assert(is_ascii("INT_LESS"));
    assert(is_ascii("INT_LESSEQUAL"));
    assert(is_ascii("INT_ZEXT"));
    assert(is_ascii("INT_SEXT"));
    assert(is_ascii("INT_ADD"));
    assert(is_ascii("INT_SUB"));
    assert(is_ascii("INT_CARRY"));
    assert(is_ascii("INT_SCARRY"));
    assert(is_ascii("INT_SBORROW"));
    assert(is_ascii("INT_2COMP"));
    assert(is_ascii("INT_NEGATE"));
    assert(is_ascii("INT_XOR"));
    assert(is_ascii("INT_AND"));
    assert(is_ascii("INT_OR"));
    assert(is_ascii("INT_LEFT"));
    assert(is_ascii("INT_RIGHT"));
    assert(is_ascii("INT_SRIGHT"));
    assert(is_ascii("INT_MULT"));
    assert(is_ascii("INT_DIV"));
    assert(is_ascii("INT_SDIV"));
    assert(is_ascii("INT_REM"));
    assert(is_ascii("INT_SREM"));
    assert(is_ascii("BOOL_NEGATE"));
    assert(is_ascii("BOOL_XOR"));
    assert(is_ascii("BOOL_AND"));
    assert(is_ascii("BOOL_OR"));
    assert(is_ascii("FLOAT_EQUAL"));
    assert(is_ascii("FLOAT_NOTEQUAL"));
    assert(is_ascii("FLOAT_LESS"));
    assert(is_ascii("FLOAT_LESSEQUAL"));
    assert(is_ascii("UNUSED1"));
    assert(is_ascii("FLOAT_NAN"));
    assert(is_ascii("FLOAT_ADD"));
    assert(is_ascii("FLOAT_DIV"));
    assert(is_ascii("FLOAT_MULT"));
    assert(is_ascii("FLOAT_SUB"));
    assert(is_ascii("FLOAT_NEG"));
    assert(is_ascii("FLOAT_ABS"));
    assert(is_ascii("FLOAT_SQRT"));
    assert(is_ascii("INT2FLOAT"));
    assert(is_ascii("FLOAT2FLOAT"));
    assert(is_ascii("TRUNC"));
    assert(is_ascii("CEIL"));
    assert(is_ascii("FLOOR"));
    assert(is_ascii("ROUND"));
    assert(is_ascii("BUILD"));
    assert(is_ascii("DELAY_SLOT"));
    assert(is_ascii("PIECE"));
    assert(is_ascii("SUBPIECE"));
    assert(is_ascii("CAST"));
    assert(is_ascii("LABEL"));
    assert(is_ascii("CROSSBUILD"));
    assert(is_ascii("SEGMENTOP"));
    assert(is_ascii("CPOOLREF"));
    assert(is_ascii("NEW"));
    assert(is_ascii("INSERT"));
    assert(is_ascii("EXTRACT"));
    assert(is_ascii("POPCOUNT"));
    assert(is_ascii("LZCOUNT"));
    vstd::string::is_ascii_spec_bytes("BLANK");
    vstd::string::is_ascii_spec_bytes("COPY");
    vstd::string::is_ascii_spec_bytes("LOAD");
    vstd::string::is_ascii_spec_bytes("STORE");
    vstd::string::is_ascii_spec_bytes("BRANCH");
    vstd::string::is_ascii_spec_bytes("CBRANCH");
    vstd::string::is_ascii_spec_bytes("BRANCHIND");
    vstd::string::is_ascii_spec_bytes("CALL");
    vstd::string::is_ascii_spec_bytes("CALLIND");
    vstd::string::is_ascii_spec_bytes("CALLOTHER");
    vstd::string::is_ascii_spec_bytes("RETURN");
    vstd::string::is_ascii_spec_bytes("INT_EQUAL");
    vstd::string::is_ascii_spec_bytes("INT_NOTEQUAL");
    vstd::string::is_ascii_spec_bytes("INT_SLESS");
    vstd::string::is_ascii_spec_bytes("INT_SLESSEQUAL");
    vstd::string::is_ascii_spec_bytes("INT_LESS");
    vstd::string::is_ascii_spec_bytes("INT_LESSEQUAL");
    vstd::string::is_ascii_spec_bytes("INT_ZEXT");
    vstd::string::is_ascii_spec_bytes("INT_SEXT");
    vstd::string::is_ascii_spec_bytes("INT_ADD");
    vstd::string::is_ascii_spec_bytes("INT_SUB");
    vstd::string::is_ascii_spec_bytes("INT_CARRY");
    vstd::string::is_ascii_spec_bytes("INT_SCARRY");
    vstd::string::is_ascii_spec_bytes("INT_SBORROW");
    vstd::string::is_ascii_spec_bytes("INT_2COMP");
    vstd::string::is_ascii_spec_bytes("INT_NEGATE");
    vstd::string::is_ascii_spec_bytes("INT_XOR");
    vstd::string::is_ascii_spec_bytes("INT_AND");
    vstd::string::is_ascii_spec_bytes("INT_OR");
    vstd::string::is_ascii_spec_bytes("INT_LEFT");
    vstd::string::is_ascii_spec_bytes("INT_RIGHT");
    vstd::string::is_ascii_spec_bytes("INT_SRIGHT");
    vstd::string::is_ascii_spec_bytes("INT_MULT");
    vstd::string::is_ascii_spec_bytes("INT_DIV");
    vstd::string::is_ascii_spec_bytes("INT_SDIV");
    vstd::string::is_ascii_spec_bytes("INT_REM");
    vstd::string::is_ascii_spec_bytes("INT_SREM");
    vstd::string::is_ascii_spec_bytes("BOOL_NEGATE");
    vstd::string::is_ascii_spec_bytes("BOOL_XOR");
    vstd::string::is_ascii_spec_bytes("BOOL_AND");
    vstd::string::is_ascii_spec_bytes("BOOL_OR");
    vstd::string::is_ascii_spec_bytes("FLOAT_EQUAL");
    vstd::string::is_ascii_spec_bytes("FLOAT_NOTEQUAL");
    vstd::string::is_ascii_spec_bytes("FLOAT_LESS");
    vstd::string::is_ascii_spec_bytes("FLOAT_LESSEQUAL");
    vstd::string::is_ascii_spec_bytes("UNUSED1");
    vstd::string::is_ascii_spec_bytes("FLOAT_NAN");
    vstd::string::is_ascii_spec_bytes("FLOAT_ADD");
    vstd::string::is_ascii_spec_bytes("FLOAT_DIV");
    vstd::string::is_ascii_spec_bytes("FLOAT_MULT");
    vstd::string::is_ascii_spec_bytes("FLOAT_SUB");
    vstd::string::is_ascii_spec_bytes("FLOAT_NEG");
    vstd::string::is_ascii_spec_bytes("FLOAT_ABS");
    vstd::string::is_ascii_spec_bytes("FLOAT_SQRT");
    vstd::string::is_ascii_spec_bytes("INT2FLOAT");
    vstd::string::is_ascii_spec_bytes("FLOAT2FLOAT");
    vstd::string::is_ascii_spec_bytes("TRUNC");
    vstd::string::is_ascii_spec_bytes("CEIL");
    vstd::string::is_ascii_spec_bytes("FLOOR");
    vstd::string::is_ascii_spec_bytes("ROUND");
    vstd::string::is_ascii_spec_bytes("BUILD");
    vstd::string::is_ascii_spec_bytes("DELAY_SLOT");
    vstd::string::is_ascii_spec_bytes("PIECE");
    vstd::string::is_ascii_spec_bytes("SUBPIECE");
    vstd::string::is_ascii_spec_bytes("CAST");
    vstd::string::is_ascii_spec_bytes("LABEL");
    vstd::string::is_ascii_spec_bytes("CROSSBUILD");
    vstd::string::is_ascii_spec_bytes("SEGMENTOP");
    vstd::string::is_ascii_spec_bytes("CPOOLREF");
    vstd::string::is_ascii_spec_bytes("NEW");
    vstd::string::is_ascii_spec_bytes("INSERT");
    vstd::string::is_ascii_spec_bytes("EXTRACT");
    vstd::string::is_ascii_spec_bytes("POPCOUNT");
    vstd::string::is_ascii_spec_bytes("LZCOUNT");
    assert(lit_bytes("BLANK") =~= seq![66u8, 76u8, 65u8, 78u8, 75u8]);
    assert(lit_bytes("COPY") =~= seq![67u8, 79u8, 80u8, 89u8]);
    assert(lit_bytes("LOAD") =~= seq![76u8, 79u8, 65u8, 68u8]);
    assert(lit_bytes("STORE") =~= seq![83u8, 84u8, 79u8, 82u8, 69u8]);
    assert(lit_bytes("BRANCH") =~= seq![66u8, 82u8, 65u8, 78u8, 67u8, 72u8]);
    assert(lit_bytes("CBRANCH") =~= seq![67u8, 66u8, 82u8, 65u8, 78u8, 67u8, 72u8]);
    assert(lit_bytes("BRANCHIND") =~= seq![66u8, 82u8, 65u8, 78u8, 67u8, 72u8, 73u8, 78u8, 68u8]);
    assert(lit_bytes("CALL") =~= seq![67u8, 65u8, 76u8, 76u8]);
    assert(lit_bytes("CALLIND") =~= seq![67u8, 65u8, 76u8, 76u8, 73u8, 78u8, 68u8]);
    assert(lit_bytes("CALLOTHER") =~= seq![67u8, 65u8, 76u8, 76u8, 79u8, 84u8, 72u8, 69u8, 82u8]);
    assert(lit_bytes("RETURN") =~= seq![82u8, 69u8, 84u8, 85u8, 82u8, 78u8]);
    assert(lit_bytes("INT_EQUAL") =~= seq![73u8, 78u8, 84u8, 95u8, 69u8, 81u8, 85u8, 65u8, 76u8]);
    assert(lit_bytes("INT_NOTEQUAL") =~= seq![73u8, 78u8, 84u8, 95u8, 78u8, 79u8, 84u8, 69u8, 81u8, 85u8, 65u8, 76u8]);
    assert(lit_bytes("INT_SLESS") =~= seq![73u8, 78u8, 84u8, 95u8, 83u8, 76u8, 69u8, 83u8, 83u8]);
    assert(lit_bytes("INT_SLESSEQUAL") =~= seq![73u8, 78u8, 84u8, 95u8, 83u8, 76u8, 69u8, 83u8, 83u8, 69u8, 81u8, 85u8, 65u8, 76u8]);
    assert(lit_bytes("INT_LESS") =~= seq![73u8, 78u8, 84u8, 95u8, 76u8, 69u8, 83u8, 83u8]);
    assert(lit_bytes("INT_LESSEQUAL") =~= seq![73u8, 78u8, 84u8, 95u8, 76u8, 69u8, 83u8, 83u8, 69u8, 81u8, 85u8, 65u8, 76u8]);
    assert(lit_bytes("INT_ZEXT") =~= seq![73u8, 78u8, 84u8, 95u8, 90u8, 69u8, 88u8, 84u8]);
    assert(lit_bytes("INT_SEXT") =~= seq![73u8, 78u8, 84u8, 95u8, 83u8, 69u8, 88u8, 84u8]);
    assert(lit_bytes("INT_ADD") =~= seq![73u8, 78u8, 84u8, 95u8, 65u8, 68u8, 68u8]);
    assert(lit_bytes("INT_SUB") =~= seq![73u8, 78u8, 84u8, 95u8, 83u8, 85u8, 66u8]);
    assert(lit_bytes("INT_CARRY") =~= seq![73u8, 78u8, 84u8, 95u8, 67u8, 65u8, 82u8, 82u8, 89u8]);
    assert(lit_bytes("INT_SCARRY") =~= seq![73u8, 78u8, 84u8, 95u8, 83u8, 67u8, 65u8, 82u8, 82u8, 89u8]);
    assert(lit_bytes("INT_SBORROW") =~= seq![73u8, 78u8, 84u8, 95u8, 83u8, 66u8, 79u8, 82u8, 82u8, 79u8, 87u8]);
    assert(lit_bytes("INT_2COMP") =~= seq![73u8, 78u8, 84u8, 95u8, 50u8, 67u8, 79u8, 77u8, 80u8]);
    assert(lit_bytes("INT_NEGATE") =~= seq![73u8, 78u8, 84u8, 95u8, 78u8, 69u8, 71u8, 65u8, 84u8, 69u8]);
    assert(lit_bytes("INT_XOR") =~= seq![73u8, 78u8, 84u8, 95u8, 88u8, 79u8, 82u8]);
    assert(lit_bytes("INT_AND") =~= seq![73u8, 78u8, 84u8, 95u8, 65u8, 78u8, 68u8]);
    assert(lit_bytes("INT_OR") =~= seq![73u8, 78u8, 84u8, 95u8, 79u8, 82u8]);
    assert(lit_bytes("INT_LEFT") =~= seq![73u8, 78u8, 84u8, 95u8, 76u8, 69u8, 70u8, 84u8]);
    assert(lit_bytes("INT_RIGHT") =~= seq![73u8, 78u8, 84u8, 95u8, 82u8, 73u8, 71u8, 72u8, 84u8]);
    assert(lit_bytes("INT_SRIGHT") =~= seq![73u8, 78u8, 84u8, 95u8, 83u8, 82u8, 73u8, 71u8, 72u8, 84u8]);
    assert(lit_bytes("INT_MULT") =~= seq![73u8, 78u8, 84u8, 95u8, 77u8, 85u8, 76u8, 84u8]);
    assert(lit_bytes("INT_DIV") =~= seq![73u8, 78u8, 84u8, 95u8, 68u8, 73u8, 86u8]);
    assert(lit_bytes("INT_SDIV") =~= seq![73u8, 78u8, 84u8, 95u8, 83u8, 68u8, 73u8, 86u8]);
    assert(lit_bytes("INT_REM") =~= seq![73u8, 78u8, 84u8, 95u8, 82u8, 69u8, 77u8]);
    assert(lit_bytes("INT_SREM") =~= seq![73u8, 78u8, 84u8, 95u8, 83u8, 82u8, 69u8, 77u8]);
    assert(lit_bytes("BOOL_NEGATE") =~= seq![66u8, 79u8, 79u8, 76u8, 95u8, 78u8, 69u8, 71u8, 65u8, 84u8, 69u8]);
    assert(lit_bytes("BOOL_XOR") =~= seq![66u8, 79u8, 79u8, 76u8, 95u8, 88u8, 79u8, 82u8]);
    assert(lit_bytes("BOOL_AND") =~= seq![66u8, 79u8, 79u8, 76u8, 95u8, 65u8, 78u8, 68u8]);
    assert(lit_bytes("BOOL_OR") =~= seq![66u8, 79u8, 79u8, 76u8, 95u8, 79u8, 82u8]);
    assert(lit_bytes("FLOAT_EQUAL") =~= seq![70u8, 76u8, 79u8, 65u8, 84u8, 95u8, 69u8, 81u8, 85u8, 65u8, 76u8]);
    assert(lit_bytes("FLOAT_NOTEQUAL") =~= seq![70u8, 76u8, 79u8, 65u8, 84u8, 95u8, 78u8, 79u8, 84u8, 69u8, 81u8, 85u8, 65u8, 76u8]);
    assert(lit_bytes("FLOAT_LESS") =~= seq![70u8, 76u8, 79u8, 65u8, 84u8, 95u8, 76u8, 69u8, 83u8, 83u8]);
    assert(lit_bytes("FLOAT_LESSEQUAL") =~= seq![70u8, 76u8, 79u8, 65u8, 84u8, 95u8, 76u8, 69u8, 83u8, 83u8, 69u8, 81u8, 85u8, 65u8, 76u8]);
    assert(lit_bytes("UNUSED1") =~= seq![85u8, 78u8, 85u8, 83u8, 69u8, 68u8, 49u8]);
    assert(lit_bytes("FLOAT_NAN") =~= seq![70u8, 76u8, 79u8, 65u8, 84u8, 95u8, 78u8, 65u8, 78u8]);
    assert(lit_bytes("FLOAT_ADD") =~= seq![70u8, 76u8, 79u8, 65u8, 84u8, 95u8, 65u8, 68u8, 68u8]);
    assert(lit_bytes("FLOAT_DIV") =~= seq![70u8, 76u8, 79u8, 65u8, 84u8, 95u8, 68u8, 73u8, 86u8]);
    assert(lit_bytes("FLOAT_MULT") =~= seq![70u8, 76u8, 79u8, 65u8, 84u8, 95u8, 77u8, 85u8, 76u8, 84u8]);
    assert(lit_bytes("FLOAT_SUB") =~= seq![70u8, 76u8, 79u8, 65u8, 84u8, 95u8, 83u8, 85u8, 66u8]);
    assert(lit_bytes("FLOAT_NEG") =~= seq![70u8, 76u8, 79u8, 65u8, 84u8, 95u8, 78u8, 69u8, 71u8]);
    assert(lit_bytes("FLOAT_ABS") =~= seq![70u8, 76u8, 79u8, 65u8, 84u8, 95u8, 65u8, 66u8, 83u8]);
    assert(lit_bytes("FLOAT_SQRT") =~= seq![70u8, 76u8, 79u8, 65u8, 84u8, 95u8, 83u8, 81u8, 82u8, 84u8]);
    assert(lit_bytes("INT2FLOAT") =~= seq![73u8, 78u8, 84u8, 50u8, 70u8, 76u8, 79u8, 65u8, 84u8]);
    assert(lit_bytes("FLOAT2FLOAT") =~= seq![70u8, 76u8, 79u8, 65u8, 84u8, 50u8, 70u8, 76u8, 79u8, 65u8, 84u8]);
    assert(lit_bytes("TRUNC") =~= seq![84u8, 82u8, 85u8, 78u8, 67u8]);
    assert(lit_bytes("CEIL") =~= seq![67u8, 69u8, 73u8, 76u8]);
    assert(lit_bytes("FLOOR") =~= seq![70u8, 76u8, 79u8, 79u8, 82u8]);
    assert(lit_bytes("ROUND") =~= seq![82u8, 79u8, 85u8, 78u8, 68u8]);
    assert(lit_bytes("BUILD") =~= seq![66u8, 85u8, 73u8, 76u8, 68u8]);
    assert(lit_bytes("DELAY_SLOT") =~= seq![68u8, 69u8, 76u8, 65u8, 89u8, 95u8, 83u8, 76u8, 79u8, 84u8]);
    assert(lit_bytes("PIECE") =~= seq![80u8, 73u8, 69u8, 67u8, 69u8]);
    assert(lit_bytes("SUBPIECE") =~= seq![83u8, 85u8, 66u8, 80u8, 73u8, 69u8, 67u8, 69u8]);
    assert(lit_bytes("CAST") =~= seq![67u8, 65u8, 83u8, 84u8]);
    assert(lit_bytes("LABEL") =~= seq![76u8, 65u8, 66u8, 69u8, 76u8]);
    assert(lit_bytes("CROSSBUILD") =~= seq![67u8, 82u8, 79u8, 83u8, 83u8, 66u8, 85u8, 73u8, 76u8, 68u8]);
    assert(lit_bytes("SEGMENTOP") =~= seq![83u8, 69u8, 71u8, 77u8, 69u8, 78u8, 84u8, 79u8, 80u8]);
    assert(lit_bytes("CPOOLREF") =~= seq![67u8, 80u8, 79u8, 79u8, 76u8, 82u8, 69u8, 70u8]);
    assert(lit_bytes("NEW") =~= seq![78u8, 69u8, 87u8]);
    assert(lit_bytes("INSERT") =~= seq![73u8, 78u8, 83u8, 69u8, 82u8, 84u8]);
    assert(lit_bytes("EXTRACT") =~= seq![69u8, 88u8, 84u8, 82u8, 65u8, 67u8, 84u8]);
    assert(lit_bytes("POPCOUNT") =~= seq![80u8, 79u8, 80u8, 67u8, 79u8, 85u8, 78u8, 84u8]);
    assert(lit_bytes("LZCOUNT") =~= seq![76u8, 90u8, 67u8, 79u8, 85u8, 78u8, 84u8]);
}

/// The opcode tokens, fourth quarter of the vocabulary: each listed
/// `code` value selects exactly its opcode, and nothing else does.
#[verifier::rlimit(100)]
pub proof fn lemma_opcode_tokens_fourth_quarter(v: Seq<u8>)
    ensures
        opcode_of(v) == Some(OperationCode::Truncate) <==> v == lit_bytes("TRUNC"),
        opcode_of(v) == Some(OperationCode::Ceiling) <==> v == lit_bytes("CEIL"),
        opcode_of(v) == Some(OperationCode::Floor) <==> v == lit_bytes("FLOOR"),
        opcode_of(v) == Some(OperationCode::Round) <==> v == lit_bytes("ROUND"),
        opcode_of(v) == Some(OperationCode::Build) <==> v == lit_bytes("BUILD"),
        opcode_of(v) == Some(OperationCode::DelaySlot) <==> v == lit_bytes("DELAY_SLOT"),
        opcode_of(v) == Some(OperationCode::Piece) <==> v == lit_bytes("PIECE"),
        opcode_of(v) == Some(OperationCode::Subpiece) <==> v == lit_bytes("SUBPIECE"),
        opcode_of(v) == Some(OperationCode::Cast) <==> v == lit_bytes("CAST"),
        opcode_of(v) == Some(OperationCode::Label) <==> v == lit_bytes("LABEL"),
        opcode_of(v) == Some(OperationCode::CrossBuild) <==> v == lit_bytes("CROSSBUILD"),
        opcode_of(v) == Some(OperationCode::SegmentOp) <==> v == lit_bytes("SEGMENTOP"),
        opcode_of(v) == Some(OperationCode::CpoolRef) <==> v == lit_bytes("CPOOLREF"),
        opcode_of(v) == Some(OperationCode::New) <==> v == lit_bytes("NEW"),
        opcode_of(v) == Some(OperationCode::Insert) <==> v == lit_bytes("INSERT"),
        opcode_of(v) == Some(OperationCode::Extract) <==> v == lit_bytes("EXTRACT"),
        opcode_of(v) == Some(OperationCode::PopCount) <==> v == lit_bytes("POPCOUNT"),
        opcode_of(v) == Some(OperationCode::LzCount) <==> v == lit_bytes("LZCOUNT"),
{
    reveal_strlit("BLANK");
    reveal_strlit("COPY");
    reveal_strlit("LOAD");
    reveal_strlit("STORE");
    reveal_strlit("BRANCH");
    reveal_strlit("CBRANCH");
    reveal_strlit("BRANCHIND");
    reveal_strlit("CALL");
    reveal_strlit("CALLIND");
    reveal_strlit("CALLOTHER");
    reveal_strlit("RETURN");
    reveal_strlit("INT_EQUAL");
    reveal_strlit("INT_NOTEQUAL");
    reveal_strlit("INT_SLESS");
    reveal_strlit("INT_SLESSEQUAL");
    reveal_strlit("INT_LESS");
    reveal_strlit("INT_LESSEQUAL");
    reveal_strlit("INT_ZEXT");
    reveal_strlit("INT_SEXT");
    reveal_strlit("INT_ADD");
    reveal_strlit("INT_SUB");
    reveal_strlit("INT_CARRY");
    reveal_strlit("INT_SCARRY");
    reveal_strlit("INT_SBORROW");
    reveal_strlit("INT_2COMP");
    reveal_strlit("INT_NEGATE");
    reveal_strlit("INT_XOR");
    reveal_strlit("INT_AND");
    reveal_strlit("INT_OR");
    reveal_strlit("INT_LEFT");
    reveal_strlit("INT_RIGHT");
    reveal_strlit("INT_SRIGHT");
    reveal_strlit("INT_MULT");
    reveal_strlit("INT_DIV");
    reveal_strlit("INT_SDIV");
    reveal_strlit("INT_REM");
    reveal_strlit("INT_SREM");
    reveal_strlit("BOOL_NEGATE");
    reveal_strlit("BOOL_XOR");
    reveal_strlit("BOOL_AND");
    reveal_strlit("BOOL_OR");
    reveal_strlit("FLOAT_EQUAL");
    reveal_strlit("FLOAT_NOTEQUAL");
    reveal_strlit("FLOAT_LESS");
    reveal_strlit("FLOAT_LESSEQUAL");
    reveal_strlit("UNUSED1");
    reveal_strlit("FLOAT_NAN");
    reveal_strlit("FLOAT_ADD");
    reveal_strlit("FLOAT_DIV");
    reveal_strlit("FLOAT_MULT");
    reveal_strlit("FLOAT_SUB");
    reveal_strlit("FLOAT_NEG");
    reveal_strlit("FLOAT_ABS");
    reveal_strlit("FLOAT_SQRT");
    reveal_strlit("INT2FLOAT");
    reveal_strlit("FLOAT2FLOAT");
    reveal_strlit("TRUNC");
    reveal_strlit("CEIL");
    reveal_strlit("FLOOR");
    reveal_strlit("ROUND");
    reveal_strlit("BUILD");
    reveal_strlit("DELAY_SLOT");
    reveal_strlit("PIECE");
    reveal_strlit("SUBPIECE");
    reveal_strlit("CAST");
    reveal_strlit("LABEL");
    reveal_strlit("CROSSBUILD");
    reveal_strlit("SEGMENTOP");
    reveal_strlit("CPOOLREF");
    reveal_strlit("NEW");
    reveal_strlit("INSERT");
    reveal_strlit("EXTRACT");
    reveal_strlit("POPCOUNT");
    reveal_strlit("LZCOUNT");
    assert(is_ascii("BLANK"));
    assert(is_ascii("COPY"));
    assert(is_ascii("LOAD"));
    assert(is_ascii("STORE"));
    assert(is_ascii("BRANCH"));
    assert(is_ascii("CBRANCH"));
    assert(is_ascii("BRANCHIND"));
    assert(is_ascii("CALL"));
    assert(is_ascii("CALLIND"));
    assert(is_ascii("CALLOTHER"));
    assert(is_ascii("RETURN"));
    assert(is_ascii("INT_EQUAL"));
    assert(is_ascii("INT_NOTEQUAL"));
    assert(is_ascii("INT_SLESS"));
    assert(is_ascii("INT_SLESSEQUAL"));
    assert(is_ascii("INT_LESS"));
    assert(is_ascii("INT_LESSEQUAL"));
    assert(is_ascii("INT_ZEXT"));
    assert(is_ascii("INT_SEXT"));
    assert(is_ascii("INT_ADD"));
    assert(is_ascii("INT_SUB"));
    assert(is_ascii("INT_CARRY"));
    assert(is_ascii("INT_SCARRY"));
    assert(is_ascii("INT_SBORROW"));
    assert(is_ascii("INT_2COMP"));
    assert(is_ascii("INT_NEGATE"));
    assert(is_ascii("INT_XOR"));
    assert(is_ascii("INT_AND"));
    assert(is_ascii("INT_OR"));
    assert(is_ascii("INT_LEFT"));
    assert(is_ascii("INT_RIGHT"));
    assert(is_ascii("INT_SRIGHT"));
    assert(is_ascii("INT_MULT"));
    assert(is_ascii("INT_DIV"));
    assert(is_ascii("INT_SDIV"));
    assert(is_ascii("INT_REM"));
    assert(is_ascii("INT_SREM"));
    assert(is_ascii("BOOL_NEGATE"));
    assert(is_ascii("BOOL_XOR"));
    assert(is_ascii("BOOL_AND"));
    assert(is_ascii("BOOL_OR"));
    assert(is_ascii("FLOAT_EQUAL"));
    assert(is_ascii("FLOAT_NOTEQUAL"));
    assert(is_ascii("FLOAT_LESS"));
    assert(is_ascii("FLOAT_LESSEQUAL"));
    assert(is_ascii("UNUSED1"));
    assert(is_ascii("FLOAT_NAN"));
    assert(is_ascii("FLOAT_ADD"));
    assert(is_ascii("FLOAT_DIV"));
    assert(is_ascii("FLOAT_MULT"));
    assert(is_ascii("FLOAT_SUB"));
    assert(is_ascii("FLOAT_NEG"));
    assert(is_ascii("FLOAT_ABS"));
    assert(is_ascii("FLOAT_SQRT"));
    assert(is_ascii("INT2FLOAT"));
    assert(is_ascii("FLOAT2FLOAT"));
    assert(is_ascii("TRUNC"));
    assert(is_ascii("CEIL"));
    assert(is_ascii("FLOOR"));
    assert(is_ascii("ROUND"));
    assert(is_ascii("BUILD"));
    assert(is_ascii("DELAY_SLOT"));
    assert(is_ascii("PIECE"));
    assert(is_ascii("SUBPIECE"));
    assert(is_ascii("CAST"));
    assert(is_ascii("LABEL"));
    assert(is_ascii("CROSSBUILD"));
    assert(is_ascii("SEGMENTOP"));
    assert(is_ascii("CPOOLREF"));
    assert(is_ascii("NEW"));
    assert(is_ascii("INSERT"));
    assert(is_ascii("EXTRACT"));
    assert(is_ascii("POPCOUNT"));
    assert(is_ascii("LZCOUNT"));
    vstd::string::is_ascii_spec_bytes("BLANK");
    vstd::string::is_ascii_spec_bytes("COPY");
    vstd::string::is_ascii_spec_bytes("LOAD");
    vstd::string::is_ascii_spec_bytes("STORE");
    vstd::string::is_ascii_spec_bytes("BRANCH");
    vstd::string::is_ascii_spec_bytes("CBRANCH");
    vstd::string::is_ascii_spec_bytes("BRANCHIND");
    vstd::string::is_ascii_spec_bytes("CALL");
    vstd::string::is_ascii_spec_bytes("CALLIND");
    vstd::string::is_ascii_spec_bytes("CALLOTHER");
    vstd::string::is_ascii_spec_bytes("RETURN");
    vstd::string::is_ascii_spec_bytes("INT_EQUAL");
    vstd::string::is_ascii_spec_bytes("INT_NOTEQUAL");
    vstd::string::is_ascii_spec_bytes("INT_SLESS");
    vstd::string::is_ascii_spec_bytes("INT_SLESSEQUAL");
    vstd::string::is_ascii_spec_bytes("INT_LESS");
    vstd::string::is_ascii_spec_bytes("INT_LESSEQUAL");
    vstd::string::is_ascii_spec_bytes("INT_ZEXT");
    vstd::string::is_ascii_spec_bytes("INT_SEXT");
    vstd::string::is_ascii_spec_bytes("INT_ADD");
    vstd::string::is_ascii_spec_bytes("INT_SUB");
    vstd::string::is_ascii_spec_bytes("INT_CARRY");
    vstd::string::is_ascii_spec_bytes("INT_SCARRY");
    vstd::string::is_ascii_spec_bytes("INT_SBORROW");
    vstd::string::is_ascii_spec_bytes("INT_2COMP");
    vstd::string::is_ascii_spec_bytes("INT_NEGATE");
    vstd::string::is_ascii_spec_bytes("INT_XOR");
    vstd::string::is_ascii_spec_bytes("INT_AND");
    vstd::string::is_ascii_spec_bytes("INT_OR");
    vstd::string::is_ascii_spec_bytes("INT_LEFT");
    vstd::string::is_ascii_spec_bytes("INT_RIGHT");
    vstd::string::is_ascii_spec_bytes("INT_SRIGHT");
    vstd::string::is_ascii_spec_bytes("INT_MULT");
    vstd::string::is_ascii_spec_bytes("INT_DIV");
    vstd::string::is_ascii_spec_bytes("INT_SDIV");
    vstd::string::is_ascii_spec_bytes("INT_REM");
    vstd::string::is_ascii_spec_bytes("INT_SREM");
    vstd::string::is_ascii_spec_bytes("BOOL_NEGATE");
    vstd::string::is_ascii_spec_bytes("BOOL_XOR");
    vstd::string::is_ascii_spec_bytes("BOOL_AND");
    vstd::string::is_ascii_spec_bytes("BOOL_OR");
    vstd::string::is_ascii_spec_bytes("FLOAT_EQUAL");
    vstd::string::is_ascii_spec_bytes("FLOAT_NOTEQUAL");
    vstd::string::is_ascii_spec_bytes("FLOAT_LESS");
    vstd::string::is_ascii_spec_bytes("FLOAT_LESSEQUAL");
    vstd::string::is_ascii_spec_bytes("UNUSED1");
    vstd::string::is_ascii_spec_bytes("FLOAT_NAN");
    vstd::string::is_ascii_spec_bytes("FLOAT_ADD");
    vstd::string::is_ascii_spec_bytes("FLOAT_DIV");
    vstd::string::is_ascii_spec_bytes("FLOAT_MULT");
    vstd::string::is_ascii_spec_bytes("FLOAT_SUB");
    vstd::string::is_ascii_spec_bytes("FLOAT_NEG");
    vstd::string::is_ascii_spec_bytes("FLOAT_ABS");
    vstd::string::is_ascii_spec_bytes("FLOAT_SQRT");
    vstd::string::is_ascii_spec_bytes("INT2FLOAT");
    vstd::string::is_ascii_spec_bytes("FLOAT2FLOAT");
    vstd::string::is_ascii_spec_bytes("TRUNC");
    vstd::string::is_ascii_spec_bytes("CEIL");
    vstd::string::is_ascii_spec_bytes("FLOOR");
    vstd::string::is_ascii_spec_bytes("ROUND");
    vstd::string::is_ascii_spec_bytes("BUILD");
    vstd::string::is_ascii_spec_bytes("DELAY_SLOT");
    vstd::string::is_ascii_spec_bytes("PIECE");
    vstd::string::is_ascii_spec_bytes("SUBPIECE");
    vstd::string::is_ascii_spec_bytes("CAST");
    vstd::string::is_ascii_spec_bytes("LABEL");
    vstd::string::is_ascii_spec_bytes("CROSSBUILD");
    vstd::string::is_ascii_spec_bytes("SEGMENTOP");
    vstd::string::is_ascii_spec_bytes("CPOOLREF");
    vstd::string::is_ascii_spec_bytes("NEW");
    vstd::string::is_ascii_spec_bytes("INSERT");
    vstd::string::is_ascii_spec_bytes("EXTRACT");
    vstd::string::is_ascii_spec_bytes("POPCOUNT");
    vstd::string::is_ascii_spec_bytes("LZCOUNT");
    assert(lit_bytes("BLANK") =~= seq![66u8, 76u8, 65u8, 78u8, 75u8]);
    assert(lit_bytes("COPY") =~= seq![67u8, 79u8, 80u8, 89u8]);
    assert(lit_bytes("LOAD") =~= seq![76u8, 79u8, 65u8, 68u8]);
    assert(lit_bytes("STORE") =~= seq![83u8, 84u8, 79u8, 82u8, 69u8]);
    assert(lit_bytes("BRANCH") =~= seq![66u8, 82u8, 65u8, 78u8, 67u8, 72u8]);
    assert(lit_bytes("CBRANCH") =~= seq![67u8, 66u8, 82u8, 65u8, 78u8, 67u8, 72u8]);
    assert(lit_bytes("BRANCHIND") =~= seq![66u8, 82u8, 65u8, 78u8, 67u8, 72u8, 73u8, 78u8, 68u8]);
    assert(lit_bytes("CALL") =~= seq![67u8, 65u8, 76u8, 76u8]);
    assert(lit_bytes("CALLIND") =~= seq![67u8, 65u8, 76u8, 76u8, 73u8, 78u8, 68u8]);
    assert(lit_bytes("CALLOTHER") =~= seq![67u8, 65u8, 76u8, 76u8, 79u8, 84u8, 72u8, 69u8, 82u8]);
    assert(lit_bytes("RETURN") =~= seq![82u8, 69u8, 84u8, 85u8, 82u8, 78u8]);
    assert(lit_bytes("INT_EQUAL") =~= seq![73u8, 78u8, 84u8, 95u8, 69u8, 81u8, 85u8, 65u8, 76u8]);
    assert(lit_bytes("INT_NOTEQUAL") =~= seq![73u8, 78u8, 84u8, 95u8, 78u8, 79u8, 84u8, 69u8, 81u8, 85u8, 65u8, 76u8]);
    assert(lit_bytes("INT_SLESS") =~= seq![73u8, 78u8, 84u8, 95u8, 83u8, 76u8, 69u8, 83u8, 83u8]);
    assert(lit_bytes("INT_SLESSEQUAL") =~= seq![73u8, 78u8, 84u8, 95u8, 83u8, 76u8, 69u8, 83u8, 83u8, 69u8, 81u8, 85u8, 65u8, 76u8]);
    assert(lit_bytes("INT_LESS") =~= seq![73u8, 78u8, 84u8, 95u8, 76u8, 69u8, 83u8, 83u8]);
    assert(lit_bytes("INT_LESSEQUAL") =~= seq![73u8, 78u8, 84u8, 95u8, 76u8, 69u8, 83u8, 83u8, 69u8, 81u8, 85u8, 65u8, 76u8]);
    assert(lit_bytes("INT_ZEXT") =~= seq![73u8, 78u8, 84u8, 95u8, 90u8, 69u8, 88u8, 84u8]);
    assert(lit_bytes("INT_SEXT") =~= seq![73u8, 78u8, 84u8, 95u8, 83u8, 69u8, 88u8, 84u8]);
    assert(lit_bytes("INT_ADD") =~= seq![73u8, 78u8, 84u8, 95u8, 65u8, 68u8, 68u8]);
    assert(lit_bytes("INT_SUB") =~= seq![73u8, 78u8, 84u8, 95u8, 83u8, 85u8, 66u8]);
    assert(lit_bytes("INT_CARRY") =~= seq![73u8, 78u8, 84u8, 95u8, 67u8, 65u8, 82u8, 82u8, 89u8]);
    assert(lit_bytes("INT_SCARRY") =~= seq![73u8, 78u8, 84u8, 95u8, 83u8, 67u8, 65u8, 82u8, 82u8, 89u8]);
    assert(lit_bytes("INT_SBORROW") =~= seq![73u8, 78u8, 84u8, 95u8, 83u8, 66u8, 79u8, 82u8, 82u8, 79u8, 87u8]);
    assert(lit_bytes("INT_2COMP") =~= seq![73u8, 78u8, 84u8, 95u8, 50u8, 67u8, 79u8, 77u8, 80u8]);
    assert(lit_bytes("INT_NEGATE") =~= seq![73u8, 78u8, 84u8, 95u8, 78u8, 69u8, 71u8, 65u8, 84u8, 69u8]);
    assert(lit_bytes("INT_XOR") =~= seq![73u8, 78u8, 84u8, 95u8, 88u8, 79u8, 82u8]);
    assert(lit_bytes("INT_AND") =~= seq![73u8, 78u8, 84u8, 95u8, 65u8, 78u8, 68u8]);
    assert(lit_bytes("INT_OR") =~= seq![73u8, 78u8, 84u8, 95u8, 79u8, 82u8]);
    assert(lit_bytes("INT_LEFT") =~= seq![73u8, 78u8, 84u8, 95u8, 76u8, 69u8, 70u8, 84u8]);
    assert(lit_bytes("INT_RIGHT") =~= seq![73u8, 78u8, 84u8, 95u8, 82u8, 73u8, 71u8, 72u8, 84u8]);
    assert(lit_bytes("INT_SRIGHT") =~= seq![73u8, 78u8, 84u8, 95u8, 83u8, 82u8, 73u8, 71u8, 72u8, 84u8]);
    assert(lit_bytes("INT_MULT") =~= seq![73u8, 78u8, 84u8, 95u8, 77u8, 85u8, 76u8, 84u8]);
    assert(lit_bytes("INT_DIV") =~= seq![73u8, 78u8, 84u8, 95u8, 68u8, 73u8, 86u8]);
    assert(lit_bytes("INT_SDIV") =~= seq![73u8, 78u8, 84u8, 95u8, 83u8, 68u8, 73u8, 86u8]);
    assert(lit_bytes("INT_REM") =~= seq![73u8, 78u8, 84u8, 95u8, 82u8, 69u8, 77u8]);
    assert(lit_bytes("INT_SREM") =~= seq![73u8, 78u8, 84u8, 95u8, 83u8, 82u8, 69u8, 77u8]);
    assert(lit_bytes("BOOL_NEGATE") =~= seq![66u8, 79u8, 79u8, 76u8, 95u8, 78u8, 69u8, 71u8, 65u8, 84u8, 69u8]);
    assert(lit_bytes("BOOL_XOR") =~= seq![66u8, 79u8, 79u8, 76u8, 95u8, 88u8, 79u8, 82u8]);
    assert(lit_bytes("BOOL_AND") =~= seq![66u8, 79u8, 79u8, 76u8, 95u8, 65u8, 78u8, 68u8]);
    assert(lit_bytes("BOOL_OR") =~= seq![66u8, 79u8, 79u8, 76u8, 95u8, 79u8, 82u8]);
    assert(lit_bytes("FLOAT_EQUAL") =~= seq![70u8, 76u8, 79u8, 65u8, 84u8, 95u8, 69u8, 81u8, 85u8, 65u8, 76u8]);
    assert(lit_bytes("FLOAT_NOTEQUAL") =~= seq![70u8, 76u8, 79u8, 65u8, 84u8, 95u8, 78u8, 79u8, 84u8, 69u8, 81u8, 85u8, 65u8, 76u8]);
    assert(lit_bytes("FLOAT_LESS") =~= seq![70u8, 76u8, 79u8, 65u8, 84u8, 95u8, 76u8, 69u8, 83u8, 83u8]);
    assert(lit_bytes("FLOAT_LESSEQUAL") =~= seq![70u8, 76u8, 79u8, 65u8, 84u8, 95u8, 76u8, 69u8, 83u8, 83u8, 69u8, 81u8, 85u8, 65u8, 76u8]);
    assert(lit_bytes("UNUSED1") =~= seq![85u8, 78u8, 85u8, 83u8, 69u8, 68u8, 49u8]);
    assert(lit_bytes("FLOAT_NAN") =~= seq![70u8, 76u8, 79u8, 65u8, 84u8, 95u8, 78u8, 65u8, 78u8]);
    assert(lit_bytes("FLOAT_ADD") =~= seq![70u8, 76u8, 79u8, 65u8, 84u8, 95u8, 65u8, 68u8, 68u8]);
    assert(lit_bytes("FLOAT_DIV") =~= seq![70u8, 76u8, 79u8, 65u8, 84u8, 95u8, 68u8, 73u8, 86u8]);
    assert(lit_bytes("FLOAT_MULT") =~= seq![70u8, 76u8, 79u8, 65u8, 84u8, 95u8, 77u8, 85u8, 76u8, 84u8]);
    assert(lit_bytes("FLOAT_SUB") =~= seq![70u8, 76u8, 79u8, 65u8, 84u8, 95u8, 83u8, 85u8, 66u8]);
    assert(lit_bytes("FLOAT_NEG") =~= seq![70u8, 76u8, 79u8, 65u8, 84u8, 95u8, 78u8, 69u8, 71u8]);
    assert(lit_bytes("FLOAT_ABS") =~= seq![70u8, 76u8, 79u8, 65u8, 84u8, 95u8, 65u8, 66u8, 83u8]);
    assert(lit_bytes("FLOAT_SQRT") =~= seq![70u8, 76u8, 79u8, 65u8, 84u8, 95u8, 83u8, 81u8, 82u8, 84u8]);
    assert(lit_bytes("INT2FLOAT") =~= seq![73u8, 78u8, 84u8, 50u8, 70u8, 76u8, 79u8, 65u8, 84u8]);
    assert(lit_bytes("FLOAT2FLOAT") =~= seq![70u8, 76u8, 79u8, 65u8, 84u8, 50u8, 70u8, 76u8, 79u8, 65u8, 84u8]);
    assert(lit_bytes("TRUNC") =~= seq![84u8, 82u8, 85u8, 78u8, 67u8]);
    assert(lit_bytes("CEIL") =~= seq![67u8, 69u8, 73u8, 76u8]);
    assert(lit_bytes("FLOOR") =~= seq![70u8, 76u8, 79u8, 79u8, 82u8]);
    assert(lit_bytes("ROUND") =~= seq![82u8, 79u8, 85u8, 78u8, 68u8]);
    assert(lit_bytes("BUILD") =~= seq![66u8, 85u8, 73u8, 76u8, 68u8]);
    assert(lit_bytes("DELAY_SLOT") =~= seq![68u8, 69u8, 76u8, 65u8, 89u8, 95u8, 83u8, 76u8, 79u8, 84u8]);
    assert(lit_bytes("PIECE") =~= seq![80u8, 73u8, 69u8, 67u8, 69u8]);
    assert(lit_bytes("SUBPIECE") =~= seq![83u8, 85u8, 66u8, 80u8, 73u8, 69u8, 67u8, 69u8]);
    assert(lit_bytes("CAST") =~= seq![67u8, 65u8, 83u8, 84u8]);
    assert(lit_bytes("LABEL") =~= seq![76u8, 65u8, 66u8, 69u8, 76u8]);
    assert(lit_bytes("CROSSBUILD") =~= seq![67u8, 82u8, 79u8, 83u8, 83u8, 66u8, 85u8, 73u8, 76u8, 68u8]);
    assert(lit_bytes("SEGMENTOP") =~= seq![83u8, 69u8, 71u8, 77u8, 69u8, 78u8, 84u8, 79u8, 80u8]);
    assert(lit_bytes("CPOOLREF") =~= seq![67u8, 80u8, 79u8, 79u8, 76u8, 82u8, 69u8, 70u8]);
    assert(lit_bytes("NEW") =~= seq![78u8, 69u8, 87u8]);
    assert(lit_bytes("INSERT") =~= seq![73u8, 78u8, 83u8, 69u8, 82u8, 84u8]);
    assert(lit_bytes("EXTRACT") =~= seq![69u8, 88u8, 84u8, 82u8, 65u8, 67u8, 84u8]);
    assert(lit_bytes("POPCOUNT") =~= seq![80u8, 79u8, 80u8, 67u8, 79u8, 85u8, 78u8, 84u8]);
    assert(lit_bytes("LZCOUNT") =~= seq![76u8, 90u8, 67u8, 79u8, 85u8, 78u8, 84u8]);
}

} // verus!
