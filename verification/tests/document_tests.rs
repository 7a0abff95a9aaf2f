//! End-to-end document tests: concrete decoding scenarios, coverage of
//! every closed tag vocabulary, the documented failure modes, deep
//! expression nesting, and determinism.

use sleigh_sla::big_int::BigInt;
use sleigh_sla::model::{
    AddrSpaceType, ConstantTemplateSelector, ConstantTemplateType, FamilySymbol, OperationCode,
    PatternExpressionType, PatternValueType, Sleigh, SleighSymbolType, SpecificSymbol,
    SymbolHeaderType, TripleSymbol, UnaryOp, ValueSymbolType,
};
use sleigh_sla::{parse, ErrorKind};

const DOC_PRE: &str = r#"<sleigh version="3" bigendian="n" align="1" uniqbase="0x100">
  <sourcefiles><sourcefile name="cpu.slaspec" index="0"/></sourcefiles>
  <spaces defaultspace="ram">
    <space name="ram" index="1" bigendian="n" delay="1" size="4" physical="y"/>
  </spaces>
  <symbol_table scopesize="1" symbolsize="1">
    <scope id="0x0" parent="0x0"/>
"#;

const DOC_POST: &str = r#"
  </symbol_table>
</sleigh>
"#;

/// A document whose single symbol is a value symbol with the given
/// pattern value.
fn value_sym_doc(patval: &str) -> String {
    format!(
        "{}{}{}{}{}",
        DOC_PRE,
        r#"<value_sym_head name="v" id="0x1" scope="0x0"/>
           <value_sym name="v" id="0x1" scope="0x0">"#,
        patval,
        "</value_sym>",
        DOC_POST
    )
}

/// A document whose single symbol is an operand symbol with the given
/// defining expression.
fn defexp_doc(expr: &str) -> String {
    format!(
        "{}{}{}{}{}",
        DOC_PRE,
        r#"<operand_sym_head name="op0" id="0x1" scope="0x0"/>
           <operand_sym name="op0" id="0x1" scope="0x0" off="0" base="0" minlen="1" index="0">
             <operand_exp index="0" table="0x2" ct="0x0"/>"#,
        expr,
        "</operand_sym>",
        DOC_POST
    )
}

/// A document whose single symbol is a subtable whose one operation
/// carries the given opcode.
fn opcode_doc(code: &str) -> String {
    format!(
        "{}{}{}{}{}",
        DOC_PRE,
        r#"<subtable_sym_head name="instruction" id="0x1" scope="0x0"/>
           <subtable_sym name="instruction" id="0x1" scope="0x0" numct="1">
             <constructor parent="0x1" first="0" length="1" line="1:1">
               <construct_tpl delay="0" labels="0">
                 <null/>
                 <op_tpl code=""#,
        code,
        r#""><null/></op_tpl>
               </construct_tpl>
             </constructor>
             <decision number="0" context="n" start="0" size="0"></decision>
           </subtable_sym>"#,
        DOC_POST
    )
}

/// A document whose single symbol is a subtable whose template result
/// holds the given constant templates.
fn const_tpl_doc(ctpl: &str) -> String {
    format!(
        "{}{}{}{}{}",
        DOC_PRE,
        r#"<subtable_sym_head name="instruction" id="0x1" scope="0x0"/>
           <subtable_sym name="instruction" id="0x1" scope="0x0" numct="1">
             <constructor parent="0x1" first="0" length="1" line="1:1">
               <construct_tpl delay="0" labels="0">
                 <null/>
                 <op_tpl code="COPY">
                   <varnode_tpl>"#,
        ctpl,
        r#"<const_tpl type="real" val="0x0"/><const_tpl type="real" val="0x4"/>
                   </varnode_tpl>
                 </op_tpl>
               </construct_tpl>
             </constructor>
             <decision number="0" context="n" start="0" size="0"></decision>
           </subtable_sym>"#,
        DOC_POST
    )
}

fn first_symbol(doc: &Sleigh) -> &SleighSymbolType {
    &doc.symbol_table.symbols[0]
}

fn patval_of(doc: &Sleigh) -> &PatternValueType {
    match first_symbol(doc) {
        SleighSymbolType::TripleSymbol(TripleSymbol::FamilySymbol(FamilySymbol::ValueSymbol(
            ValueSymbolType::ValueSymbol(v),
        ))) => &v.patval,
        other => panic!("not a value symbol: {other:?}"),
    }
}

fn defexp_of(doc: &Sleigh) -> &PatternExpressionType {
    match first_symbol(doc) {
        SleighSymbolType::TripleSymbol(TripleSymbol::SpecificSymbol(
            SpecificSymbol::OperandSymbol(o),
        )) => o.defexp.as_ref().expect("defexp present"),
        other => panic!("not an operand symbol: {other:?}"),
    }
}

fn opcode_of(doc: &Sleigh) -> OperationCode {
    match first_symbol(doc) {
        SleighSymbolType::TripleSymbol(TripleSymbol::SubtableSymbol { subtable }) => {
            subtable.constructors[0].templ.as_ref().expect("template").vec[0].code
        },
        other => panic!("not a subtable: {other:?}"),
    }
}

fn output_space_of(doc: &Sleigh) -> &ConstantTemplateType {
    match first_symbol(doc) {
        SleighSymbolType::TripleSymbol(TripleSymbol::SubtableSymbol { subtable }) => {
            let op = &subtable.constructors[0].templ.as_ref().expect("template").vec[0];
            match &op.output {
                sleigh_sla::model::OperationTemplateOutput::Output(v) => &v.space,
                other => panic!("not an output: {other:?}"),
            }
        },
        other => panic!("not a subtable: {other:?}"),
    }
}

// ---------------------------------------------------------------------
// Concrete scenarios
// ---------------------------------------------------------------------

#[test]
fn intb_parses_to_constant_42() {
    let text = value_sym_doc(r#"<intb val="42"/>"#);
    let doc = parse(text.as_bytes()).expect("parse");
    match patval_of(&doc) {
        PatternValueType::ConstantValue(c) => {
            assert_eq!(c.val, BigInt::from_u64(42));
        },
        other => panic!("not a constant: {other:?}"),
    }
}

#[test]
fn tokenfield_parses_field_by_field() {
    let text = value_sym_doc(
        r#"<tokenfield bigendian="n" signbit="n" bitstart="0" bitend="7" bytestart="0" byteend="0" shift="0"/>"#,
    );
    let doc = parse(text.as_bytes()).expect("parse");
    match patval_of(&doc) {
        PatternValueType::TokenField(tf) => {
            assert!(!tf.bigendian);
            assert!(!tf.signbit);
            assert_eq!(tf.bitstart, BigInt::from_u64(0));
            assert_eq!(tf.bitend, BigInt::from_u64(7));
            assert_eq!(tf.bytestart, BigInt::from_u64(0));
            assert_eq!(tf.byteend, BigInt::from_u64(0));
            assert_eq!(tf.shift, BigInt::from_u64(0));
        },
        other => panic!("not a token field: {other:?}"),
    }
}

#[test]
fn tokenfield_bad_boolean_names_the_attribute() {
    let text = value_sym_doc(
        r#"<tokenfield bigendian="maybe" signbit="n" bitstart="0" bitend="7" bytestart="0" byteend="0" shift="0"/>"#,
    );
    let e = parse(text.as_bytes()).expect_err("must fail");
    assert_eq!(
        e.kind,
        ErrorKind::BadAttrValue { attr: b"bigendian".to_vec(), value: b"maybe".to_vec() }
    );
}

#[test]
fn attribute_order_is_insignificant() {
    let a = value_sym_doc(r#"<intb val="42"/>"#);
    let b = a.replace(
        r#"<value_sym name="v" id="0x1" scope="0x0">"#,
        r#"<value_sym scope="0x0" name="v" id="0x1">"#,
    );
    assert_ne!(a, b);
    assert_eq!(parse(a.as_bytes()).expect("a"), parse(b.as_bytes()).expect("b"));
}

#[test]
fn parse_is_deterministic() {
    let text = value_sym_doc(r#"<intb val="-7"/>"#);
    let d1 = parse(text.as_bytes()).expect("first");
    let d2 = parse(text.as_bytes()).expect("second");
    assert_eq!(d1, d2);
}

#[test]
fn entities_unescape_in_names() {
    let text = value_sym_doc(r#"<intb val="1"/>"#).replace("cpu.slaspec", "a&amp;lt;&gt;b");
    let doc = parse(text.as_bytes()).expect("parse");
    assert_eq!(doc.sourcefiles.source_files[0].name, b"a&lt;>b".to_vec());
}

#[test]
fn root_metadata_decodes_exactly() {
    let text = value_sym_doc(r#"<intb val="1"/>"#);
    let doc = parse(text.as_bytes()).expect("parse");
    assert_eq!(doc.version, Some(BigInt::from_u64(3)));
    assert!(!doc.bigendian);
    assert_eq!(doc.align, BigInt::from_u64(1));
    assert_eq!(doc.uniqbase, BigInt::from_u64(0x100));
    assert_eq!(doc.maxdelay, None);
    assert_eq!(doc.uniqmask, None);
    assert_eq!(doc.numsections, None);
    assert_eq!(doc.spaces.defaultspace, b"ram".to_vec());
}

// ---------------------------------------------------------------------
// Deep recursion
// ---------------------------------------------------------------------

#[test]
fn deeply_nested_expression_parses() {
    let depth = 1500;
    let mut expr = String::new();
    for _ in 0..depth {
        expr.push_str("<minus_exp>");
    }
    expr.push_str(r#"<intb val="1"/>"#);
    for _ in 0..depth {
        expr.push_str("</minus_exp>");
    }
    let text = defexp_doc(&expr);
    let doc = parse(text.as_bytes()).expect("deeply nested expression");
    let mut e = defexp_of(&doc);
    let mut seen = 0usize;
    loop {
        match e {
            PatternExpressionType::UnaryExpression(u) => {
                assert_eq!(u.op, UnaryOp::Minus);
                seen += 1;
                e = &u.inner;
            },
            PatternExpressionType::PatternValue(PatternValueType::ConstantValue(c)) => {
                assert_eq!(c.val, BigInt::from_u64(1));
                break;
            },
            other => panic!("unexpected node: {other:?}"),
        }
    }
    assert_eq!(seen, depth);
}

// ---------------------------------------------------------------------
// Tagged-union completeness
// ---------------------------------------------------------------------

#[test]
fn every_space_variant_parses() {
    let tags = ["space_base", "space_unique", "space_other", "space_overlay", "space"];
    for (i, tag) in tags.iter().enumerate() {
        let text = value_sym_doc(r#"<intb val="1"/>"#).replace(
            r#"<space name="ram" index="1" bigendian="n" delay="1" size="4" physical="y"/>"#,
            &format!(
                r#"<{tag} name="ram" index="1" bigendian="n" delay="1" size="4" physical="y"/>"#
            ),
        );
        let doc = parse(text.as_bytes()).expect(tag);
        let sp = &doc.spaces.spaces[0];
        let ok = match (i, sp) {
            (0, AddrSpaceType::Base { .. }) => true,
            (1, AddrSpaceType::Unique { .. }) => true,
            (2, AddrSpaceType::Other { .. }) => true,
            (3, AddrSpaceType::Overlay { .. }) => true,
            (4, AddrSpaceType::Space { .. }) => true,
            _ => false,
        };
        assert!(ok, "wrong variant for {tag}: {sp:?}");
    }
}

#[test]
fn unknown_space_variant_is_an_error() {
    let text = value_sym_doc(r#"<intb val="1"/>"#).replace("<space name=", "<space_banked name=");
    assert!(parse(text.as_bytes()).is_err());
}

#[test]
fn every_header_variant_parses() {
    let tags = [
        "userop_head",
        "epsilon_sym_head",
        "value_sym_head",
        "valuemap_sym_head",
        "name_sym_head",
        "varnode_sym_head",
        "context_sym_head",
        "varlist_sym_head",
        "operand_sym_head",
        "start_sym_head",
        "end_sym_head",
        "next2_sym_head",
        "flowdest_sym_head",
        "flowref_sym_head",
        "subtable_sym_head",
    ];
    for (i, tag) in tags.iter().enumerate() {
        let text = format!(
            "{}{}{}{}",
            DOC_PRE,
            format!(r#"<{tag} name="x" id="0x1" scope="0x0"/>"#),
            r#"<epsilon_sym name="x" id="0x1" scope="0x0"/>"#,
            DOC_POST
        );
        let doc = parse(text.as_bytes()).expect(tag);
        let h = &doc.symbol_table.symbol_headers[0];
        let ok = match (i, h) {
            (0, SymbolHeaderType::UserOp { .. }) => true,
            (1, SymbolHeaderType::Epsilon { .. }) => true,
            (2, SymbolHeaderType::Value { .. }) => true,
            (3, SymbolHeaderType::ValueMap { .. }) => true,
            (4, SymbolHeaderType::Name { .. }) => true,
            (5, SymbolHeaderType::VarNode { .. }) => true,
            (6, SymbolHeaderType::Context { .. }) => true,
            (7, SymbolHeaderType::VarNodeList { .. }) => true,
            (8, SymbolHeaderType::Operand { .. }) => true,
            (9, SymbolHeaderType::Start { .. }) => true,
            (10, SymbolHeaderType::End { .. }) => true,
            (11, SymbolHeaderType::Next2 { .. }) => true,
            (12, SymbolHeaderType::FlowDest { .. }) => true,
            (13, SymbolHeaderType::FlowRef { .. }) => true,
            (14, SymbolHeaderType::SubTable { .. }) => true,
            _ => false,
        };
        assert!(ok, "wrong variant for {tag}: {h:?}");
    }
}

#[test]
fn every_pattern_value_variant_parses() {
    let cases: [(&str, fn(&PatternValueType) -> bool); 7] = [
        (
            r#"<tokenfield bigendian="y" signbit="y" bitstart="1" bitend="2" bytestart="3" byteend="4" shift="5"/>"#,
            |p| matches!(p, PatternValueType::TokenField(_)),
        ),
        (
            r#"<contextfield signbit="n" startbit="0" endbit="3" startbyte="0" endbyte="1" shift="2"/>"#,
            |p| matches!(p, PatternValueType::ContextField(_)),
        ),
        (r#"<intb val="9"/>"#, |p| matches!(p, PatternValueType::ConstantValue(_))),
        (
            r#"<operand_exp index="1" table="0x2" ct="0x3"/>"#,
            |p| matches!(p, PatternValueType::OperandValue(_)),
        ),
        (r#"<start_exp/>"#, |p| matches!(p, PatternValueType::StartInstructionValue)),
        (r#"<end_exp/>"#, |p| matches!(p, PatternValueType::EndInstructionValue)),
        (r#"<next2_exp/>"#, |p| matches!(p, PatternValueType::Next2InstructionValue)),
    ];
    for (snippet, check) in cases.iter() {
        let text = value_sym_doc(snippet);
        let doc = parse(text.as_bytes()).expect(snippet);
        assert!(check(patval_of(&doc)), "wrong variant for {snippet}");
    }
}

#[test]
fn unknown_pattern_value_tag_is_an_error() {
    let text = value_sym_doc(r#"<wobble val="9"/>"#);
    assert!(parse(text.as_bytes()).is_err());
}

#[test]
fn every_operator_variant_parses() {
    let binary = [
        "plus_exp", "sub_exp", "mult_exp", "lshift_exp", "rshift_exp", "and_exp", "or_exp",
        "xor_exp", "div_exp",
    ];
    for tag in binary.iter() {
        let text = defexp_doc(&format!(
            r#"<{tag}><intb val="1"/><intb val="2"/></{tag}>"#
        ));
        let doc = parse(text.as_bytes()).expect(tag);
        assert!(
            matches!(defexp_of(&doc), PatternExpressionType::BinaryExpression(_)),
            "wrong variant for {tag}"
        );
    }
    for tag in ["minus_exp", "not_exp"].iter() {
        let text = defexp_doc(&format!(r#"<{tag}><intb val="1"/></{tag}>"#));
        let doc = parse(text.as_bytes()).expect(tag);
        assert!(
            matches!(defexp_of(&doc), PatternExpressionType::UnaryExpression(_)),
            "wrong variant for {tag}"
        );
    }
}

#[test]
fn binary_operands_keep_document_order() {
    let text = defexp_doc(r#"<sub_exp><intb val="10"/><intb val="3"/></sub_exp>"#);
    let doc = parse(text.as_bytes()).expect("parse");
    match defexp_of(&doc) {
        PatternExpressionType::BinaryExpression(b) => {
            match (&b.left, &b.right) {
                (
                    PatternExpressionType::PatternValue(PatternValueType::ConstantValue(l)),
                    PatternExpressionType::PatternValue(PatternValueType::ConstantValue(r)),
                ) => {
                    assert_eq!(l.val, BigInt::from_u64(10));
                    assert_eq!(r.val, BigInt::from_u64(3));
                },
                other => panic!("unexpected operands: {other:?}"),
            }
        },
        other => panic!("not binary: {other:?}"),
    }
}

#[test]
fn every_opcode_parses() {
    let codes: [(&str, OperationCode); 74] = [
        ("BLANK", OperationCode::Blank),
        ("COPY", OperationCode::Copy),
        ("LOAD", OperationCode::Load),
        ("STORE", OperationCode::Store),
        ("BRANCH", OperationCode::Branch),
        ("CBRANCH", OperationCode::ConditionalBranch),
        ("BRANCHIND", OperationCode::BranchIndirect),
        ("CALL", OperationCode::Call),
        ("CALLIND", OperationCode::CallIndirect),
        ("CALLOTHER", OperationCode::CallOther),
        ("RETURN", OperationCode::Return),
        ("INT_EQUAL", OperationCode::IntegerEqual),
        ("INT_NOTEQUAL", OperationCode::IntegerNotEqual),
        ("INT_SLESS", OperationCode::IntegerSignedLessThan),
        ("INT_SLESSEQUAL", OperationCode::IntegerSignedLessThanOrEqual),
        ("INT_LESS", OperationCode::IntegerUnsignedLessThan),
        ("INT_LESSEQUAL", OperationCode::IntegerUnsignedLessThanOrEqual),
        ("INT_ZEXT", OperationCode::IntegerZeroExtend),
        ("INT_SEXT", OperationCode::IntegerSignExtend),
        ("INT_ADD", OperationCode::IntegerAdd),
        ("INT_SUB", OperationCode::IntegerSubtract),
        ("INT_CARRY", OperationCode::IntegerCarry),
        ("INT_SCARRY", OperationCode::IntegerSignedCarry),
        ("INT_SBORROW", OperationCode::IntegerSignedBorrow),
        ("INT_2COMP", OperationCode::IntegerTwosCompliment),
        ("INT_NEGATE", OperationCode::IntegerNegate),
        ("INT_XOR", OperationCode::IntegerXor),
        ("INT_AND", OperationCode::IntegerAnd),
        ("INT_OR", OperationCode::IntegerOr),
        ("INT_LEFT", OperationCode::IntegerLeftShift),
        ("INT_RIGHT", OperationCode::IntegerRightShift),
        ("INT_SRIGHT", OperationCode::IntegerSignedRightShift),
        ("INT_MULT", OperationCode::IntegerMultiply),
        ("INT_DIV", OperationCode::IntegerDivide),
        ("INT_SDIV", OperationCode::IntegerSignedDivide),
        ("INT_REM", OperationCode::IntegerRemainder),
        ("INT_SREM", OperationCode::IntegerSignedRemainder),
        ("BOOL_NEGATE", OperationCode::BooleanNegate),
        ("BOOL_XOR", OperationCode::BooleanXor),
        ("BOOL_AND", OperationCode::BooleanAnd),
        ("BOOL_OR", OperationCode::BooleanOr),
        ("FLOAT_EQUAL", OperationCode::FloatEqual),
        ("FLOAT_NOTEQUAL", OperationCode::FloatNotEqual),
        ("FLOAT_LESS", OperationCode::FloatLessThan),
        ("FLOAT_LESSEQUAL", OperationCode::FloatLessThanOrEqual),
        ("UNUSED1", OperationCode::Unused1),
        ("FLOAT_NAN", OperationCode::FloatNotANumber),
        ("FLOAT_ADD", OperationCode::FloatAdd),
        ("FLOAT_DIV", OperationCode::FloatDivide),
        ("FLOAT_MULT", OperationCode::FloatMultiply),
        ("FLOAT_SUB", OperationCode::FloatSubtract),
        ("FLOAT_NEG", OperationCode::FloatNegate),
        ("FLOAT_ABS", OperationCode::FloatAbsoluteValue),
        ("FLOAT_SQRT", OperationCode::FloatSquareRoot),
        ("INT2FLOAT", OperationCode::IntegerToFloat),
        ("FLOAT2FLOAT", OperationCode::FloatToFloat),
        ("TRUNC", OperationCode::Truncate),
        ("CEIL", OperationCode::Ceiling),
        ("FLOOR", OperationCode::Floor),
        ("ROUND", OperationCode::Round),
        ("BUILD", OperationCode::Build),
        ("DELAY_SLOT", OperationCode::DelaySlot),
        ("PIECE", OperationCode::Piece),
        ("SUBPIECE", OperationCode::Subpiece),
        ("CAST", OperationCode::Cast),
        ("LABEL", OperationCode::Label),
        ("CROSSBUILD", OperationCode::CrossBuild),
        ("SEGMENTOP", OperationCode::SegmentOp),
        ("CPOOLREF", OperationCode::CpoolRef),
        ("NEW", OperationCode::New),
        ("INSERT", OperationCode::Insert),
        ("EXTRACT", OperationCode::Extract),
        ("POPCOUNT", OperationCode::PopCount),
        ("LZCOUNT", OperationCode::LzCount),
    ];
    for (name, expected) in codes.iter() {
        let text = opcode_doc(name);
        let doc = parse(text.as_bytes()).expect(name);
        assert_eq!(opcode_of(&doc), *expected, "wrong opcode for {name}");
    }
}

#[test]
fn unknown_opcode_is_an_error() {
    assert!(parse(opcode_doc("FROB").as_bytes()).is_err());
    assert!(parse(opcode_doc("copy").as_bytes()).is_err());
}

#[test]
fn every_constant_template_type_parses() {
    let cases: [(&str, fn(&ConstantTemplateType) -> bool); 13] = [
        (r#"<const_tpl type="real" val="0x12"/>"#, |c| matches!(c, ConstantTemplateType::Real { .. })),
        (
            r#"<const_tpl type="handle" val="3" s="offset_plus" plus="0x8"/>"#,
            |c| matches!(
                c,
                ConstantTemplateType::Handle {
                    selector: ConstantTemplateSelector::OffsetPlus,
                    ..
                }
            ),
        ),
        (r#"<const_tpl type="start"/>"#, |c| matches!(c, ConstantTemplateType::Start)),
        (r#"<const_tpl type="end"/>"#, |c| matches!(c, ConstantTemplateType::End)),
        (r#"<const_tpl type="next"/>"#, |c| matches!(c, ConstantTemplateType::Next)),
        (r#"<const_tpl type="next2"/>"#, |c| matches!(c, ConstantTemplateType::Next2)),
        (r#"<const_tpl type="curspace"/>"#, |c| matches!(c, ConstantTemplateType::CurSpace)),
        (
            r#"<const_tpl type="curspace_size"/>"#,
            |c| matches!(c, ConstantTemplateType::CurSpaceSize),
        ),
        (
            r#"<const_tpl type="spaceid" name="ram"/>"#,
            |c| matches!(c, ConstantTemplateType::SpaceId { .. }),
        ),
        (
            r#"<const_tpl type="relative" val="0x10"/>"#,
            |c| matches!(c, ConstantTemplateType::JumpRelative { .. }),
        ),
        (r#"<const_tpl type="flowref"/>"#, |c| matches!(c, ConstantTemplateType::FlowRef)),
        (r#"<const_tpl type="flowdest"/>"#, |c| matches!(c, ConstantTemplateType::FlowDest)),
        (
            r#"<const_tpl type="flowdest_size"/>"#,
            |c| matches!(c, ConstantTemplateType::FlowDestSize),
        ),
    ];
    for (snippet, check) in cases.iter() {
        let text = const_tpl_doc(snippet);
        let doc = parse(text.as_bytes()).expect(snippet);
        assert!(check(output_space_of(&doc)), "wrong variant for {snippet}");
    }
}

#[test]
fn unknown_constant_template_type_is_an_error() {
    assert!(parse(const_tpl_doc(r#"<const_tpl type="banana"/>"#).as_bytes()).is_err());
    assert!(
        parse(const_tpl_doc(r#"<const_tpl type="handle" val="3" s="sideways"/>"#).as_bytes())
            .is_err()
    );
}

// ---------------------------------------------------------------------
// Failure modes
// ---------------------------------------------------------------------

#[test]
fn missing_required_attribute() {
    let text = value_sym_doc(r#"<intb/>"#);
    let e = parse(text.as_bytes()).expect_err("must fail");
    assert_eq!(e.kind, ErrorKind::MissingAttr(b"val".to_vec()));
}

#[test]
fn bad_integer_text() {
    let text = value_sym_doc(r#"<intb val="4x2"/>"#);
    let e = parse(text.as_bytes()).expect_err("must fail");
    assert_eq!(e.kind, ErrorKind::BadAttrValue { attr: b"val".to_vec(), value: b"4x2".to_vec() });
}

#[test]
fn decimal_field_rejects_hex_text() {
    let text = value_sym_doc(r#"<intb val="0x2a"/>"#);
    assert!(parse(text.as_bytes()).is_err());
}

#[test]
fn hex_field_rejects_decimal_text() {
    let text = value_sym_doc(r#"<intb val="1"/>"#).replace(r#"uniqbase="0x100""#, r#"uniqbase="256""#);
    assert!(parse(text.as_bytes()).is_err());
}

#[test]
fn wrong_closing_tag_names_the_expected_one() {
    let text = value_sym_doc(r#"<intb val="1"/>"#).replace("</value_sym>", "</value_sum>");
    let e = parse(text.as_bytes()).expect_err("must fail");
    assert_eq!(e.kind, ErrorKind::Expected(b"value_sym".to_vec()));
}

#[test]
fn header_and_symbol_counts_must_agree() {
    let text = format!(
        "{}{}{}",
        DOC_PRE,
        r#"<value_sym_head name="v" id="0x1" scope="0x0"/>"#,
        DOC_POST
    );
    let e = parse(text.as_bytes()).expect_err("must fail");
    assert_eq!(e.kind, ErrorKind::LengthMismatch);
}

#[test]
fn trailing_content_is_an_error() {
    let good = value_sym_doc(r#"<intb val="1"/>"#);
    assert!(parse(format!("{good}<sleigh").as_bytes()).is_err());
    assert!(parse(format!("{good}  \n ").as_bytes()).is_ok());
}

#[test]
fn truncated_document_is_an_error() {
    let good = value_sym_doc(r#"<intb val="1"/>"#);
    let cut = &good[..good.len() - 12];
    assert!(parse(cut.as_bytes()).is_err());
    assert!(parse(b"").is_err());
    assert!(parse(b"   ").is_err());
    assert!(parse(b"<sleigh").is_err());
}

#[test]
fn error_position_points_at_the_failure() {
    let text = value_sym_doc(r#"<intb val="4x2"/>"#);
    let e = parse(text.as_bytes()).expect_err("must fail");
    let at = text.find("4x2").expect("literal present");
    assert_eq!(e.pos, at);
}

#[test]
fn whitespace_between_tokens_is_insignificant() {
    let text = value_sym_doc(r#"<intb val="42"/>"#)
        .replace("<sleigh ", "<  sleigh\n  ")
        .replace(r#"align="1""#, "align\t=\n\"1\"")
        .replace(r#"<intb val="42"/>"#, "< intb val = \"42\" / >")
        .replace("</sleigh>", "< / sleigh >");
    let doc = parse(text.as_bytes()).expect("parse");
    match patval_of(&doc) {
        PatternValueType::ConstantValue(c) => assert_eq!(c.val, BigInt::from_u64(42)),
        other => panic!("not a constant: {other:?}"),
    }
}

#[test]
fn duplicate_attribute_reads_the_first_occurrence() {
    let text = value_sym_doc(r#"<intb val="42" val="7"/>"#);
    let doc = parse(text.as_bytes()).expect("parse");
    match patval_of(&doc) {
        PatternValueType::ConstantValue(c) => assert_eq!(c.val, BigInt::from_u64(42)),
        other => panic!("not a constant: {other:?}"),
    }
}
