//! The document model: the tree a successful parse produces.
//!
//! All entities are immutable pure data, owned top-down; cross references
//! are numeric ids, never pointers.  Numeric fields are unbounded
//! [`BigInt`] values; string fields are entity-unescaped byte strings.
//!
//! Each type has a specification-level mirror (the `..V` types) built
//! from `int`, `Seq` and `Option`, reached through `View`; the parser
//! specifications are stated over the mirrors.

use vstd::prelude::*;
use crate::big_int::BigInt;

verus! {

broadcast use vstd::seq::group_seq_axioms, vstd::std_specs::vec::group_vec_axioms;

/// The view of a list of viewable values.
pub open spec fn vec_view<T: View>(v: Seq<T>) -> Seq<T::V> {
    v.map_values(|x: T| x@)
}

/// The view of an optional integer field.
pub open spec fn opt_int_view(o: Option<BigInt>) -> Option<int> {
    match o {
        Some(b) => Some(b@),
        None => None,
    }
}

/// The view of an optional string field.
pub open spec fn opt_bytes_view(o: Option<Vec<u8>>) -> Option<Seq<u8>> {
    match o {
        Some(v) => Some(v@),
        None => None,
    }
}

// ---------------------------------------------------------------------
// Source files
// ---------------------------------------------------------------------

/// One compilation source file: display name and integer index.
#[derive(Debug, PartialEq, Eq)]
pub struct SourceFile {
    pub name: Vec<u8>,
    pub index: BigInt,
}

pub struct SourceFileV {
    pub name: Seq<u8>,
    pub index: int,
}

impl View for SourceFile {
    type V = SourceFileV;

    open spec fn view(&self) -> SourceFileV {
        SourceFileV { name: self.name@, index: self.index@ }
    }
}

/// The ordered source-file list.
#[derive(Debug, PartialEq, Eq)]
pub struct SourceFiles {
    pub source_files: Vec<SourceFile>,
}

pub struct SourceFilesV {
    pub source_files: Seq<SourceFileV>,
}

impl View for SourceFiles {
    type V = SourceFilesV;

    open spec fn view(&self) -> SourceFilesV {
        SourceFilesV { source_files: vec_view(self.source_files@) }
    }
}

// ---------------------------------------------------------------------
// Address spaces
// ---------------------------------------------------------------------

/// The record shared by every address-space variant.
#[derive(Debug, PartialEq, Eq)]
pub struct AddrSpace {
    pub name: Vec<u8>,
    pub index: BigInt,
    pub bigendian: bool,
    pub delay: BigInt,
    pub deadcodedelay: Option<BigInt>,
    pub size: BigInt,
    pub wordsize: Option<BigInt>,
    pub physical: bool,
}

pub struct AddrSpaceV {
    pub name: Seq<u8>,
    pub index: int,
    pub bigendian: bool,
    pub delay: int,
    pub deadcodedelay: Option<int>,
    pub size: int,
    pub wordsize: Option<int>,
    pub physical: bool,
}

impl View for AddrSpace {
    type V = AddrSpaceV;

    open spec fn view(&self) -> AddrSpaceV {
        AddrSpaceV {
            name: self.name@,
            index: self.index@,
            bigendian: self.bigendian,
            delay: self.delay@,
            deadcodedelay: opt_int_view(self.deadcodedelay),
            size: self.size@,
            wordsize: opt_int_view(self.wordsize),
            physical: self.physical,
        }
    }
}

/// An address space tagged with its role.
#[derive(Debug, PartialEq, Eq)]
pub enum AddrSpaceType {
    Base { space: AddrSpace },
    Unique { space: AddrSpace },
    Other { space: AddrSpace },
    Overlay { space: AddrSpace },
    Space { space: AddrSpace },
}

pub enum AddrSpaceTypeV {
    Base(AddrSpaceV),
    Unique(AddrSpaceV),
    Other(AddrSpaceV),
    Overlay(AddrSpaceV),
    Space(AddrSpaceV),
}

impl View for AddrSpaceType {
    type V = AddrSpaceTypeV;

    open spec fn view(&self) -> AddrSpaceTypeV {
        match self {
            AddrSpaceType::Base { space } => AddrSpaceTypeV::Base(space@),
            AddrSpaceType::Unique { space } => AddrSpaceTypeV::Unique(space@),
            AddrSpaceType::Other { space } => AddrSpaceTypeV::Other(space@),
            AddrSpaceType::Overlay { space } => AddrSpaceTypeV::Overlay(space@),
            AddrSpaceType::Space { space } => AddrSpaceTypeV::Space(space@),
        }
    }
}

/// The space table: default-space name plus the ordered spaces.
#[derive(Debug, PartialEq, Eq)]
pub struct Spaces {
    pub defaultspace: Vec<u8>,
    pub spaces: Vec<AddrSpaceType>,
}

pub struct SpacesV {
    pub defaultspace: Seq<u8>,
    pub spaces: Seq<AddrSpaceTypeV>,
}

impl View for Spaces {
    type V = SpacesV;

    open spec fn view(&self) -> SpacesV {
        SpacesV { defaultspace: self.defaultspace@, spaces: vec_view(self.spaces@) }
    }
}

// ---------------------------------------------------------------------
// Symbol table scaffolding
// ---------------------------------------------------------------------

/// One scope: id and parent id (scope 0 is its own parent).
#[derive(Debug, PartialEq, Eq)]
pub struct Scope {
    pub id: BigInt,
    pub parent: BigInt,
}

pub struct ScopeV {
    pub id: int,
    pub parent: int,
}

impl View for Scope {
    type V = ScopeV;

    open spec fn view(&self) -> ScopeV {
        ScopeV { id: self.id@, parent: self.parent@ }
    }
}

/// The header every symbol carries: name, id, owning scope id.
#[derive(Debug, PartialEq, Eq)]
pub struct SymbolHeader {
    pub name: Vec<u8>,
    pub id: BigInt,
    pub scope: BigInt,
}

pub struct SymbolHeaderV {
    pub name: Seq<u8>,
    pub id: int,
    pub scope: int,
}

impl View for SymbolHeader {
    type V = SymbolHeaderV;

    open spec fn view(&self) -> SymbolHeaderV {
        SymbolHeaderV { name: self.name@, id: self.id@, scope: self.scope@ }
    }
}

/// A symbol header tagged with the variant of the symbol it announces.
#[derive(Debug, PartialEq, Eq)]
pub enum SymbolHeaderType {
    UserOp { header: SymbolHeader },
    Epsilon { header: SymbolHeader },
    Value { header: SymbolHeader },
    ValueMap { header: SymbolHeader },
    Name { header: SymbolHeader },
    VarNode { header: SymbolHeader },
    Context { header: SymbolHeader },
    VarNodeList { header: SymbolHeader },
    Operand { header: SymbolHeader },
    Start { header: SymbolHeader },
    End { header: SymbolHeader },
    Next2 { header: SymbolHeader },
    FlowDest { header: SymbolHeader },
    FlowRef { header: SymbolHeader },
    SubTable { header: SymbolHeader },
}

pub enum SymbolHeaderTypeV {
    UserOp(SymbolHeaderV),
    Epsilon(SymbolHeaderV),
    Value(SymbolHeaderV),
    ValueMap(SymbolHeaderV),
    Name(SymbolHeaderV),
    VarNode(SymbolHeaderV),
    Context(SymbolHeaderV),
    VarNodeList(SymbolHeaderV),
    Operand(SymbolHeaderV),
    Start(SymbolHeaderV),
    End(SymbolHeaderV),
    Next2(SymbolHeaderV),
    FlowDest(SymbolHeaderV),
    FlowRef(SymbolHeaderV),
    SubTable(SymbolHeaderV),
}

impl View for SymbolHeaderType {
    type V = SymbolHeaderTypeV;

    open spec fn view(&self) -> SymbolHeaderTypeV {
        match self {
            SymbolHeaderType::UserOp { header } => SymbolHeaderTypeV::UserOp(header@),
            SymbolHeaderType::Epsilon { header } => SymbolHeaderTypeV::Epsilon(header@),
            SymbolHeaderType::Value { header } => SymbolHeaderTypeV::Value(header@),
            SymbolHeaderType::ValueMap { header } => SymbolHeaderTypeV::ValueMap(header@),
            SymbolHeaderType::Name { header } => SymbolHeaderTypeV::Name(header@),
            SymbolHeaderType::VarNode { header } => SymbolHeaderTypeV::VarNode(header@),
            SymbolHeaderType::Context { header } => SymbolHeaderTypeV::Context(header@),
            SymbolHeaderType::VarNodeList { header } => SymbolHeaderTypeV::VarNodeList(header@),
            SymbolHeaderType::Operand { header } => SymbolHeaderTypeV::Operand(header@),
            SymbolHeaderType::Start { header } => SymbolHeaderTypeV::Start(header@),
            SymbolHeaderType::End { header } => SymbolHeaderTypeV::End(header@),
            SymbolHeaderType::Next2 { header } => SymbolHeaderTypeV::Next2(header@),
            SymbolHeaderType::FlowDest { header } => SymbolHeaderTypeV::FlowDest(header@),
            SymbolHeaderType::FlowRef { header } => SymbolHeaderTypeV::FlowRef(header@),
            SymbolHeaderType::SubTable { header } => SymbolHeaderTypeV::SubTable(header@),
        }
    }
}

// ---------------------------------------------------------------------
// Pattern expressions
// ---------------------------------------------------------------------

/// A token-field extraction: a bit and byte range with shift and flags.
#[derive(Debug, PartialEq, Eq)]
pub struct TokenField {
    pub bigendian: bool,
    pub signbit: bool,
    pub bitstart: BigInt,
    pub bitend: BigInt,
    pub bytestart: BigInt,
    pub byteend: BigInt,
    pub shift: BigInt,
}

pub struct TokenFieldV {
    pub bigendian: bool,
    pub signbit: bool,
    pub bitstart: int,
    pub bitend: int,
    pub bytestart: int,
    pub byteend: int,
    pub shift: int,
}

impl View for TokenField {
    type V = TokenFieldV;

    open spec fn view(&self) -> TokenFieldV {
        TokenFieldV {
            bigendian: self.bigendian,
            signbit: self.signbit,
            bitstart: self.bitstart@,
            bitend: self.bitend@,
            bytestart: self.bytestart@,
            byteend: self.byteend@,
            shift: self.shift@,
        }
    }
}

/// A context-field extraction.
#[derive(Debug, PartialEq, Eq)]
pub struct ContextField {
    pub signbit: bool,
    pub startbit: BigInt,
    pub endbit: BigInt,
    pub startbyte: BigInt,
    pub endbyte: BigInt,
    pub shift: BigInt,
}

pub struct ContextFieldV {
    pub signbit: bool,
    pub startbit: int,
    pub endbit: int,
    pub startbyte: int,
    pub endbyte: int,
    pub shift: int,
}

impl View for ContextField {
    type V = ContextFieldV;

    open spec fn view(&self) -> ContextFieldV {
        ContextFieldV {
            signbit: self.signbit,
            startbit: self.startbit@,
            endbit: self.endbit@,
            startbyte: self.startbyte@,
            endbyte: self.endbyte@,
            shift: self.shift@,
        }
    }
}

/// A constant pattern value.
#[derive(Debug, PartialEq, Eq)]
pub struct ConstantValue {
    pub val: BigInt,
}

pub struct ConstantValueV {
    pub val: int,
}

impl View for ConstantValue {
    type V = ConstantValueV;

    open spec fn view(&self) -> ConstantValueV {
        ConstantValueV { val: self.val@ }
    }
}

/// An operand reference: index, owning table id, constructor id.
#[derive(Debug, PartialEq, Eq)]
pub struct OperandValue {
    pub index: BigInt,
    pub table: BigInt,
    pub constructor_id: BigInt,
}

pub struct OperandValueV {
    pub index: int,
    pub table: int,
    pub constructor_id: int,
}

impl View for OperandValue {
    type V = OperandValueV;

    open spec fn view(&self) -> OperandValueV {
        OperandValueV {
            index: self.index@,
            table: self.table@,
            constructor_id: self.constructor_id@,
        }
    }
}

/// A leaf pattern value.
#[derive(Debug, PartialEq, Eq)]
pub enum PatternValueType {
    TokenField(TokenField),
    ContextField(ContextField),
    ConstantValue(ConstantValue),
    OperandValue(OperandValue),
    StartInstructionValue,
    EndInstructionValue,
    Next2InstructionValue,
}

pub enum PatternValueTypeV {
    TokenField(TokenFieldV),
    ContextField(ContextFieldV),
    ConstantValue(ConstantValueV),
    OperandValue(OperandValueV),
    StartInstructionValue,
    EndInstructionValue,
    Next2InstructionValue,
}

impl View for PatternValueType {
    type V = PatternValueTypeV;

    open spec fn view(&self) -> PatternValueTypeV {
        match self {
            PatternValueType::TokenField(x) => PatternValueTypeV::TokenField(x@),
            PatternValueType::ContextField(x) => PatternValueTypeV::ContextField(x@),
            PatternValueType::ConstantValue(x) => PatternValueTypeV::ConstantValue(x@),
            PatternValueType::OperandValue(x) => PatternValueTypeV::OperandValue(x@),
            PatternValueType::StartInstructionValue => PatternValueTypeV::StartInstructionValue,
            PatternValueType::EndInstructionValue => PatternValueTypeV::EndInstructionValue,
            PatternValueType::Next2InstructionValue => PatternValueTypeV::Next2InstructionValue,
        }
    }
}

/// The nine binary operators.
#[derive(Debug, PartialEq, Eq, Clone, Copy)]
pub enum BinaryOp {
    Plus,
    Sub,
    Mult,
    LeftShift,
    RightShift,
    And,
    Or,
    Xor,
    Div,
}

/// The two unary operators.
#[derive(Debug, PartialEq, Eq, Clone, Copy)]
pub enum UnaryOp {
    Minus,
    Not,
}

/// A pattern expression: a leaf value, or an operator applied to child
/// expressions in document order (first child is the left operand).
#[derive(Debug, PartialEq, Eq)]
pub enum PatternExpressionType {
    PatternValue(PatternValueType),
    BinaryExpression(Box<BinaryExpressionType>),
    UnaryExpression(Box<UnaryExpressionType>),
}

/// A binary operator node.
#[derive(Debug, PartialEq, Eq)]
pub struct BinaryExpressionType {
    pub op: BinaryOp,
    pub left: PatternExpressionType,
    pub right: PatternExpressionType,
}

/// A unary operator node.
#[derive(Debug, PartialEq, Eq)]
pub struct UnaryExpressionType {
    pub op: UnaryOp,
    pub inner: PatternExpressionType,
}

/// The mirror of a pattern expression: operator nodes carry their
/// children as a sequence (two for binary, one for unary).
pub enum PatternExpressionTypeV {
    PatternValue(PatternValueTypeV),
    Binary(BinaryOp, Seq<PatternExpressionTypeV>),
    Unary(UnaryOp, Seq<PatternExpressionTypeV>),
}

pub open spec fn expr_v(e: PatternExpressionType) -> PatternExpressionTypeV
    decreases e,
{
    match e {
        PatternExpressionType::PatternValue(v) => PatternExpressionTypeV::PatternValue(v@),
        PatternExpressionType::BinaryExpression(b) => PatternExpressionTypeV::Binary(
            b.op,
            seq![expr_v(b.left), expr_v(b.right)],
        ),
        PatternExpressionType::UnaryExpression(u) => PatternExpressionTypeV::Unary(
            u.op,
            seq![expr_v(u.inner)],
        ),
    }
}

impl View for PatternExpressionType {
    type V = PatternExpressionTypeV;

    open spec fn view(&self) -> PatternExpressionTypeV {
        expr_v(*self)
    }
}

// ---------------------------------------------------------------------
// Constructors: operands, print pieces, context changes
// ---------------------------------------------------------------------

/// A constructor operand: a symbol-table id.
#[derive(Debug, PartialEq, Eq)]
pub struct ConstructorOperand {
    pub id: BigInt,
}

pub struct ConstructorOperandV {
    pub id: int,
}

impl View for ConstructorOperand {
    type V = ConstructorOperandV;

    open spec fn view(&self) -> ConstructorOperandV {
        ConstructorOperandV { id: self.id@ }
    }
}

/// A print placeholder for an operand.
#[derive(Debug, PartialEq, Eq)]
pub struct OperandPrint {
    pub id: BigInt,
}

pub struct OperandPrintV {
    pub id: int,
}

impl View for OperandPrint {
    type V = OperandPrintV;

    open spec fn view(&self) -> OperandPrintV {
        OperandPrintV { id: self.id@ }
    }
}

/// A literal print fragment.
#[derive(Debug, PartialEq, Eq)]
pub struct Print {
    pub piece: Vec<u8>,
}

pub struct PrintV {
    pub piece: Seq<u8>,
}

impl View for Print {
    type V = PrintV;

    open spec fn view(&self) -> PrintV {
        PrintV { piece: self.piece@ }
    }
}

/// One element of a constructor's print syntax.
#[derive(Debug, PartialEq, Eq)]
pub enum PrintPieceType {
    Operand(OperandPrint),
    Print(Print),
}

pub enum PrintPieceTypeV {
    Operand(OperandPrintV),
    Print(PrintV),
}

impl View for PrintPieceType {
    type V = PrintPieceTypeV;

    open spec fn view(&self) -> PrintPieceTypeV {
        match self {
            PrintPieceType::Operand(x) => PrintPieceTypeV::Operand(x@),
            PrintPieceType::Print(x) => PrintPieceTypeV::Print(x@),
        }
    }
}

/// A masked-and-shifted context assignment from a pattern expression.
#[derive(Debug, PartialEq, Eq)]
pub struct Operation {
    pub i: BigInt,
    pub shift: BigInt,
    pub mask: BigInt,
    pub patexp: PatternExpressionType,
}

pub struct OperationV {
    pub i: int,
    pub shift: int,
    pub mask: int,
    pub patexp: PatternExpressionTypeV,
}

impl View for Operation {
    type V = OperationV;

    open spec fn view(&self) -> OperationV {
        OperationV { i: self.i@, shift: self.shift@, mask: self.mask@, patexp: self.patexp@ }
    }
}

/// A commit marking which context bits propagate across a delay slot.
#[derive(Debug, PartialEq, Eq)]
pub struct Commit {
    pub id: BigInt,
    pub num: BigInt,
    pub mask: BigInt,
    pub flow: bool,
}

pub struct CommitV {
    pub id: int,
    pub num: int,
    pub mask: int,
    pub flow: bool,
}

impl View for Commit {
    type V = CommitV;

    open spec fn view(&self) -> CommitV {
        CommitV { id: self.id@, num: self.num@, mask: self.mask@, flow: self.flow }
    }
}

/// One context-change action of a constructor.
#[derive(Debug, PartialEq, Eq)]
pub enum ContextChangeType {
    Operation(Operation),
    Commit(Commit),
}

pub enum ContextChangeTypeV {
    Operation(OperationV),
    Commit(CommitV),
}

impl View for ContextChangeType {
    type V = ContextChangeTypeV;

    open spec fn view(&self) -> ContextChangeTypeV {
        match self {
            ContextChangeType::Operation(x) => ContextChangeTypeV::Operation(x@),
            ContextChangeType::Commit(x) => ContextChangeTypeV::Commit(x@),
        }
    }
}

// ---------------------------------------------------------------------
// Pcode templates
// ---------------------------------------------------------------------

/// The selector of a handle-relative constant.
#[derive(Debug, PartialEq, Eq, Clone, Copy)]
pub enum ConstantTemplateSelector {
    Space,
    Offset,
    Size,
    OffsetPlus,
}

/// A constant template: a literal, a handle-relative reference, or a
/// contextual marker, keyed by the `type` attribute value.
#[derive(Debug, PartialEq, Eq)]
pub enum ConstantTemplateType {
    Real { val: BigInt },
    Handle { val: BigInt, selector: ConstantTemplateSelector, plus: Option<BigInt> },
    Start,
    End,
    Next,
    Next2,
    CurSpace,
    CurSpaceSize,
    SpaceId { name: Vec<u8> },
    JumpRelative { val: BigInt },
    FlowRef,
    FlowDest,
    FlowDestSize,
}

pub enum ConstantTemplateTypeV {
    Real(int),
    Handle { val: int, selector: ConstantTemplateSelector, plus: Option<int> },
    Start,
    End,
    Next,
    Next2,
    CurSpace,
    CurSpaceSize,
    SpaceId(Seq<u8>),
    JumpRelative(int),
    FlowRef,
    FlowDest,
    FlowDestSize,
}

impl View for ConstantTemplateType {
    type V = ConstantTemplateTypeV;

    open spec fn view(&self) -> ConstantTemplateTypeV {
        match self {
            ConstantTemplateType::Real { val } => ConstantTemplateTypeV::Real(val@),
            ConstantTemplateType::Handle { val, selector, plus } => ConstantTemplateTypeV::Handle {
                val: val@,
                selector: *selector,
                plus: opt_int_view(*plus),
            },
            ConstantTemplateType::Start => ConstantTemplateTypeV::Start,
            ConstantTemplateType::End => ConstantTemplateTypeV::End,
            ConstantTemplateType::Next => ConstantTemplateTypeV::Next,
            ConstantTemplateType::Next2 => ConstantTemplateTypeV::Next2,
            ConstantTemplateType::CurSpace => ConstantTemplateTypeV::CurSpace,
            ConstantTemplateType::CurSpaceSize => ConstantTemplateTypeV::CurSpaceSize,
            ConstantTemplateType::SpaceId { name } => ConstantTemplateTypeV::SpaceId(name@),
            ConstantTemplateType::JumpRelative { val } => ConstantTemplateTypeV::JumpRelative(
                val@,
            ),
            ConstantTemplateType::FlowRef => ConstantTemplateTypeV::FlowRef,
            ConstantTemplateType::FlowDest => ConstantTemplateTypeV::FlowDest,
            ConstantTemplateType::FlowDestSize => ConstantTemplateTypeV::FlowDestSize,
        }
    }
}

/// A handle template: seven constant templates.
#[derive(Debug, PartialEq, Eq)]
pub struct HandleTemplate {
    pub space: ConstantTemplateType,
    pub size: ConstantTemplateType,
    pub ptrspace: ConstantTemplateType,
    pub ptroffset: ConstantTemplateType,
    pub ptrsize: ConstantTemplateType,
    pub temp_space: ConstantTemplateType,
    pub temp_offset: ConstantTemplateType,
}

pub struct HandleTemplateV {
    pub space: ConstantTemplateTypeV,
    pub size: ConstantTemplateTypeV,
    pub ptrspace: ConstantTemplateTypeV,
    pub ptroffset: ConstantTemplateTypeV,
    pub ptrsize: ConstantTemplateTypeV,
    pub temp_space: ConstantTemplateTypeV,
    pub temp_offset: ConstantTemplateTypeV,
}

impl View for HandleTemplate {
    type V = HandleTemplateV;

    open spec fn view(&self) -> HandleTemplateV {
        HandleTemplateV {
            space: self.space@,
            size: self.size@,
            ptrspace: self.ptrspace@,
            ptroffset: self.ptroffset@,
            ptrsize: self.ptrsize@,
            temp_space: self.temp_space@,
            temp_offset: self.temp_offset@,
        }
    }
}

/// A varnode template: space, offset and size constant templates.
#[derive(Debug, PartialEq, Eq)]
pub struct VarNodeTemplate {
    pub space: ConstantTemplateType,
    pub offset: ConstantTemplateType,
    pub size: ConstantTemplateType,
}

pub struct VarNodeTemplateV {
    pub space: ConstantTemplateTypeV,
    pub offset: ConstantTemplateTypeV,
    pub size: ConstantTemplateTypeV,
}

impl View for VarNodeTemplate {
    type V = VarNodeTemplateV;

    open spec fn view(&self) -> VarNodeTemplateV {
        VarNodeTemplateV { space: self.space@, offset: self.offset@, size: self.size@ }
    }
}

/// The fixed pcode opcode vocabulary.
#[derive(Debug, PartialEq, Eq, Clone, Copy)]
pub enum OperationCode {
    Blank,
    Copy,
    Load,
    Store,
    Branch,
    ConditionalBranch,
    BranchIndirect,
    Call,
    CallIndirect,
    CallOther,
    Return,
    IntegerEqual,
    IntegerNotEqual,
    IntegerSignedLessThan,
    IntegerSignedLessThanOrEqual,
    IntegerUnsignedLessThan,
    IntegerUnsignedLessThanOrEqual,
    IntegerZeroExtend,
    IntegerSignExtend,
    IntegerAdd,
    IntegerSubtract,
    IntegerCarry,
    IntegerSignedCarry,
    IntegerSignedBorrow,
    IntegerTwosCompliment,
    IntegerNegate,
    IntegerXor,
    IntegerAnd,
    IntegerOr,
    IntegerLeftShift,
    IntegerRightShift,
    IntegerSignedRightShift,
    IntegerMultiply,
    IntegerDivide,
    IntegerSignedDivide,
    IntegerRemainder,
    IntegerSignedRemainder,
    BooleanNegate,
    BooleanXor,
    BooleanAnd,
    BooleanOr,
    FloatEqual,
    FloatNotEqual,
    FloatLessThan,
    FloatLessThanOrEqual,
    Unused1,
    FloatNotANumber,
    FloatAdd,
    FloatDivide,
    FloatMultiply,
    FloatSubtract,
    FloatNegate,
    FloatAbsoluteValue,
    FloatSquareRoot,
    IntegerToFloat,
    FloatToFloat,
    Truncate,
    Ceiling,
    Floor,
    Round,
    Build,
    DelaySlot,
    Piece,
    Subpiece,
    Cast,
    Label,
    CrossBuild,
    SegmentOp,
    CpoolRef,
    New,
    Insert,
    Extract,
    PopCount,
    LzCount,
}

/// The output slot of an operation template.
#[derive(Debug, PartialEq, Eq)]
pub enum OperationTemplateOutput {
    Null,
    Output(VarNodeTemplate),
}

pub enum OperationTemplateOutputV {
    Null,
    Output(VarNodeTemplateV),
}

impl View for OperationTemplateOutput {
    type V = OperationTemplateOutputV;

    open spec fn view(&self) -> OperationTemplateOutputV {
        match self {
            OperationTemplateOutput::Null => OperationTemplateOutputV::Null,
            OperationTemplateOutput::Output(x) => OperationTemplateOutputV::Output(x@),
        }
    }
}

/// One pcode operation: opcode, output slot, ordered inputs.
#[derive(Debug, PartialEq, Eq)]
pub struct OperationTemplate {
    pub code: OperationCode,
    pub output: OperationTemplateOutput,
    pub input: Vec<VarNodeTemplate>,
}

pub struct OperationTemplateV {
    pub code: OperationCode,
    pub output: OperationTemplateOutputV,
    pub input: Seq<VarNodeTemplateV>,
}

impl View for OperationTemplate {
    type V = OperationTemplateV;

    open spec fn view(&self) -> OperationTemplateV {
        OperationTemplateV {
            code: self.code,
            output: self.output@,
            input: vec_view(self.input@),
        }
    }
}

/// The result slot of a constructor template.
#[derive(Debug, PartialEq, Eq)]
pub enum ConstructorTemplateResult {
    Null,
    Handle(HandleTemplate),
}

pub enum ConstructorTemplateResultV {
    Null,
    Handle(HandleTemplateV),
}

impl View for ConstructorTemplateResult {
    type V = ConstructorTemplateResultV;

    open spec fn view(&self) -> ConstructorTemplateResultV {
        match self {
            ConstructorTemplateResult::Null => ConstructorTemplateResultV::Null,
            ConstructorTemplateResult::Handle(x) => ConstructorTemplateResultV::Handle(x@),
        }
    }
}

/// A pcode template of a constructor: metadata, result handle, and the
/// ordered operations.
#[derive(Debug, PartialEq, Eq)]
pub struct ConstructorTemplate {
    pub section: Option<BigInt>,
    pub delay: Option<BigInt>,
    pub numlabels: Option<BigInt>,
    pub result: ConstructorTemplateResult,
    pub vec: Vec<OperationTemplate>,
}

pub struct ConstructorTemplateV {
    pub section: Option<int>,
    pub delay: Option<int>,
    pub numlabels: Option<int>,
    pub result: ConstructorTemplateResultV,
    pub vec: Seq<OperationTemplateV>,
}

impl View for ConstructorTemplate {
    type V = ConstructorTemplateV;

    open spec fn view(&self) -> ConstructorTemplateV {
        ConstructorTemplateV {
            section: opt_int_view(self.section),
            delay: opt_int_view(self.delay),
            numlabels: opt_int_view(self.numlabels),
            result: self.result@,
            vec: vec_view(self.vec@),
        }
    }
}

/// One decoding rule of a subtable.
#[derive(Debug, PartialEq, Eq)]
pub struct Constructor {
    pub parent: BigInt,
    pub first: BigInt,
    pub length: BigInt,
    pub line: (BigInt, BigInt),
    pub operands: Vec<ConstructorOperand>,
    pub printpiece: Vec<PrintPieceType>,
    pub contexts: Vec<ContextChangeType>,
    pub templ: Option<ConstructorTemplate>,
    pub namedtempl: Vec<ConstructorTemplate>,
}

pub struct ConstructorV {
    pub parent: int,
    pub first: int,
    pub length: int,
    pub line: (int, int),
    pub operands: Seq<ConstructorOperandV>,
    pub printpiece: Seq<PrintPieceTypeV>,
    pub contexts: Seq<ContextChangeTypeV>,
    pub templ: Option<ConstructorTemplateV>,
    pub namedtempl: Seq<ConstructorTemplateV>,
}

impl View for Constructor {
    type V = ConstructorV;

    open spec fn view(&self) -> ConstructorV {
        ConstructorV {
            parent: self.parent@,
            first: self.first@,
            length: self.length@,
            line: (self.line.0@, self.line.1@),
            operands: vec_view(self.operands@),
            printpiece: vec_view(self.printpiece@),
            contexts: vec_view(self.contexts@),
            templ: match self.templ {
                Some(t) => Some(t@),
                None => None,
            },
            namedtempl: vec_view(self.namedtempl@),
        }
    }
}

// ---------------------------------------------------------------------
// Bit patterns and decision trees
// ---------------------------------------------------------------------

/// One (mask, value) word of a bit pattern.
#[derive(Debug, PartialEq, Eq)]
pub struct PatternBlockWord {
    pub mask: BigInt,
    pub val: BigInt,
}

pub struct PatternBlockWordV {
    pub mask: int,
    pub val: int,
}

impl View for PatternBlockWord {
    type V = PatternBlockWordV;

    open spec fn view(&self) -> PatternBlockWordV {
        PatternBlockWordV { mask: self.mask@, val: self.val@ }
    }
}

/// A bit pattern: byte offset, nonzero flag, ordered mask words.
#[derive(Debug, PartialEq, Eq)]
pub struct PatternBlock {
    pub offset: BigInt,
    pub nonzero: BigInt,
    pub mask_vals: Vec<PatternBlockWord>,
}

pub struct PatternBlockV {
    pub offset: int,
    pub nonzero: int,
    pub mask_vals: Seq<PatternBlockWordV>,
}

impl View for PatternBlock {
    type V = PatternBlockV;

    open spec fn view(&self) -> PatternBlockV {
        PatternBlockV {
            offset: self.offset@,
            nonzero: self.nonzero@,
            mask_vals: vec_view(self.mask_vals@),
        }
    }
}

/// A pattern over instruction bits.
#[derive(Debug, PartialEq, Eq)]
pub struct InstructionPattern {
    pub mask_value: PatternBlock,
}

pub struct InstructionPatternV {
    pub mask_value: PatternBlockV,
}

impl View for InstructionPattern {
    type V = InstructionPatternV;

    open spec fn view(&self) -> InstructionPatternV {
        InstructionPatternV { mask_value: self.mask_value@ }
    }
}

/// A pattern over context bits.
#[derive(Debug, PartialEq, Eq)]
pub struct ContextPattern {
    pub mask_value: PatternBlock,
}

pub struct ContextPatternV {
    pub mask_value: PatternBlockV,
}

impl View for ContextPattern {
    type V = ContextPatternV;

    open spec fn view(&self) -> ContextPatternV {
        ContextPatternV { mask_value: self.mask_value@ }
    }
}

/// A combined context-and-instruction pattern.
#[derive(Debug, PartialEq, Eq)]
pub struct CombinePattern {
    pub context: ContextPattern,
    pub instr: InstructionPattern,
}

pub struct CombinePatternV {
    pub context: ContextPatternV,
    pub instr: InstructionPatternV,
}

impl View for CombinePattern {
    type V = CombinePatternV;

    open spec fn view(&self) -> CombinePatternV {
        CombinePatternV { context: self.context@, instr: self.instr@ }
    }
}

/// A disjoint pattern: instruction bits, context bits, or both.
#[derive(Debug, PartialEq, Eq)]
pub enum DisjointPatternType {
    Instruction(InstructionPattern),
    Context(ContextPattern),
    Combine(CombinePattern),
}

pub enum DisjointPatternTypeV {
    Instruction(InstructionPatternV),
    Context(ContextPatternV),
    Combine(CombinePatternV),
}

impl View for DisjointPatternType {
    type V = DisjointPatternTypeV;

    open spec fn view(&self) -> DisjointPatternTypeV {
        match self {
            DisjointPatternType::Instruction(x) => DisjointPatternTypeV::Instruction(x@),
            DisjointPatternType::Context(x) => DisjointPatternTypeV::Context(x@),
            DisjointPatternType::Combine(x) => DisjointPatternTypeV::Combine(x@),
        }
    }
}

/// A (constructor id, pattern) pair tested at a decision node.
#[derive(Debug, PartialEq, Eq)]
pub struct DecisionNodePair {
    pub id: BigInt,
    pub pattern: DisjointPatternType,
}

pub struct DecisionNodePairV {
    pub id: int,
    pub pattern: DisjointPatternTypeV,
}

impl View for DecisionNodePair {
    type V = DecisionNodePairV;

    open spec fn view(&self) -> DecisionNodePairV {
        DecisionNodePairV { id: self.id@, pattern: self.pattern@ }
    }
}

/// A node of the decoding decision tree; terminal nodes have no
/// children.
#[derive(Debug, PartialEq, Eq)]
pub struct DecisionNode {
    pub number: BigInt,
    pub context: bool,
    pub start: BigInt,
    pub bitsize: BigInt,
    pub pairs: Vec<DecisionNodePair>,
    pub children: Vec<DecisionNode>,
}

pub struct DecisionNodeV {
    pub number: int,
    pub context: bool,
    pub start: int,
    pub bitsize: int,
    pub pairs: Seq<DecisionNodePairV>,
    pub children: Seq<DecisionNodeV>,
}

pub open spec fn decision_v(d: DecisionNode) -> DecisionNodeV
    decreases d,
{
    DecisionNodeV {
        number: d.number@,
        context: d.context,
        start: d.start@,
        bitsize: d.bitsize@,
        pairs: vec_view(d.pairs@),
        children: Seq::new(
            d.children@.len(),
            |i: int|
                if 0 <= i < d.children@.len() {
                    decision_v(d.children@[i])
                } else {
                    arbitrary()
                },
        ),
    }
}

impl View for DecisionNode {
    type V = DecisionNodeV;

    open spec fn view(&self) -> DecisionNodeV {
        decision_v(*self)
    }
}

// ---------------------------------------------------------------------
// Symbols
// ---------------------------------------------------------------------

/// A user-defined pcode operation symbol.
#[derive(Debug, PartialEq, Eq)]
pub struct UserOpSymbol {
    pub header: SymbolHeader,
    pub index: BigInt,
}

pub struct UserOpSymbolV {
    pub header: SymbolHeaderV,
    pub index: int,
}

impl View for UserOpSymbol {
    type V = UserOpSymbolV;

    open spec fn view(&self) -> UserOpSymbolV {
        UserOpSymbolV { header: self.header@, index: self.index@ }
    }
}

/// The recursive symbol: a subtable owning constructors and a decision
/// tree.
#[derive(Debug, PartialEq, Eq)]
pub struct SubtableSymbol {
    pub header: SymbolHeader,
    pub numct: BigInt,
    pub constructors: Vec<Constructor>,
    pub decisiontree: DecisionNode,
}

pub struct SubtableSymbolV {
    pub header: SymbolHeaderV,
    pub numct: int,
    pub constructors: Seq<ConstructorV>,
    pub decisiontree: DecisionNodeV,
}

impl View for SubtableSymbol {
    type V = SubtableSymbolV;

    open spec fn view(&self) -> SubtableSymbolV {
        SubtableSymbolV {
            header: self.header@,
            numct: self.numct@,
            constructors: vec_view(self.constructors@),
            decisiontree: self.decisiontree@,
        }
    }
}

/// One row of a value-map lookup table.
#[derive(Debug, PartialEq, Eq)]
pub struct ValueTableValue {
    pub val: BigInt,
}

pub struct ValueTableValueV {
    pub val: int,
}

impl View for ValueTableValue {
    type V = ValueTableValueV;

    open spec fn view(&self) -> ValueTableValueV {
        ValueTableValueV { val: self.val@ }
    }
}

/// A value symbol with a lookup table.
#[derive(Debug, PartialEq, Eq)]
pub struct ValueMapSymbol {
    pub header: SymbolHeader,
    pub patval: PatternValueType,
    pub valuetable: Vec<ValueTableValue>,
}

pub struct ValueMapSymbolV {
    pub header: SymbolHeaderV,
    pub patval: PatternValueTypeV,
    pub valuetable: Seq<ValueTableValueV>,
}

impl View for ValueMapSymbol {
    type V = ValueMapSymbolV;

    open spec fn view(&self) -> ValueMapSymbolV {
        ValueMapSymbolV {
            header: self.header@,
            patval: self.patval@,
            valuetable: vec_view(self.valuetable@),
        }
    }
}

/// One row of a name table; a row may be nameless.
#[derive(Debug, PartialEq, Eq)]
pub struct NameTableValue {
    pub name: Option<Vec<u8>>,
}

pub struct NameTableValueV {
    pub name: Option<Seq<u8>>,
}

impl View for NameTableValue {
    type V = NameTableValueV;

    open spec fn view(&self) -> NameTableValueV {
        NameTableValueV { name: opt_bytes_view(self.name) }
    }
}

/// A value symbol printed through a name table.
#[derive(Debug, PartialEq, Eq)]
pub struct NameSymbol {
    pub header: SymbolHeader,
    pub patval: PatternValueType,
    pub nametable: Vec<NameTableValue>,
}

pub struct NameSymbolV {
    pub header: SymbolHeaderV,
    pub patval: PatternValueTypeV,
    pub nametable: Seq<NameTableValueV>,
}

impl View for NameSymbol {
    type V = NameSymbolV;

    open spec fn view(&self) -> NameSymbolV {
        NameSymbolV {
            header: self.header@,
            patval: self.patval@,
            nametable: vec_view(self.nametable@),
        }
    }
}

/// A context-register symbol.
#[derive(Debug, PartialEq, Eq)]
pub struct ContextSymbol {
    pub header: SymbolHeader,
    pub varnode: BigInt,
    pub low: BigInt,
    pub high: BigInt,
    pub flow: bool,
    pub patval: PatternValueType,
}

pub struct ContextSymbolV {
    pub header: SymbolHeaderV,
    pub varnode: int,
    pub low: int,
    pub high: int,
    pub flow: bool,
    pub patval: PatternValueTypeV,
}

impl View for ContextSymbol {
    type V = ContextSymbolV;

    open spec fn view(&self) -> ContextSymbolV {
        ContextSymbolV {
            header: self.header@,
            varnode: self.varnode@,
            low: self.low@,
            high: self.high@,
            flow: self.flow,
            patval: self.patval@,
        }
    }
}

/// One row of a varnode list table.
#[derive(Debug, PartialEq, Eq)]
pub struct VarNodeTableValue {
    pub id: BigInt,
}

pub struct VarNodeTableValueV {
    pub id: int,
}

impl View for VarNodeTableValue {
    type V = VarNodeTableValueV;

    open spec fn view(&self) -> VarNodeTableValueV {
        VarNodeTableValueV { id: self.id@ }
    }
}

/// A varnode-list row: a varnode id or an empty slot.
#[derive(Debug, PartialEq, Eq)]
pub enum VarNodeTableValueType {
    Null,
    Value(VarNodeTableValue),
}

pub enum VarNodeTableValueTypeV {
    Null,
    Value(VarNodeTableValueV),
}

impl View for VarNodeTableValueType {
    type V = VarNodeTableValueTypeV;

    open spec fn view(&self) -> VarNodeTableValueTypeV {
        match self {
            VarNodeTableValueType::Null => VarNodeTableValueTypeV::Null,
            VarNodeTableValueType::Value(x) => VarNodeTableValueTypeV::Value(x@),
        }
    }
}

/// A value symbol selecting among varnodes.
#[derive(Debug, PartialEq, Eq)]
pub struct VarNodeListSymbol {
    pub header: SymbolHeader,
    pub patval: PatternValueType,
    pub varnode_table: Vec<VarNodeTableValueType>,
}

pub struct VarNodeListSymbolV {
    pub header: SymbolHeaderV,
    pub patval: PatternValueTypeV,
    pub varnode_table: Seq<VarNodeTableValueTypeV>,
}

impl View for VarNodeListSymbol {
    type V = VarNodeListSymbolV;

    open spec fn view(&self) -> VarNodeListSymbolV {
        VarNodeListSymbolV {
            header: self.header@,
            patval: self.patval@,
            varnode_table: vec_view(self.varnode_table@),
        }
    }
}

/// A plain value symbol.
#[derive(Debug, PartialEq, Eq)]
pub struct ValueSymbol {
    pub header: SymbolHeader,
    pub patval: PatternValueType,
}

pub struct ValueSymbolV {
    pub header: SymbolHeaderV,
    pub patval: PatternValueTypeV,
}

impl View for ValueSymbol {
    type V = ValueSymbolV;

    open spec fn view(&self) -> ValueSymbolV {
        ValueSymbolV { header: self.header@, patval: self.patval@ }
    }
}

/// The value-symbol specializations.
#[derive(Debug, PartialEq, Eq)]
pub enum ValueSymbolType {
    ValueMapSymbol(ValueMapSymbol),
    NameSymbol(NameSymbol),
    ContextSymbol(ContextSymbol),
    VarNodeListSymbol(VarNodeListSymbol),
    ValueSymbol(ValueSymbol),
}

pub enum ValueSymbolTypeV {
    ValueMapSymbol(ValueMapSymbolV),
    NameSymbol(NameSymbolV),
    ContextSymbol(ContextSymbolV),
    VarNodeListSymbol(VarNodeListSymbolV),
    ValueSymbol(ValueSymbolV),
}

impl View for ValueSymbolType {
    type V = ValueSymbolTypeV;

    open spec fn view(&self) -> ValueSymbolTypeV {
        match self {
            ValueSymbolType::ValueMapSymbol(x) => ValueSymbolTypeV::ValueMapSymbol(x@),
            ValueSymbolType::NameSymbol(x) => ValueSymbolTypeV::NameSymbol(x@),
            ValueSymbolType::ContextSymbol(x) => ValueSymbolTypeV::ContextSymbol(x@),
            ValueSymbolType::VarNodeListSymbol(x) => ValueSymbolTypeV::VarNodeListSymbol(x@),
            ValueSymbolType::ValueSymbol(x) => ValueSymbolTypeV::ValueSymbol(x@),
        }
    }
}

/// The family symbols.
#[derive(Debug, PartialEq, Eq)]
pub enum FamilySymbol {
    ValueSymbol(ValueSymbolType),
}

pub enum FamilySymbolV {
    ValueSymbol(ValueSymbolTypeV),
}

impl View for FamilySymbol {
    type V = FamilySymbolV;

    open spec fn view(&self) -> FamilySymbolV {
        match self {
            FamilySymbol::ValueSymbol(x) => FamilySymbolV::ValueSymbol(x@),
        }
    }
}

/// The epsilon (empty-pattern) symbol.
#[derive(Debug, PartialEq, Eq)]
pub struct EpsilonSymbol {
    pub header: SymbolHeader,
}

pub struct EpsilonSymbolV {
    pub header: SymbolHeaderV,
}

impl View for EpsilonSymbol {
    type V = EpsilonSymbolV;

    open spec fn view(&self) -> EpsilonSymbolV {
        EpsilonSymbolV { header: self.header@ }
    }
}

/// A register/varnode symbol: space name, offset, size.
#[derive(Debug, PartialEq, Eq)]
pub struct VarNodeSymbol {
    pub header: SymbolHeader,
    pub space: Vec<u8>,
    pub offset: BigInt,
    pub size: BigInt,
}

pub struct VarNodeSymbolV {
    pub header: SymbolHeaderV,
    pub space: Seq<u8>,
    pub offset: int,
    pub size: int,
}

impl View for VarNodeSymbol {
    type V = VarNodeSymbolV;

    open spec fn view(&self) -> VarNodeSymbolV {
        VarNodeSymbolV {
            header: self.header@,
            space: self.space@,
            offset: self.offset@,
            size: self.size@,
        }
    }
}

/// The pattern-less specific symbols.
#[derive(Debug, PartialEq, Eq)]
pub enum PatternlessSymbol {
    EpsilonSymbol(EpsilonSymbol),
    VarNodeSymbol(VarNodeSymbol),
}

pub enum PatternlessSymbolV {
    EpsilonSymbol(EpsilonSymbolV),
    VarNodeSymbol(VarNodeSymbolV),
}

impl View for PatternlessSymbol {
    type V = PatternlessSymbolV;

    open spec fn view(&self) -> PatternlessSymbolV {
        match self {
            PatternlessSymbol::EpsilonSymbol(x) => PatternlessSymbolV::EpsilonSymbol(x@),
            PatternlessSymbol::VarNodeSymbol(x) => PatternlessSymbolV::VarNodeSymbol(x@),
        }
    }
}

/// An operand symbol of a constructor.
#[derive(Debug, PartialEq, Eq)]
pub struct OperandSymbol {
    pub header: SymbolHeader,
    pub subsym: Option<BigInt>,
    pub off: BigInt,
    pub base: BigInt,
    pub minlen: BigInt,
    pub code: Option<bool>,
    pub index: BigInt,
    pub localexp: OperandValue,
    pub defexp: Option<PatternExpressionType>,
}

pub struct OperandSymbolV {
    pub header: SymbolHeaderV,
    pub subsym: Option<int>,
    pub off: int,
    pub base: int,
    pub minlen: int,
    pub code: Option<bool>,
    pub index: int,
    pub localexp: OperandValueV,
    pub defexp: Option<PatternExpressionTypeV>,
}

impl View for OperandSymbol {
    type V = OperandSymbolV;

    open spec fn view(&self) -> OperandSymbolV {
        OperandSymbolV {
            header: self.header@,
            subsym: opt_int_view(self.subsym),
            off: self.off@,
            base: self.base@,
            minlen: self.minlen@,
            code: self.code,
            index: self.index@,
            localexp: self.localexp@,
            defexp: match self.defexp {
                Some(e) => Some(e@),
                None => None,
            },
        }
    }
}

/// The instruction-position marker symbols.
#[derive(Debug, PartialEq, Eq)]
pub struct StartSymbol {
    pub header: SymbolHeader,
}

pub struct StartSymbolV {
    pub header: SymbolHeaderV,
}

impl View for StartSymbol {
    type V = StartSymbolV;

    open spec fn view(&self) -> StartSymbolV {
        StartSymbolV { header: self.header@ }
    }
}

#[derive(Debug, PartialEq, Eq)]
pub struct EndSymbol {
    pub header: SymbolHeader,
}

pub struct EndSymbolV {
    pub header: SymbolHeaderV,
}

impl View for EndSymbol {
    type V = EndSymbolV;

    open spec fn view(&self) -> EndSymbolV {
        EndSymbolV { header: self.header@ }
    }
}

#[derive(Debug, PartialEq, Eq)]
pub struct Next2Symbol {
    pub header: SymbolHeader,
}

pub struct Next2SymbolV {
    pub header: SymbolHeaderV,
}

impl View for Next2Symbol {
    type V = Next2SymbolV;

    open spec fn view(&self) -> Next2SymbolV {
        Next2SymbolV { header: self.header@ }
    }
}

#[derive(Debug, PartialEq, Eq)]
pub struct FlowDestSymbol {
    pub header: SymbolHeader,
}

pub struct FlowDestSymbolV {
    pub header: SymbolHeaderV,
}

impl View for FlowDestSymbol {
    type V = FlowDestSymbolV;

    open spec fn view(&self) -> FlowDestSymbolV {
        FlowDestSymbolV { header: self.header@ }
    }
}

#[derive(Debug, PartialEq, Eq)]
pub struct FlowRefSymbol {
    pub header: SymbolHeader,
}

pub struct FlowRefSymbolV {
    pub header: SymbolHeaderV,
}

impl View for FlowRefSymbol {
    type V = FlowRefSymbolV;

    open spec fn view(&self) -> FlowRefSymbolV {
        FlowRefSymbolV { header: self.header@ }
    }
}

/// The specific symbols.
#[derive(Debug, PartialEq, Eq)]
pub enum SpecificSymbol {
    PatternlessSymbol(PatternlessSymbol),
    OperandSymbol(OperandSymbol),
    StartSymbol(StartSymbol),
    EndSymbol(EndSymbol),
    Next2Symbol(Next2Symbol),
    FlowDestSymbol(FlowDestSymbol),
    FlowRefSymbol(FlowRefSymbol),
}

pub enum SpecificSymbolV {
    PatternlessSymbol(PatternlessSymbolV),
    OperandSymbol(OperandSymbolV),
    StartSymbol(StartSymbolV),
    EndSymbol(EndSymbolV),
    Next2Symbol(Next2SymbolV),
    FlowDestSymbol(FlowDestSymbolV),
    FlowRefSymbol(FlowRefSymbolV),
}

impl View for SpecificSymbol {
    type V = SpecificSymbolV;

    open spec fn view(&self) -> SpecificSymbolV {
        match self {
            SpecificSymbol::PatternlessSymbol(x) => SpecificSymbolV::PatternlessSymbol(x@),
            SpecificSymbol::OperandSymbol(x) => SpecificSymbolV::OperandSymbol(x@),
            SpecificSymbol::StartSymbol(x) => SpecificSymbolV::StartSymbol(x@),
            SpecificSymbol::EndSymbol(x) => SpecificSymbolV::EndSymbol(x@),
            SpecificSymbol::Next2Symbol(x) => SpecificSymbolV::Next2Symbol(x@),
            SpecificSymbol::FlowDestSymbol(x) => SpecificSymbolV::FlowDestSymbol(x@),
            SpecificSymbol::FlowRefSymbol(x) => SpecificSymbolV::FlowRefSymbol(x@),
        }
    }
}

/// The triple symbols: family, specific, or subtable.
#[derive(Debug, PartialEq, Eq)]
pub enum TripleSymbol {
    FamilySymbol(FamilySymbol),
    SpecificSymbol(SpecificSymbol),
    SubtableSymbol { subtable: SubtableSymbol },
}

pub enum TripleSymbolV {
    FamilySymbol(FamilySymbolV),
    SpecificSymbol(SpecificSymbolV),
    SubtableSymbol(SubtableSymbolV),
}

impl View for TripleSymbol {
    type V = TripleSymbolV;

    open spec fn view(&self) -> TripleSymbolV {
        match self {
            TripleSymbol::FamilySymbol(x) => TripleSymbolV::FamilySymbol(x@),
            TripleSymbol::SpecificSymbol(x) => TripleSymbolV::SpecificSymbol(x@),
            TripleSymbol::SubtableSymbol { subtable } => TripleSymbolV::SubtableSymbol(subtable@),
        }
    }
}

/// Any symbol the table stores.
#[derive(Debug, PartialEq, Eq)]
pub enum SleighSymbolType {
    UserOpSymbol { user_op: UserOpSymbol },
    TripleSymbol(TripleSymbol),
}

pub enum SleighSymbolTypeV {
    UserOpSymbol(UserOpSymbolV),
    TripleSymbol(TripleSymbolV),
}

impl View for SleighSymbolType {
    type V = SleighSymbolTypeV;

    open spec fn view(&self) -> SleighSymbolTypeV {
        match self {
            SleighSymbolType::UserOpSymbol { user_op } => SleighSymbolTypeV::UserOpSymbol(
                user_op@,
            ),
            SleighSymbolType::TripleSymbol(x) => SleighSymbolTypeV::TripleSymbol(x@),
        }
    }
}

/// The symbol table: size hints, scopes, headers, and symbols.  The
/// header list and the symbol list correspond positionally and have the
/// same length.
#[derive(Debug, PartialEq, Eq)]
pub struct SymbolTable {
    pub scopesize: BigInt,
    pub symbolsize: BigInt,
    pub scopes: Vec<Scope>,
    pub symbol_headers: Vec<SymbolHeaderType>,
    pub symbols: Vec<SleighSymbolType>,
}

pub struct SymbolTableV {
    pub scopesize: int,
    pub symbolsize: int,
    pub scopes: Seq<ScopeV>,
    pub symbol_headers: Seq<SymbolHeaderTypeV>,
    pub symbols: Seq<SleighSymbolTypeV>,
}

impl View for SymbolTable {
    type V = SymbolTableV;

    open spec fn view(&self) -> SymbolTableV {
        SymbolTableV {
            scopesize: self.scopesize@,
            symbolsize: self.symbolsize@,
            scopes: vec_view(self.scopes@),
            symbol_headers: vec_view(self.symbol_headers@),
            symbols: vec_view(self.symbols@),
        }
    }
}

// ---------------------------------------------------------------------
// The document root
// ---------------------------------------------------------------------

/// The complete parsed document.
#[derive(Debug, PartialEq, Eq)]
pub struct Sleigh {
    pub version: Option<BigInt>,
    pub bigendian: bool,
    pub align: BigInt,
    pub uniqbase: BigInt,
    pub maxdelay: Option<BigInt>,
    pub uniqmask: Option<BigInt>,
    pub numsections: Option<BigInt>,
    pub sourcefiles: SourceFiles,
    pub spaces: Spaces,
    pub symbol_table: SymbolTable,
}

pub struct SleighV {
    pub version: Option<int>,
    pub bigendian: bool,
    pub align: int,
    pub uniqbase: int,
    pub maxdelay: Option<int>,
    pub uniqmask: Option<int>,
    pub numsections: Option<int>,
    pub sourcefiles: SourceFilesV,
    pub spaces: SpacesV,
    pub symbol_table: SymbolTableV,
}

impl View for Sleigh {
    type V = SleighV;

    open spec fn view(&self) -> SleighV {
        SleighV {
            version: opt_int_view(self.version),
            bigendian: self.bigendian,
            align: self.align@,
            uniqbase: self.uniqbase@,
            maxdelay: opt_int_view(self.maxdelay),
            uniqmask: opt_int_view(self.uniqmask),
            numsections: opt_int_view(self.numsections),
            sourcefiles: self.sourcefiles@,
            spaces: self.spaces@,
            symbol_table: self.symbol_table@,
        }
    }
}

} // verus!
