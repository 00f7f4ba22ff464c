//! The LOLCODE syntax tree that the translator consumes.
//!
//! Every node holds plain values only: what the renderers read. A front end
//! that parses LOLCODE source builds these values and hands them over; the
//! translator consumes (moves) them and produces text once.

use vstd::prelude::*;

verus! {

/// A literal value carried by a `Value` token.
///
/// A floating-point literal is carried as its canonical decimal text, written
/// by the producer of the tree; the translator emits that text unchanged.
#[derive(Debug, Clone)]
pub enum TokenValue {
    /// The null literal (`NOOB`).
    Noob,
    /// A text literal, already quoted and escaped by the producer.
    Str(String),
    /// An integer literal.
    Int(i64),
    /// A floating-point literal, as its canonical decimal text.
    Float(String),
    /// A boolean literal.
    Boolean(bool),
}

/// One lexical token, reduced to what rendering needs.
#[derive(Debug, Clone)]
pub enum Token {
    /// The `,` token.
    Comma,
    /// The `...` token.
    Ellipsis,
    /// The `?` token.
    QuestionMark,
    /// The `!` token.
    ExclamationMark,
    /// A multi-line comment; renders as nothing.
    CommentMultiLine(String),
    /// A single-line comment; renders as nothing.
    CommentSingleLine(String),
    /// A keyword, carried as its spelling.
    Keyword(String),
    /// An identifier, carried as its raw text.
    Identifier(String),
    /// A literal value.
    Value(TokenValue),
    /// A single-character symbol, carried as its text.
    Symbol(String),
    /// A container-slot access marker; it has no textual form, so rendering
    /// one is a translation failure.
    BukkitSlotAccess,
}

/// A name in the program: a token plus the `SRS` flag.
///
/// With `is_srs` set the name is computed indirectly at run time and cannot
/// be rendered as a static Lua name; such identifiers fail translation.
#[derive(Debug, Clone)]
pub struct Identifier {
    pub name: Token,
    pub is_srs: bool,
}

/// A variable reference: a name plus a chain of container-slot accesses.
///
/// Slot-chain resolution is not implemented: a reference renders (as its
/// bare name) only when the chain is empty, and a chained reference fails
/// translation.
#[derive(Debug, Clone)]
pub struct VariableAccess {
    pub name: Identifier,
    pub accesses: Vec<Token>,
}

/// The primitive type named in a declaration (`I HAS A x ITZ A <type>`),
/// used only to synthesize a default value.
#[derive(Debug, Clone, Copy, PartialEq, Eq, Structural)]
pub enum ASTType {
    /// Boolean (`TROOF`).
    Troof,
    /// Integer (`NUMBR`).
    Numbr,
    /// Untyped null (`NOOB`).
    Noob,
    /// Floating point (`NUMBAR`).
    Numbar,
    /// Associative container (`BUKKIT`).
    Bukkit,
    /// Text (`YARN`).
    Yarn,
}

/// An expression node.
#[derive(Debug)]
pub enum ASTExpression {
    /// Logical negation (`NOT x`).
    Not(Box<ASTExpression>),
    /// Type cast (`MAEK x A <type>`); renders as the value alone.
    Maek(Box<ASTExpression>, ASTType),
    /// Inequality (`WON OF x y`).
    WonOf(Box<ASTExpression>, Box<ASTExpression>),
    /// N-ary logical AND (`ALL OF ...`).
    AllOf(Vec<ASTExpression>),
    /// N-ary logical OR (`ANY OF ...`).
    AnyOf(Vec<ASTExpression>),
    /// N-ary text concatenation (`SMOOSH ...`).
    Smoosh(Vec<ASTExpression>),
    /// Modulo (`MOD OF x y`).
    ModOf(Box<ASTExpression>, Box<ASTExpression>),
    /// Logical AND of two (`BOTH OF x y`).
    BothOf(Box<ASTExpression>, Box<ASTExpression>),
    /// Sum (`SUM OF x y`).
    SumOf(Box<ASTExpression>, Box<ASTExpression>),
    /// Difference (`DIFF OF x y`).
    DiffOf(Box<ASTExpression>, Box<ASTExpression>),
    /// Product (`PRODUKT OF x y`).
    ProduktOf(Box<ASTExpression>, Box<ASTExpression>),
    /// Quotient (`QUOSHUNT OF x y`).
    QuoshuntOf(Box<ASTExpression>, Box<ASTExpression>),
    /// Greater-than comparison (`BIGGR OF x y`).
    BiggrOf(Box<ASTExpression>, Box<ASTExpression>),
    /// Less-than comparison (`SMALLR OF x y`).
    SmallrOf(Box<ASTExpression>, Box<ASTExpression>),
    /// Logical OR of two (`EITHER OF x y`).
    EitherOf(Box<ASTExpression>, Box<ASTExpression>),
    /// Equality (`BOTH SAEM x y`).
    BothSaem(Box<ASTExpression>, Box<ASTExpression>),
    /// Explicit inequality (`DIFFRINT x y`).
    Diffrint(Box<ASTExpression>, Box<ASTExpression>),
    /// A variable read.
    VariableAccess(VariableAccess),
    /// A literal value, carried as its token.
    LiteralValue(Token),
}

/// The initializer of a declaration: either a declared type, standing for
/// that type's default value, or an explicit expression.
#[derive(Debug)]
pub enum IHasAInitialValue {
    Type(ASTType),
    Expression(ASTExpression),
}

/// A variable declaration (`I HAS A x`), with an optional initializer.
#[derive(Debug)]
pub struct IHasA {
    pub identifier: Identifier,
    pub initial_value: Option<IHasAInitialValue>,
}

/// The two loop-termination styles: `TIL` stops when the condition becomes
/// true (so the guard is its negation), `WILE` runs while it stays true.
#[derive(Debug)]
pub enum LoopCondition {
    TIL(ASTExpression),
    WILE(ASTExpression),
}

/// The per-iteration counter operation of a loop.
#[derive(Debug, Clone, Copy, PartialEq, Eq, Structural)]
pub enum LoopOperation {
    /// Increment (`UPPIN`).
    UPPIN,
    /// Decrement (`NERFIN`).
    NERFIN,
}

/// A loop's per-iteration step: which operation, applied to which counter.
#[derive(Debug, Clone)]
pub struct LoopIterationOperation {
    pub operation: LoopOperation,
    pub operand: Identifier,
}

/// A loop (`IM IN YR ...`), with optional stop condition and step.
#[derive(Debug)]
pub struct ImInYr {
    pub on_iteration: Option<LoopIterationOperation>,
    pub condition: Option<LoopCondition>,
    pub code_block: ASTBlock,
}

/// An indexed-container assignment (`x HAS A slot ITZ value` family).
#[derive(Debug)]
pub struct BukkitSetSlot {
    pub bukkit: Identifier,
    pub slot_name: Token,
    pub value: ASTExpression,
}

/// A reassignment of an existing variable (`x R value`).
#[derive(Debug)]
pub struct VariableAssignment {
    pub identifier: VariableAccess,
    pub value: ASTExpression,
}

/// An output statement (`VISIBLE ...`): the operand expressions, and the
/// suppress-newline token (`!`) if one was written.
#[derive(Debug)]
pub struct Visible(pub Vec<ASTExpression>, pub Option<Token>);

/// A function-call statement (`I IZ name ...`).
#[derive(Debug)]
pub struct IIz {
    pub name: Identifier,
    pub arguments: Vec<ASTExpression>,
}

/// A function declaration (`HOW IZ I name ...`): name, parameter tokens and
/// body.
#[derive(Debug)]
pub struct HowIzI {
    pub name: Identifier,
    pub arguments: Vec<Token>,
    pub body: ASTBlock,
}

/// One program statement.
#[derive(Debug)]
pub enum ASTNode {
    /// Program-start marker (`HAI`); renders as nothing.
    HAI,
    /// A variable declaration.
    IHasA(IHasA),
    /// A loop.
    ImInYr(ImInYr),
    /// An indexed-container assignment.
    BukkitSetSlot(BukkitSetSlot),
    /// A variable reassignment.
    VariableAssignment(VariableAssignment),
    /// An output statement.
    Visible(Visible),
    /// Early return with a value (`FOUND YR x`).
    FoundYr(ASTExpression),
    /// A multi-way branch (`WTF?`); unsupported, fails translation.
    Wtf,
    /// A conditional branch (`O RLY?`); unsupported, fails translation.
    ORly,
    /// A function-call statement.
    IIz(IIz),
    /// A function declaration.
    HowIzI(HowIzI),
    /// Early return without a value (`GTFO`).
    Gtfo,
    /// A user-input statement (`GIMMEH`); unsupported, fails translation.
    Gimmeh,
    /// A bare expression statement; its value is assigned to `it`.
    Expression(ASTExpression),
    /// A malformed node the parser could not classify; fails translation.
    ASTError,
    /// Program-end marker (`KTHXBYE`); renders as nothing.
    KTHXBYE,
}

/// A program body: an ordered sequence of statements.
#[derive(Debug)]
pub struct ASTBlock(pub Vec<ASTNode>);

} // verus!
