//! The statement shapes the rewriter works on.
//!
//! The rewriter consumes a parsed `let` binding whose initializer is an
//! `if`/`else-if`/`else` chain or a `match` block. Only the structure the
//! rewriter inspects is modeled; everything it passes through verbatim
//! (conditions, patterns, leading statements, terminal expressions) is held
//! as plain source text together with its location.

use vstd::prelude::*;

verus! {

/// A source location range, line and column of the start and the end.
#[derive(Clone, Copy, PartialEq, Eq, Structural, Debug)]
pub struct Span {
    pub start_line: usize,
    pub start_col: usize,
    pub end_line: usize,
    pub end_col: usize,
}

/// A fragment of source text carried through the rewrite verbatim, with
/// the location it came from.
pub struct Tokens {
    pub text: String,
    pub span: Span,
}

/// A statement handed to the rewriter.
pub enum Stmt {
    /// A `let` binding.
    Let(LetStmt),
    /// Any other statement kind; the rewriter rejects it.
    Other(Tokens),
}

/// A `let` binding: its pattern and its optional initializer.
pub struct LetStmt {
    pub pat: Pat,
    pub init: Option<Expr>,
    pub span: Span,
}

/// The pattern of a `let` binding.
pub enum Pat {
    /// A pattern with an explicit type annotation, `x: Or3<i32, f32, String>`.
    Typed(TypedPat),
    /// Any other pattern kind; the rewriter rejects it.
    Other(Tokens),
}

/// An annotated pattern: the sub-pattern text and the declared type.
pub struct TypedPat {
    pub pat: Tokens,
    pub ty: TypeAnn,
}

/// The declared type of the binding.
pub struct TypeAnn {
    pub kind: TypeKind,
    pub span: Span,
}

/// The structure of the declared type, as far as the rewriter reads it.
pub enum TypeKind {
    /// A path type, `Or3<i32, f32, String>`, as a list of segments.
    Path(Vec<PathSeg>),
    /// Any other type kind; the rewriter rejects it.
    Other,
}

/// One segment of a path type: its identifier and its argument list.
pub struct PathSeg {
    pub ident: String,
    pub args: PathArgs,
}

/// The argument list of a path segment.
pub enum PathArgs {
    /// No arguments, as in `String`.
    Bare,
    /// An angle-bracketed argument list, `<i32, f32, String>`, held as text
    /// including the brackets.
    Angle(String),
    /// A parenthesized argument list, `(A, B) -> C`, held as text.
    Paren(String),
}

/// An expression in branch position.
pub enum Expr {
    /// An `if`/`else-if`/`else` chain.
    If(IfExpr),
    /// A `match` block.
    Match(MatchExpr),
    /// A literal terminal expression.
    Lit(Tokens),
    /// A method-call terminal expression.
    MethodCall(Tokens),
    /// Any other expression kind; unsupported as a branch arm.
    Other(Tokens),
}

/// An `if` expression: condition, `then` block, optional `else` branch.
pub struct IfExpr {
    pub cond: Tokens,
    pub then_branch: BlockExpr,
    pub else_branch: Option<ElseBranch>,
    pub span: Span,
}

/// What follows `else`.
pub enum ElseBranch {
    /// A plain `else` block.
    Block(BlockExpr),
    /// An `else if ...` continuation of the chain.
    ElseIf(Box<IfExpr>),
    /// Anything else; the rewriter rejects it.
    Other(Tokens),
}

/// A block: its statements as verbatim text, the last being the trailing
/// statement that the rewriter wraps.
pub struct BlockExpr {
    pub stmts: Vec<Tokens>,
    pub span: Span,
}

/// A `match` expression: its scrutinee and its arms.
pub struct MatchExpr {
    pub scrutinee: Tokens,
    pub arms: Vec<MatchArm>,
}

/// One arm of a `match`: the pattern text and the body expression.
pub struct MatchArm {
    pub pat: Tokens,
    pub body: Expr,
}

} // verus!
