//! The expression rewriter.
//!
//! Input: a `let` binding of the shape `let <pat>: <UnionType><Args> = <init>;`
//! where `<init>` is an `if`/`else-if`/`else` chain or a `match` block.
//! Output: the same binding as source text, with the trailing statement of
//! every branch block and the body of every match arm wrapped in a
//! constructor call `<UnionType>::<Args>::Tk(<tail>)`. The ordinal `k` is
//! purely structural: a single counter is incremented once on entering each
//! `then`/`else` block and once per match arm, depth first, left to right;
//! the declared generic argument list is reproduced verbatim and never
//! re-inferred from the arm contents.
//!
//! Every shape the rewriter does not support is refused with a located,
//! structured error; no partial output is ever produced.

use vstd::prelude::*;
use vstd::string::StringExecFns;

use crate::ast::BlockExpr;
use crate::ast::ElseBranch;
use crate::ast::Expr;
use crate::ast::IfExpr;
use crate::ast::MatchArm;
use crate::ast::MatchExpr;
use crate::ast::Pat;
use crate::ast::PathArgs;
use crate::ast::PathSeg;
use crate::ast::Span;
use crate::ast::Stmt;
use crate::ast::Tokens;
use crate::ast::TypeAnn;
use crate::ast::TypeKind;
use crate::text::dec_str;
use crate::text::spec_dec;

verus! {

/// The kinds of rewrite failure.
#[derive(Clone, Copy, PartialEq, Eq, Structural, Debug)]
pub enum RwErrorKind {
    /// The statement is not a `let` binding with a typed pattern and an
    /// initializer.
    Shape,
    /// An initializer, branch tail or else-arm has an expression kind the
    /// rewriter does not support.
    UnsupportedExpression,
    /// The declared type is not a path type carrying a generic argument
    /// list.
    TypeAnnotation,
}

/// A located rewrite failure: its kind, the span of the offending source,
/// and a human-readable message.
#[derive(Debug)]
pub struct RwError {
    pub kind: RwErrorKind,
    pub span: Span,
    pub message: String,
}

// The error messages, one spec function per failure site.

pub open spec fn msg_expected_let() -> Seq<char> {
    "expected a `let` binding"@
}

pub open spec fn msg_missing_init() -> Seq<char> {
    "expected an initializer in the `let` binding"@
}

pub open spec fn msg_untyped_pat() -> Seq<char> {
    "Fail to parse `let` binding: the pattern needs an explicit type annotation using the Or type"@
}

pub open spec fn msg_unsupported() -> Seq<char> {
    "Unsupported expression found.`if` or `match` expressions are supported."@
}

pub open spec fn msg_else() -> Seq<char> {
    "expected else or elseif"@
}

pub open spec fn msg_missing_else() -> Seq<char> {
    "expected an `else` arm to end the `if` chain"@
}

pub open spec fn msg_block_tail() -> Seq<char> {
    "expected a trailing statement in the branch block"@
}

pub open spec fn msg_type_decl() -> Seq<char> {
    "Fail to parse type declaration"@
}

// ---------------------------------------------------------------------------
// The specification model: a pure, recursive definition of the rewrite.
// Successful results carry the rewritten text and the counter after the
// sub-tree; failures carry the error kind, span and message.
// ---------------------------------------------------------------------------

/// How often the ordinal counter is incremented while traversing `e`,
/// whether or not the traversal fails part way.
pub open spec fn spec_incr_expr(e: Expr) -> nat
    decreases e, 0int,
{
    match e {
        Expr::If(f) => spec_incr_if(f),
        Expr::Match(m) => spec_incr_arms(m.arms@, 0),
        _ => 0,
    }
}

/// Counter increments for an `if` chain: one for the `then` block, one for
/// a plain `else` block, and the chain's own increments after `else if`.
pub open spec fn spec_incr_if(f: IfExpr) -> nat
    decreases f, 0int,
{
    1 + match f.else_branch {
        Some(ElseBranch::Block(_)) => 1nat,
        Some(ElseBranch::ElseIf(g)) => spec_incr_if(*g),
        _ => 0nat,
    }
}

/// Counter increments for the arms of a `match` from index `i` on: one per
/// arm plus whatever the arm's body increments.
pub open spec fn spec_incr_arms(arms: Seq<MatchArm>, i: int) -> nat
    decreases arms, arms.len() - i,
{
    if i < 0 || i >= arms.len() {
        0
    } else {
        1 + spec_incr_expr(arms[i].body) + spec_incr_arms(arms, i + 1)
    }
}

/// Counter increments for a whole statement.
pub open spec fn spec_incr_stmt(s: Stmt) -> nat {
    match s {
        Stmt::Let(ls) => match ls.init {
            Some(e) => spec_incr_expr(e),
            None => 0,
        },
        Stmt::Other(_) => 0,
    }
}

/// The source text of the path segments from index `i` on, `::`-separated.
pub open spec fn spec_render_segs(segs: Seq<PathSeg>, i: int) -> Seq<char>
    decreases segs.len() - i,
{
    if i < 0 || i >= segs.len() {
        Seq::empty()
    } else if i > 0 {
        match segs[i].args {
            PathArgs::Bare => "::"@ + segs[i].ident@ + spec_render_segs(segs, i + 1),
            PathArgs::Angle(a) => "::"@ + segs[i].ident@ + a@ + spec_render_segs(segs, i + 1),
            PathArgs::Paren(p) => "::"@ + segs[i].ident@ + p@ + spec_render_segs(segs, i + 1),
        }
    } else {
        match segs[i].args {
            PathArgs::Bare => segs[i].ident@ + spec_render_segs(segs, i + 1),
            PathArgs::Angle(a) => segs[i].ident@ + a@ + spec_render_segs(segs, i + 1),
            PathArgs::Paren(p) => segs[i].ident@ + p@ + spec_render_segs(segs, i + 1),
        }
    }
}

/// The source text of the declared type, rebuilt from its segments.
pub open spec fn spec_render_type(ty: TypeAnn) -> Seq<char> {
    match ty.kind {
        TypeKind::Path(segs) => spec_render_segs(segs@, 0),
        TypeKind::Other => Seq::empty(),
    }
}

/// Wrapping a terminal: `Name::<Args>::Tk(tail)`, where `Name` and `<Args>`
/// come from the declared type and `k` is the current ordinal. Fails when
/// the declared type is not a path whose first segment carries an
/// angle-bracketed argument list.
pub open spec fn spec_wrap_terminal(ty: TypeAnn, depth: nat, txt: Seq<char>) -> Result<
    Seq<char>,
    (RwErrorKind, Span, Seq<char>),
> {
    match ty.kind {
        TypeKind::Path(segs) => if segs@.len() == 0 {
            Err((RwErrorKind::TypeAnnotation, ty.span, msg_type_decl()))
        } else {
            match segs@[0].args {
                PathArgs::Angle(a) => Ok(
                    segs@[0].ident@ + "::"@ + a@ + "::T"@ + spec_dec(depth) + "("@ + txt + ")"@,
                ),
                _ => Err((RwErrorKind::TypeAnnotation, ty.span, msg_type_decl())),
            }
        },
        TypeKind::Other => Err((RwErrorKind::TypeAnnotation, ty.span, msg_type_decl())),
    }
}

/// The leading statements of a block, each followed by a single space:
/// indices `i` up to but excluding `end`.
pub open spec fn spec_before_text(stmts: Seq<Tokens>, i: int, end: int) -> Seq<char>
    decreases end - i,
{
    if i < 0 || i >= end || end > stmts.len() {
        Seq::empty()
    } else {
        stmts[i].text@ + " "@ + spec_before_text(stmts, i + 1, end)
    }
}

/// A `then` or `else` block: the counter is incremented once on entry, the
/// leading statements pass through verbatim, and the trailing statement is
/// wrapped as the current arm's constructor call. An empty block has no
/// trailing statement and is refused.
pub open spec fn spec_rewrite_block(b: BlockExpr, ty: TypeAnn, depth: nat) -> Result<
    (Seq<char>, nat),
    (RwErrorKind, Span, Seq<char>),
> {
    let d1 = depth + 1;
    if b.stmts@.len() == 0 {
        Err((RwErrorKind::UnsupportedExpression, b.span, msg_block_tail()))
    } else {
        match spec_wrap_terminal(ty, d1, b.stmts@.last().text@) {
            Ok(w) => Ok(
                (
                    "{ "@ + spec_before_text(b.stmts@, 0, b.stmts@.len() - 1) + w + " }"@,
                    d1,
                ),
            ),
            Err(e) => Err(e),
        }
    }
}

/// An `if` chain: rewrite the `then` block, then the `else` arm. A plain
/// `else` block is handled exactly like a `then` block; an `else if`
/// continues the chain without an increment of its own; a missing `else`
/// and any other else-arm are refused.
pub open spec fn spec_rewrite_if(f: IfExpr, ty: TypeAnn, depth: nat) -> Result<
    (Seq<char>, nat),
    (RwErrorKind, Span, Seq<char>),
>
    decreases f, 0int,
{
    match spec_rewrite_block(f.then_branch, ty, depth) {
        Err(e) => Err(e),
        Ok((then_text, d1)) => match f.else_branch {
            None => Err((RwErrorKind::UnsupportedExpression, f.span, msg_missing_else())),
            Some(ElseBranch::Block(b)) => match spec_rewrite_block(b, ty, d1) {
                Err(e) => Err(e),
                Ok((else_text, d2)) => Ok(
                    ("if "@ + f.cond.text@ + " "@ + then_text + " else "@ + else_text, d2),
                ),
            },
            Some(ElseBranch::ElseIf(g)) => match spec_rewrite_if(*g, ty, d1) {
                Err(e) => Err(e),
                Ok((if_text, d2)) => Ok(
                    ("if "@ + f.cond.text@ + " "@ + then_text + " else "@ + if_text, d2),
                ),
            },
            Some(ElseBranch::Other(t)) => Err(
                (RwErrorKind::UnsupportedExpression, t.span, msg_else()),
            ),
        },
    }
}

/// The arms of a `match` from index `i` on: each arm increments the counter
/// once, its body is rewritten like a branch tail, and the arms are emitted
/// in order as `pat => body, `.
pub open spec fn spec_rewrite_arms(arms: Seq<MatchArm>, i: int, ty: TypeAnn, depth: nat) -> Result<
    (Seq<char>, nat),
    (RwErrorKind, Span, Seq<char>),
>
    decreases arms, arms.len() - i,
{
    if i < 0 || i >= arms.len() {
        Ok((Seq::empty(), depth))
    } else {
        match spec_rewrite_expr(arms[i].body, ty, depth + 1) {
            Err(e) => Err(e),
            Ok((body_text, d2)) => match spec_rewrite_arms(arms, i + 1, ty, d2) {
                Err(e) => Err(e),
                Ok((rest, d3)) => Ok(
                    (arms[i].pat.text@ + " => "@ + body_text + ", "@ + rest, d3),
                ),
            },
        }
    }
}

/// A `match` block: the scrutinee passes through verbatim and every arm is
/// rewritten in order.
pub open spec fn spec_rewrite_match(m: MatchExpr, ty: TypeAnn, depth: nat) -> Result<
    (Seq<char>, nat),
    (RwErrorKind, Span, Seq<char>),
>
    decreases m, 0int,
{
    match spec_rewrite_arms(m.arms@, 0, ty, depth) {
        Err(e) => Err(e),
        Ok((arms_text, d)) => Ok(
            ("match "@ + m.scrutinee.text@ + " { "@ + arms_text + "}"@, d),
        ),
    }
}

/// An expression in branch-arm position: `if` and `match` recurse; literal
/// and method-call terminals are wrapped at the current ordinal; any other
/// kind is refused.
pub open spec fn spec_rewrite_expr(e: Expr, ty: TypeAnn, depth: nat) -> Result<
    (Seq<char>, nat),
    (RwErrorKind, Span, Seq<char>),
>
    decreases e, 0int,
{
    match e {
        Expr::If(f) => spec_rewrite_if(f, ty, depth),
        Expr::Match(m) => spec_rewrite_match(m, ty, depth),
        Expr::Lit(t) => match spec_wrap_terminal(ty, depth, t.text@) {
            Ok(w) => Ok((w, depth)),
            Err(e2) => Err(e2),
        },
        Expr::MethodCall(t) => match spec_wrap_terminal(ty, depth, t.text@) {
            Ok(w) => Ok((w, depth)),
            Err(e2) => Err(e2),
        },
        Expr::Other(t) => Err((RwErrorKind::UnsupportedExpression, t.span, msg_unsupported())),
    }
}

/// The initializer position: only an `if` chain or a `match` block is
/// accepted; every other expression kind is refused.
pub open spec fn spec_rewrite_init(e: Expr, ty: TypeAnn, depth: nat) -> Result<
    (Seq<char>, nat),
    (RwErrorKind, Span, Seq<char>),
>
    decreases e, 0int,
{
    match e {
        Expr::If(f) => spec_rewrite_if(f, ty, depth),
        Expr::Match(m) => spec_rewrite_match(m, ty, depth),
        Expr::Lit(t) => Err((RwErrorKind::UnsupportedExpression, t.span, msg_unsupported())),
        Expr::MethodCall(t) => Err(
            (RwErrorKind::UnsupportedExpression, t.span, msg_unsupported()),
        ),
        Expr::Other(t) => Err((RwErrorKind::UnsupportedExpression, t.span, msg_unsupported())),
    }
}

/// The whole rewrite: the statement must be a `let` binding whose pattern
/// carries an explicit type annotation and which has an initializer; the
/// rewritten binding is emitted as `let <pat>: <type> = <init'>;` with the
/// counter starting at zero.
pub open spec fn spec_rewrite(s: Stmt) -> Result<Seq<char>, (RwErrorKind, Span, Seq<char>)> {
    match s {
        Stmt::Other(t) => Err((RwErrorKind::Shape, t.span, msg_expected_let())),
        Stmt::Let(ls) => match ls.pat {
            Pat::Other(t) => Err((RwErrorKind::Shape, t.span, msg_untyped_pat())),
            Pat::Typed(tp) => match ls.init {
                None => Err((RwErrorKind::Shape, ls.span, msg_missing_init())),
                Some(e) => match spec_rewrite_init(e, tp.ty, 0) {
                    Err(er) => Err(er),
                    Ok((text, _d)) => Ok(
                        "let "@ + tp.pat.text@ + ": "@ + spec_render_type(tp.ty) + " = "@ + text
                            + ";"@,
                    ),
                },
            },
        },
    }
}

// ---------------------------------------------------------------------------
// Bounds on the counter: a successful rewrite advances the counter by at
// most the increment count of the sub-tree. These bounds justify that the
// executable counter, a usize, never overflows.
// ---------------------------------------------------------------------------

proof fn lemma_if_depth(f: IfExpr, ty: TypeAnn, depth: nat)
    ensures
        spec_rewrite_if(f, ty, depth) matches Ok(p) ==> depth < p.1 <= depth + spec_incr_if(f),
    decreases f, 0int,
{
    match f.else_branch {
        Some(ElseBranch::ElseIf(g)) => {
            lemma_if_depth(*g, ty, depth + 1);
        },
        _ => {},
    }
}

proof fn lemma_expr_depth(e: Expr, ty: TypeAnn, depth: nat)
    ensures
        spec_rewrite_expr(e, ty, depth) matches Ok(p) ==> depth <= p.1 <= depth + spec_incr_expr(
            e,
        ),
    decreases e, 0int,
{
    match e {
        Expr::If(f) => lemma_if_depth(f, ty, depth),
        Expr::Match(m) => lemma_arms_depth(m.arms@, 0, ty, depth),
        _ => {},
    }
}

proof fn lemma_arms_depth(arms: Seq<MatchArm>, i: int, ty: TypeAnn, depth: nat)
    ensures
        spec_rewrite_arms(arms, i, ty, depth) matches Ok(p) ==> depth <= p.1 <= depth
            + spec_incr_arms(arms, i),
    decreases arms, arms.len() - i,
{
    if 0 <= i < arms.len() {
        lemma_expr_depth(arms[i].body, ty, depth + 1);
        match spec_rewrite_expr(arms[i].body, ty, depth + 1) {
            Ok(p) => {
                lemma_arms_depth(arms, i + 1, ty, p.1);
            },
            Err(_) => {},
        }
    }
}

// ---------------------------------------------------------------------------
// The executable rewriter, verified against the model above.
// ---------------------------------------------------------------------------

/// Builds the executable error for a model error.
fn mk_error(kind: RwErrorKind, span: Span, message: &str) -> (r: RwError)
    ensures
        r.kind == kind,
        r.span == span,
        r.message@ == message@,
{
    RwError { kind, span, message: String::from_str(message) }
}

/// Renders the path segments from `i` on.
fn render_segs(segs: &Vec<PathSeg>, i: usize) -> (r: String)
    requires
        i <= segs@.len(),
    ensures
        r@ == spec_render_segs(segs@, i as int),
    decreases segs@.len() - i,
{
    if i >= segs.len() {
        String::new()
    } else {
        let seg = &segs[i];
        let mut s = if i > 0 {
            let mut p = String::from_str("::");
            p.append(seg.ident.as_str());
            p
        } else {
            seg.ident.clone()
        };
        match &seg.args {
            PathArgs::Bare => {},
            PathArgs::Angle(a) => s.append(a.as_str()),
            PathArgs::Paren(p) => s.append(p.as_str()),
        }
        let rest = render_segs(segs, i + 1);
        s.append(rest.as_str());
        s
    }
}

/// Renders the declared type back to source text.
fn render_type(ty: &TypeAnn) -> (r: String)
    ensures
        r@ == spec_render_type(*ty),
{
    match &ty.kind {
        TypeKind::Path(segs) => render_segs(segs, 0),
        TypeKind::Other => String::new(),
    }
}

/// Wraps a terminal's text in the constructor call of the current ordinal.
fn wrap_terminal(ty: &TypeAnn, depth: usize, txt: &str) -> (r: Result<String, RwError>)
    ensures
        spec_wrap_terminal(*ty, depth as nat, txt@) matches Ok(t) ==> (r matches Ok(s) && s@
            == t),
        spec_wrap_terminal(*ty, depth as nat, txt@) matches Err(e) ==> (r matches Err(x) && x.kind
            == e.0 && x.span == e.1 && x.message@ == e.2),
{
    match &ty.kind {
        TypeKind::Path(segs) => {
            if segs.len() == 0 {
                return Err(mk_error(RwErrorKind::TypeAnnotation, ty.span, "Fail to parse type declaration"));
            }
            let seg = &segs[0];
            match &seg.args {
                PathArgs::Angle(a) => {
                    let mut s = seg.ident.clone();
                    s.append("::");
                    s.append(a.as_str());
                    s.append("::T");
                    let d = dec_str(depth as u64);
                    s.append(d.as_str());
                    s.append("(");
                    s.append(txt);
                    s.append(")");
                    Ok(s)
                },
                _ => Err(mk_error(RwErrorKind::TypeAnnotation, ty.span, "Fail to parse type declaration")),
            }
        },
        TypeKind::Other => Err(mk_error(RwErrorKind::TypeAnnotation, ty.span, "Fail to parse type declaration")),
    }
}

/// Renders the leading statements of a block, each followed by a space.
fn before_text(stmts: &Vec<Tokens>, i: usize, end: usize) -> (r: String)
    requires
        i <= end,
        end <= stmts@.len(),
    ensures
        r@ == spec_before_text(stmts@, i as int, end as int),
    decreases end - i,
{
    if i >= end {
        String::new()
    } else {
        let mut s = stmts[i].text.clone();
        s.append(" ");
        let rest = before_text(stmts, i + 1, end);
        s.append(rest.as_str());
        s
    }
}

/// Rewrites a `then` or `else` block.
fn rewrite_block(b: &BlockExpr, ty: &TypeAnn, depth: usize) -> (r: Result<(String, usize), RwError>)
    requires
        depth + 1 <= usize::MAX,
    ensures
        spec_rewrite_block(*b, *ty, depth as nat) matches Ok(p) ==> (r matches Ok(q) && q.0@ == p.0
            && q.1 == p.1),
        spec_rewrite_block(*b, *ty, depth as nat) matches Err(e) ==> (r matches Err(x) && x.kind
            == e.0 && x.span == e.1 && x.message@ == e.2),
{
    let d1 = depth + 1;
    let n = b.stmts.len();
    if n == 0 {
        return Err(mk_error(RwErrorKind::UnsupportedExpression, b.span, "expected a trailing statement in the branch block"));
    }
    let last = &b.stmts[n - 1];
    match wrap_terminal(ty, d1, last.text.as_str()) {
        Err(e) => Err(e),
        Ok(w) => {
            let mut s = String::from_str("{ ");
            let before = before_text(&b.stmts, 0, n - 1);
            s.append(before.as_str());
            s.append(w.as_str());
            s.append(" }");
            Ok((s, d1))
        },
    }
}

/// Rewrites an `if` chain.
fn rewrite_if(f: &IfExpr, ty: &TypeAnn, depth: usize) -> (r: Result<(String, usize), RwError>)
    requires
        depth + spec_incr_if(*f) <= usize::MAX,
    ensures
        spec_rewrite_if(*f, *ty, depth as nat) matches Ok(p) ==> (r matches Ok(q) && q.0@ == p.0
            && q.1 == p.1),
        spec_rewrite_if(*f, *ty, depth as nat) matches Err(e) ==> (r matches Err(x) && x.kind
            == e.0 && x.span == e.1 && x.message@ == e.2),
    decreases f, 0int,
{
    match rewrite_block(&f.then_branch, ty, depth) {
        Err(e) => Err(e),
        Ok((then_text, d1)) => {
            match &f.else_branch {
                None => Err(mk_error(RwErrorKind::UnsupportedExpression, f.span, "expected an `else` arm to end the `if` chain")),
                Some(ElseBranch::Block(b)) => {
                    match rewrite_block(b, ty, d1) {
                        Err(e) => Err(e),
                        Ok((else_text, d2)) => {
                            let mut s = String::from_str("if ");
                            s.append(f.cond.text.as_str());
                            s.append(" ");
                            s.append(then_text.as_str());
                            s.append(" else ");
                            s.append(else_text.as_str());
                            Ok((s, d2))
                        },
                    }
                },
                Some(ElseBranch::ElseIf(g)) => {
                    match rewrite_if(&**g, ty, d1) {
                        Err(e) => Err(e),
                        Ok((if_text, d2)) => {
                            let mut s = String::from_str("if ");
                            s.append(f.cond.text.as_str());
                            s.append(" ");
                            s.append(then_text.as_str());
                            s.append(" else ");
                            s.append(if_text.as_str());
                            Ok((s, d2))
                        },
                    }
                },
                Some(ElseBranch::Other(t)) => Err(mk_error(RwErrorKind::UnsupportedExpression, t.span, "expected else or elseif")),
            }
        },
    }
}

/// Rewrites the arms of a `match` from index `i` on.
fn rewrite_arms(arms: &Vec<MatchArm>, i: usize, ty: &TypeAnn, depth: usize) -> (r: Result<
    (String, usize),
    RwError,
>)
    requires
        i <= arms@.len(),
        depth + spec_incr_arms(arms@, i as int) <= usize::MAX,
    ensures
        spec_rewrite_arms(arms@, i as int, *ty, depth as nat) matches Ok(p) ==> (r matches Ok(q)
            && q.0@ == p.0 && q.1 == p.1),
        spec_rewrite_arms(arms@, i as int, *ty, depth as nat) matches Err(e) ==> (r matches Err(x)
            && x.kind == e.0 && x.span == e.1 && x.message@ == e.2),
    decreases arms@, arms@.len() - i,
{
    if i >= arms.len() {
        Ok((String::new(), depth))
    } else {
        let d1 = depth + 1;
        let arm = &arms[i];
        match rewrite_expr(&arm.body, ty, d1) {
            Err(e) => Err(e),
            Ok((body_text, d2)) => {
                proof {
                    lemma_expr_depth(arms@[i as int].body, *ty, d1 as nat);
                }
                match rewrite_arms(arms, i + 1, ty, d2) {
                    Err(e) => Err(e),
                    Ok((rest, d3)) => {
                        let mut s = arm.pat.text.clone();
                        s.append(" => ");
                        s.append(body_text.as_str());
                        s.append(", ");
                        s.append(rest.as_str());
                        Ok((s, d3))
                    },
                }
            },
        }
    }
}

/// Rewrites a `match` block.
fn rewrite_match(m: &MatchExpr, ty: &TypeAnn, depth: usize) -> (r: Result<(String, usize), RwError>)
    requires
        depth + spec_incr_arms(m.arms@, 0) <= usize::MAX,
    ensures
        spec_rewrite_match(*m, *ty, depth as nat) matches Ok(p) ==> (r matches Ok(q) && q.0@ == p.0
            && q.1 == p.1),
        spec_rewrite_match(*m, *ty, depth as nat) matches Err(e) ==> (r matches Err(x) && x.kind
            == e.0 && x.span == e.1 && x.message@ == e.2),
    decreases m, 0int,
{
    match rewrite_arms(&m.arms, 0, ty, depth) {
        Err(e) => Err(e),
        Ok((arms_text, d)) => {
            let mut s = String::from_str("match ");
            s.append(m.scrutinee.text.as_str());
            s.append(" { ");
            s.append(arms_text.as_str());
            s.append("}");
            Ok((s, d))
        },
    }
}

/// Rewrites an expression in branch-arm position.
fn rewrite_expr(e: &Expr, ty: &TypeAnn, depth: usize) -> (r: Result<(String, usize), RwError>)
    requires
        depth + spec_incr_expr(*e) <= usize::MAX,
    ensures
        spec_rewrite_expr(*e, *ty, depth as nat) matches Ok(p) ==> (r matches Ok(q) && q.0@ == p.0
            && q.1 == p.1),
        spec_rewrite_expr(*e, *ty, depth as nat) matches Err(er) ==> (r matches Err(x) && x.kind
            == er.0 && x.span == er.1 && x.message@ == er.2),
    decreases e, 0int,
{
    match e {
        Expr::If(f) => rewrite_if(f, ty, depth),
        Expr::Match(m) => rewrite_match(m, ty, depth),
        Expr::Lit(t) => match wrap_terminal(ty, depth, t.text.as_str()) {
            Ok(w) => Ok((w, depth)),
            Err(e2) => Err(e2),
        },
        Expr::MethodCall(t) => match wrap_terminal(ty, depth, t.text.as_str()) {
            Ok(w) => Ok((w, depth)),
            Err(e2) => Err(e2),
        },
        Expr::Other(t) => Err(mk_error(RwErrorKind::UnsupportedExpression, t.span, "Unsupported expression found.`if` or `match` expressions are supported.")),
    }
}

/// Rewrites the initializer: only an `if` chain or a `match` block is
/// accepted here.
fn rewrite_init(e: &Expr, ty: &TypeAnn, depth: usize) -> (r: Result<(String, usize), RwError>)
    requires
        depth + spec_incr_expr(*e) <= usize::MAX,
    ensures
        spec_rewrite_init(*e, *ty, depth as nat) matches Ok(p) ==> (r matches Ok(q) && q.0@ == p.0
            && q.1 == p.1),
        spec_rewrite_init(*e, *ty, depth as nat) matches Err(er) ==> (r matches Err(x) && x.kind
            == er.0 && x.span == er.1 && x.message@ == er.2),
{
    match e {
        Expr::If(f) => rewrite_if(f, ty, depth),
        Expr::Match(m) => rewrite_match(m, ty, depth),
        Expr::Lit(t) => Err(mk_error(RwErrorKind::UnsupportedExpression, t.span, "Unsupported expression found.`if` or `match` expressions are supported.")),
        Expr::MethodCall(t) => Err(mk_error(RwErrorKind::UnsupportedExpression, t.span, "Unsupported expression found.`if` or `match` expressions are supported.")),
        Expr::Other(t) => Err(mk_error(RwErrorKind::UnsupportedExpression, t.span, "Unsupported expression found.`if` or `match` expressions are supported.")),
    }
}

/// The rewriter's entry point.
///
/// Accepts a `let` binding whose pattern carries an explicit type
/// annotation and whose initializer is an `if` chain or a `match` block;
/// emits the rewritten binding with every branch tail wrapped in the
/// constructor call of its structural ordinal. Every other shape is
/// refused with a located error, exactly as the model `spec_rewrite` says.
pub fn rewrite(s: &Stmt) -> (r: Result<String, RwError>)
    requires
        spec_incr_stmt(*s) <= usize::MAX,
    ensures
        spec_rewrite(*s) matches Ok(t) ==> (r matches Ok(x) && x@ == t),
        spec_rewrite(*s) matches Err(e) ==> (r matches Err(x) && x.kind == e.0 && x.span == e.1
            && x.message@ == e.2),
{
    match s {
        Stmt::Other(t) => Err(mk_error(RwErrorKind::Shape, t.span, "expected a `let` binding")),
        Stmt::Let(ls) => match &ls.pat {
            Pat::Other(t) => Err(mk_error(RwErrorKind::Shape, t.span, "Fail to parse `let` binding: the pattern needs an explicit type annotation using the Or type")),
            Pat::Typed(tp) => match &ls.init {
                None => Err(mk_error(RwErrorKind::Shape, ls.span, "expected an initializer in the `let` binding")),
                Some(e) => match rewrite_init(e, &tp.ty, 0) {
                    Err(er) => Err(er),
                    Ok(p) => {
                        let mut out = String::from_str("let ");
                        out.append(tp.pat.text.as_str());
                        out.append(": ");
                        let tytext = render_type(&tp.ty);
                        out.append(tytext.as_str());
                        out.append(" = ");
                        out.append(p.0.as_str());
                        out.append(";");
                        Ok(out)
                    },
                },
            },
        },
    }
}

// ---------------------------------------------------------------------------
// Laws of the rewrite.
// ---------------------------------------------------------------------------

/// Determinism: the rewrite is a pure function of the statement tree and
/// its annotation, so rewriting equal statements, or the same statement
/// twice, yields the same outcome.
pub proof fn lemma_rewrite_deterministic(a: Stmt, b: Stmt)
    requires
        a == b,
    ensures
        spec_rewrite(a) == spec_rewrite(b),
{
}

/// Rejection: a `let` binding whose initializer is neither an `if` chain
/// nor a `match` block is refused with an unsupported-expression error;
/// no output is ever produced for it.
pub proof fn lemma_rejects_non_branch_initializer(s: Stmt)
    requires
        s matches Stmt::Let(ls) && ls.pat is Typed && (ls.init matches Some(e) && !(e is If) && !(e
            is Match)),
    ensures
        spec_rewrite(s) matches Err(er) && er.0 == RwErrorKind::UnsupportedExpression,
{
}

} // verus!
