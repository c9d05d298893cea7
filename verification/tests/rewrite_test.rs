use or_rs::ast::BlockExpr;
use or_rs::ast::ElseBranch;
use or_rs::ast::Expr;
use or_rs::ast::IfExpr;
use or_rs::ast::LetStmt;
use or_rs::ast::MatchArm;
use or_rs::ast::MatchExpr;
use or_rs::ast::Pat;
use or_rs::ast::PathArgs;
use or_rs::ast::PathSeg;
use or_rs::ast::Span;
use or_rs::ast::Stmt;
use or_rs::ast::Tokens;
use or_rs::ast::TypeAnn;
use or_rs::ast::TypedPat;
use or_rs::ast::TypeKind;
use or_rs::rewrite::rewrite;
use or_rs::rewrite::RwErrorKind;

fn sp() -> Span {
    Span { start_line: 1, start_col: 0, end_line: 1, end_col: 0 }
}

fn at(line: usize, col: usize) -> Span {
    Span { start_line: line, start_col: col, end_line: line, end_col: col + 1 }
}

fn tok(s: &str) -> Tokens {
    Tokens { text: s.to_string(), span: sp() }
}

fn tok_at(s: &str, span: Span) -> Tokens {
    Tokens { text: s.to_string(), span }
}

fn generic_ty(name: &str, args: &str) -> TypeAnn {
    TypeAnn {
        kind: TypeKind::Path(vec![PathSeg {
            ident: name.to_string(),
            args: PathArgs::Angle(args.to_string()),
        }]),
        span: sp(),
    }
}

fn typed_let(pat: &str, ty: TypeAnn, init: Expr) -> Stmt {
    Stmt::Let(LetStmt { pat: Pat::Typed(TypedPat { pat: tok(pat), ty }), init: Some(init), span: sp() })
}

fn three_way_if() -> Expr {
    // if true { 3 } else if false { "hello".to_string() } else { 3.0 }
    Expr::If(IfExpr {
        cond: tok("true"),
        then_branch: BlockExpr { stmts: vec![tok("3")], span: sp() },
        else_branch: Some(ElseBranch::ElseIf(Box::new(IfExpr {
            cond: tok("false"),
            then_branch: BlockExpr {
                stmts: vec![tok("\"hello\".to_string()")],
                span: sp(),
            },
            else_branch: Some(ElseBranch::Block(BlockExpr {
                stmts: vec![tok("3.0")],
                span: sp(),
            })),
            span: sp(),
        }))),
        span: sp(),
    })
}

// Labels follow branch position, not payload type: the tails 3, "hello",
// 3.0 under the annotation Or3<i32, String, f32> become T1, T2, T3.
#[test]
fn test_if_chain_labeling() {
    let stmt = typed_let("x", generic_ty("Or3", "<i32, String, f32>"), three_way_if());
    let out = rewrite(&stmt).unwrap();
    assert_eq!(
        out,
        "let x: Or3<i32, String, f32> = if true { Or3::<i32, String, f32>::T1(3) } \
         else if false { Or3::<i32, String, f32>::T2(\"hello\".to_string()) } \
         else { Or3::<i32, String, f32>::T3(3.0) };"
    );
}

// The labeling is type-blind even when the order contradicts the types.
#[test]
fn test_ordinal_labeling_is_structural() {
    let stmt = typed_let(
        "s",
        generic_ty("Union3", "<i32, f32, String>"),
        Expr::Match(MatchExpr {
            scrutinee: tok("v"),
            arms: vec![
                MatchArm { pat: tok("1"), body: Expr::Lit(tok("33")) },
                MatchArm { pat: tok("3"), body: Expr::Lit(tok("3.2")) },
                MatchArm {
                    pat: tok("_"),
                    body: Expr::MethodCall(tok("\"x\".to_string()")),
                },
            ],
        }),
    );
    let out = rewrite(&stmt).unwrap();
    assert_eq!(
        out,
        "let s: Union3<i32, f32, String> = match v { \
         1 => Union3::<i32, f32, String>::T1(33), \
         3 => Union3::<i32, f32, String>::T2(3.2), \
         _ => Union3::<i32, f32, String>::T3(\"x\".to_string()), };"
    );
}

// A match arm whose body is itself a branch construct is rewritten
// recursively, and the single counter keeps running through it.
#[test]
fn test_nested_match_keeps_counting() {
    let stmt = typed_let(
        "s",
        generic_ty("Or4", "<i32, f32, u8, String>"),
        Expr::Match(MatchExpr {
            scrutinee: tok("v"),
            arms: vec![
                MatchArm { pat: tok("1"), body: Expr::Lit(tok("33")) },
                MatchArm {
                    pat: tok("2"),
                    body: Expr::Match(MatchExpr {
                        scrutinee: tok("w"),
                        arms: vec![
                            MatchArm { pat: tok("true"), body: Expr::Lit(tok("3.2")) },
                            MatchArm { pat: tok("false"), body: Expr::Lit(tok("7")) },
                        ],
                    }),
                },
                MatchArm {
                    pat: tok("_"),
                    body: Expr::MethodCall(tok("\"x\".to_string()")),
                },
            ],
        }),
    );
    let out = rewrite(&stmt).unwrap();
    assert_eq!(
        out,
        "let s: Or4<i32, f32, u8, String> = match v { \
         1 => Or4::<i32, f32, u8, String>::T1(33), \
         2 => match w { \
         true => Or4::<i32, f32, u8, String>::T3(3.2), \
         false => Or4::<i32, f32, u8, String>::T4(7), }, \
         _ => Or4::<i32, f32, u8, String>::T5(\"x\".to_string()), };"
    );
}

// An `if` chain inside a match arm is rewritten recursively: the arm's own
// increment is followed by one increment per branch block of the chain.
#[test]
fn test_if_inside_match_arm() {
    let stmt = typed_let(
        "s",
        generic_ty("Or5", "<i32, f32, u8, u16, String>"),
        Expr::Match(MatchExpr {
            scrutinee: tok("v"),
            arms: vec![
                MatchArm { pat: tok("1"), body: Expr::Lit(tok("33")) },
                MatchArm {
                    pat: tok("2"),
                    body: Expr::If(IfExpr {
                        cond: tok("c"),
                        then_branch: BlockExpr { stmts: vec![tok("7")], span: sp() },
                        else_branch: Some(ElseBranch::Block(BlockExpr {
                            stmts: vec![tok("9")],
                            span: sp(),
                        })),
                        span: sp(),
                    }),
                },
                MatchArm {
                    pat: tok("_"),
                    body: Expr::MethodCall(tok("\"x\".to_string()")),
                },
            ],
        }),
    );
    let out = rewrite(&stmt).unwrap();
    assert_eq!(
        out,
        "let s: Or5<i32, f32, u8, u16, String> = match v { \
         1 => Or5::<i32, f32, u8, u16, String>::T1(33), \
         2 => if c { Or5::<i32, f32, u8, u16, String>::T3(7) } \
         else { Or5::<i32, f32, u8, u16, String>::T4(9) }, \
         _ => Or5::<i32, f32, u8, u16, String>::T5(\"x\".to_string()), };"
    );
}

// Rewriting is deterministic: the same statement rewrites to the same text.
#[test]
fn test_rewrite_deterministic() {
    let a = typed_let("x", generic_ty("Or3", "<i32, String, f32>"), three_way_if());
    let b = typed_let("x", generic_ty("Or3", "<i32, String, f32>"), three_way_if());
    let out1 = rewrite(&a).unwrap();
    let out2 = rewrite(&b).unwrap();
    assert_eq!(out1, out2);
}

// A binding whose initializer is a plain literal is rejected, never
// silently wrapped.
#[test]
fn test_rejects_literal_initializer() {
    let stmt = typed_let(
        "x",
        generic_ty("Or3", "<i32, String, f32>"),
        Expr::Lit(tok_at("5", at(3, 9))),
    );
    let err = rewrite(&stmt).unwrap_err();
    assert_eq!(err.kind, RwErrorKind::UnsupportedExpression);
    assert_eq!(err.span, at(3, 9));
    assert_eq!(
        err.message,
        "Unsupported expression found.`if` or `match` expressions are supported."
    );
}

// A method-call initializer is rejected too: only `if` and `match` are
// accepted at the top.
#[test]
fn test_rejects_method_call_initializer() {
    let stmt = typed_let(
        "x",
        generic_ty("Or2", "<i32, f32>"),
        Expr::MethodCall(tok("\"x\".to_string()")),
    );
    let err = rewrite(&stmt).unwrap_err();
    assert_eq!(err.kind, RwErrorKind::UnsupportedExpression);
}

// A statement that is not a `let` binding is a shape error.
#[test]
fn test_rejects_non_let_statement() {
    let stmt = Stmt::Other(tok_at("foo();", at(2, 0)));
    let err = rewrite(&stmt).unwrap_err();
    assert_eq!(err.kind, RwErrorKind::Shape);
    assert_eq!(err.span, at(2, 0));
    assert_eq!(err.message, "expected a `let` binding");
}

// A `let` binding without a type annotation is a shape error.
#[test]
fn test_rejects_untyped_pattern() {
    let stmt = Stmt::Let(LetStmt {
        pat: Pat::Other(tok_at("x", at(1, 4))),
        init: Some(three_way_if()),
        span: sp(),
    });
    let err = rewrite(&stmt).unwrap_err();
    assert_eq!(err.kind, RwErrorKind::Shape);
    assert_eq!(err.span, at(1, 4));
    assert_eq!(
        err.message,
        "Fail to parse `let` binding: the pattern needs an explicit type annotation using the Or type"
    );
}

// A `let` binding without an initializer is a shape error.
#[test]
fn test_rejects_missing_initializer() {
    let stmt = Stmt::Let(LetStmt {
        pat: Pat::Typed(TypedPat {
            pat: tok("x"),
            ty: generic_ty("Or2", "<i32, f32>"),
        }),
        init: None,
        span: at(4, 0),
    });
    let err = rewrite(&stmt).unwrap_err();
    assert_eq!(err.kind, RwErrorKind::Shape);
    assert_eq!(err.span, at(4, 0));
    assert_eq!(err.message, "expected an initializer in the `let` binding");
}

// An annotation without a generic argument list cannot name a constructor:
// the failure surfaces at the first wrapped terminal.
#[test]
fn test_rejects_ungeneric_annotation() {
    let ty = TypeAnn {
        kind: TypeKind::Path(vec![PathSeg {
            ident: "i32".to_string(),
            args: PathArgs::Bare,
        }]),
        span: at(1, 7),
    };
    let stmt = typed_let("x", ty, three_way_if());
    let err = rewrite(&stmt).unwrap_err();
    assert_eq!(err.kind, RwErrorKind::TypeAnnotation);
    assert_eq!(err.span, at(1, 7));
    assert_eq!(err.message, "Fail to parse type declaration");
}

// A non-path annotation is a type-annotation error as well.
#[test]
fn test_rejects_non_path_annotation() {
    let ty = TypeAnn { kind: TypeKind::Other, span: at(1, 7) };
    let stmt = typed_let("x", ty, three_way_if());
    let err = rewrite(&stmt).unwrap_err();
    assert_eq!(err.kind, RwErrorKind::TypeAnnotation);
}

// An `if` without an `else` has no final arm and is refused.
#[test]
fn test_rejects_if_without_else() {
    let stmt = typed_let(
        "x",
        generic_ty("Or2", "<i32, f32>"),
        Expr::If(IfExpr {
            cond: tok("true"),
            then_branch: BlockExpr { stmts: vec![tok("3")], span: sp() },
            else_branch: None,
            span: at(5, 2),
        }),
    );
    let err = rewrite(&stmt).unwrap_err();
    assert_eq!(err.kind, RwErrorKind::UnsupportedExpression);
    assert_eq!(err.span, at(5, 2));
    assert_eq!(err.message, "expected an `else` arm to end the `if` chain");
}

// An else-arm that is neither a block nor another `if` is refused.
#[test]
fn test_rejects_strange_else() {
    let stmt = typed_let(
        "x",
        generic_ty("Or2", "<i32, f32>"),
        Expr::If(IfExpr {
            cond: tok("true"),
            then_branch: BlockExpr { stmts: vec![tok("3")], span: sp() },
            else_branch: Some(ElseBranch::Other(tok_at("loop {}", at(6, 10)))),
            span: sp(),
        }),
    );
    let err = rewrite(&stmt).unwrap_err();
    assert_eq!(err.kind, RwErrorKind::UnsupportedExpression);
    assert_eq!(err.span, at(6, 10));
    assert_eq!(err.message, "expected else or elseif");
}

// An empty branch block has no trailing statement to wrap and is refused.
#[test]
fn test_rejects_empty_block() {
    let stmt = typed_let(
        "x",
        generic_ty("Or2", "<i32, f32>"),
        Expr::If(IfExpr {
            cond: tok("true"),
            then_branch: BlockExpr { stmts: vec![], span: at(7, 12) },
            else_branch: Some(ElseBranch::Block(BlockExpr {
                stmts: vec![tok("3.0")],
                span: sp(),
            })),
            span: sp(),
        }),
    );
    let err = rewrite(&stmt).unwrap_err();
    assert_eq!(err.kind, RwErrorKind::UnsupportedExpression);
    assert_eq!(err.span, at(7, 12));
    assert_eq!(err.message, "expected a trailing statement in the branch block");
}

// An unsupported expression kind as a match-arm body is refused.
#[test]
fn test_rejects_unsupported_arm_body() {
    let stmt = typed_let(
        "s",
        generic_ty("Or2", "<i32, f32>"),
        Expr::Match(MatchExpr {
            scrutinee: tok("v"),
            arms: vec![
                MatchArm { pat: tok("1"), body: Expr::Lit(tok("33")) },
                MatchArm { pat: tok("_"), body: Expr::Other(tok_at("v + 1", at(9, 14))) },
            ],
        }),
    );
    let err = rewrite(&stmt).unwrap_err();
    assert_eq!(err.kind, RwErrorKind::UnsupportedExpression);
    assert_eq!(err.span, at(9, 14));
}

// A multi-segment path annotation takes its constructor pieces from the
// first segment, which must carry the angle-bracketed arguments.
#[test]
fn test_multi_segment_path_annotation() {
    let ty = TypeAnn {
        kind: TypeKind::Path(vec![
            PathSeg { ident: "enums".to_string(), args: PathArgs::Bare },
            PathSeg {
                ident: "Or2".to_string(),
                args: PathArgs::Angle("<i32, f32>".to_string()),
            },
        ]),
        span: at(1, 7),
    };
    let stmt = typed_let("x", ty, three_way_if());
    // The first segment `enums` has no angle-bracketed arguments.
    let err = rewrite(&stmt).unwrap_err();
    assert_eq!(err.kind, RwErrorKind::TypeAnnotation);
}
