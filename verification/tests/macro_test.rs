#![allow(unused_variables)]

use or_rs::ast::BlockExpr;
use or_rs::ast::ElseBranch;
use or_rs::ast::Expr;
use or_rs::ast::IfExpr;
use or_rs::ast::LetStmt;
use or_rs::ast::MatchArm;
use or_rs::ast::MatchExpr;
use or_rs::ast::Pat;
use or_rs::ast::PathArgs;
use or_rs::ast::PathSeg;
use or_rs::ast::Span;
use or_rs::ast::Stmt;
use or_rs::ast::Tokens;
use or_rs::ast::TypeAnn;
use or_rs::ast::TypedPat;
use or_rs::ast::TypeKind;
use or_rs::rewrite::rewrite;

fn sp() -> Span {
    Span { start_line: 1, start_col: 0, end_line: 1, end_col: 0 }
}

fn tok(s: &str) -> Tokens {
    Tokens { text: s.to_string(), span: sp() }
}

fn generic_ty(name: &str, args: &str) -> TypeAnn {
    TypeAnn {
        kind: TypeKind::Path(vec![PathSeg {
            ident: name.to_string(),
            args: PathArgs::Angle(args.to_string()),
        }]),
        span: sp(),
    }
}

fn typed_let(pat: &str, ty: TypeAnn, init: Expr) -> Stmt {
    Stmt::Let(LetStmt { pat: Pat::Typed(TypedPat { pat: tok(pat), ty }), init: Some(init), span: sp() })
}

#[allow(dead_code)]
fn f1() -> i32 {
    42
}

#[allow(dead_code)]
fn f2() -> f32 {
    42.0
}

#[test]
fn test_compile() {
    // simple if expr1
    // let _: Or3<i32, String, f32> = if true {
    //     3
    // } else if false {
    //     "tofs".to_string()
    // } else {
    //     11;
    //     22;
    //     let s = 33;
    //     44;
    //     3.0
    // };
    let stmt1 = typed_let(
        "_",
        generic_ty("Or3", "<i32, String, f32>"),
        Expr::If(IfExpr {
            cond: tok("true"),
            then_branch: BlockExpr { stmts: vec![tok("3")], span: sp() },
            else_branch: Some(ElseBranch::ElseIf(Box::new(IfExpr {
                cond: tok("false"),
                then_branch: BlockExpr {
                    stmts: vec![tok("\"tofs\".to_string()")],
                    span: sp(),
                },
                else_branch: Some(ElseBranch::Block(BlockExpr {
                    stmts: vec![
                        tok("11;"),
                        tok("22;"),
                        tok("let s = 33;"),
                        tok("44;"),
                        tok("3.0"),
                    ],
                    span: sp(),
                })),
                span: sp(),
            }))),
            span: sp(),
        }),
    );
    let out1 = rewrite(&stmt1).unwrap();
    assert_eq!(
        out1,
        "let _: Or3<i32, String, f32> = if true { Or3::<i32, String, f32>::T1(3) } \
         else if false { Or3::<i32, String, f32>::T2(\"tofs\".to_string()) } \
         else { 11; 22; let s = 33; 44; Or3::<i32, String, f32>::T3(3.0) };"
    );

    // simple if expr2
    // let _: Or2<String, f32> = if false {
    //     3;
    //     let a = f1();
    //     3;
    //     if a == 3 {}
    //     ();
    //     3;
    //     "".to_string()
    // } else {
    //     let f = f2();
    //     if let Some(x) = Some(3.0) { f + x } else { f }
    // };
    let stmt2 = typed_let(
        "_",
        generic_ty("Or2", "<String, f32>"),
        Expr::If(IfExpr {
            cond: tok("false"),
            then_branch: BlockExpr {
                stmts: vec![
                    tok("3;"),
                    tok("let a = f1();"),
                    tok("3;"),
                    tok("if a == 3 {}"),
                    tok("();"),
                    tok("3;"),
                    tok("\"\".to_string()"),
                ],
                span: sp(),
            },
            else_branch: Some(ElseBranch::Block(BlockExpr {
                stmts: vec![
                    tok("let f = f2();"),
                    tok("if let Some(x) = Some(3.0) { f + x } else { f }"),
                ],
                span: sp(),
            })),
            span: sp(),
        }),
    );
    let out2 = rewrite(&stmt2).unwrap();
    assert_eq!(
        out2,
        "let _: Or2<String, f32> = if false { 3; let a = f1(); 3; if a == 3 {} (); 3; \
         Or2::<String, f32>::T1(\"\".to_string()) } \
         else { let f = f2(); Or2::<String, f32>::T2(if let Some(x) = Some(3.0) { f + x } else { f }) };"
    );

    // simple match expr
    // let s: Or3<i32, f32, String> = match 31 {
    //     1 => 33,
    //     3 => 3.2,
    //     _ => "hello".to_string(),
    // };
    let stmt3 = typed_let(
        "s",
        generic_ty("Or3", "<i32, f32, String>"),
        Expr::Match(MatchExpr {
            scrutinee: tok("31"),
            arms: vec![
                MatchArm { pat: tok("1"), body: Expr::Lit(tok("33")) },
                MatchArm { pat: tok("3"), body: Expr::Lit(tok("3.2")) },
                MatchArm {
                    pat: tok("_"),
                    body: Expr::MethodCall(tok("\"hello\".to_string()")),
                },
            ],
        }),
    );
    let out3 = rewrite(&stmt3).unwrap();
    assert_eq!(
        out3,
        "let s: Or3<i32, f32, String> = match 31 { \
         1 => Or3::<i32, f32, String>::T1(33), \
         3 => Or3::<i32, f32, String>::T2(3.2), \
         _ => Or3::<i32, f32, String>::T3(\"hello\".to_string()), };"
    );

    let _ = f1();
    let _ = f2();
}
