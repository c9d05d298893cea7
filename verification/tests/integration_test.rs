use or_rs::ast::BlockExpr;
use or_rs::ast::ElseBranch;
use or_rs::ast::Expr;
use or_rs::ast::IfExpr;
use or_rs::ast::LetStmt;
use or_rs::ast::MatchArm;
use or_rs::ast::MatchExpr;
use or_rs::ast::Pat;
use or_rs::ast::PathArgs;
use or_rs::ast::PathSeg;
use or_rs::ast::Span;
use or_rs::ast::Stmt;
use or_rs::ast::Tokens;
use or_rs::ast::TypeAnn;
use or_rs::ast::TypedPat;
use or_rs::ast::TypeKind;
use or_rs::enums::Or3;
use or_rs::rewrite::rewrite;

fn sp() -> Span {
    Span { start_line: 1, start_col: 0, end_line: 1, end_col: 0 }
}

fn tok(s: &str) -> Tokens {
    Tokens { text: s.to_string(), span: sp() }
}

fn generic_ty(name: &str, args: &str) -> TypeAnn {
    TypeAnn {
        kind: TypeKind::Path(vec![PathSeg {
            ident: name.to_string(),
            args: PathArgs::Angle(args.to_string()),
        }]),
        span: sp(),
    }
}

#[test]
fn test_or_gen() {
    // let x: Or3<i32, String, f32> = if true {
    //     3
    // } else if false {
    //     "tofs".to_string()
    // } else {
    //     11;
    //     3.0
    // };
    let stmt = Stmt::Let(LetStmt {
        pat: Pat::Typed(TypedPat {
            pat: tok("x"),
            ty: generic_ty("Or3", "<i32, String, f32>"),
        }),
        init: Some(Expr::If(IfExpr {
            cond: tok("true"),
            then_branch: BlockExpr { stmts: vec![tok("3")], span: sp() },
            else_branch: Some(ElseBranch::ElseIf(Box::new(IfExpr {
                cond: tok("false"),
                then_branch: BlockExpr {
                    stmts: vec![tok("\"tofs\".to_string()")],
                    span: sp(),
                },
                else_branch: Some(ElseBranch::Block(BlockExpr {
                    stmts: vec![tok("11;"), tok("3.0")],
                    span: sp(),
                })),
                span: sp(),
            }))),
            span: sp(),
        })),
        span: sp(),
    });
    let out = rewrite(&stmt).unwrap();
    assert_eq!(
        out,
        "let x: Or3<i32, String, f32> = if true { Or3::<i32, String, f32>::T1(3) } \
         else if false { Or3::<i32, String, f32>::T2(\"tofs\".to_string()) } \
         else { 11; Or3::<i32, String, f32>::T3(3.0) };"
    );

    // The `true` branch is taken, so the binding holds slot 1.
    let x: Or3<i32, String, f32> = Or3::T1(3);
    // map works **only** when the inner value of Or is i32.
    let y = x.map_t1(|a| a * a);
    assert_eq!(y.clone().as_t1().unwrap(), 9);
    // map works **only** when the inner value of Or is f32.
    let z = y.map_t3(|a: f32| a.floor());
    assert_eq!(z.as_t1().unwrap(), 9);
}

#[allow(dead_code, unused_variables)]
#[test]
fn test_match() {
    let a = 3;

    // let s: Or3<i32, f32, String> = match a {
    //     1 => 33,
    //     3 => 3.2,
    //     _ => "hello".to_string(),
    // };
    let stmt = Stmt::Let(LetStmt {
        pat: Pat::Typed(TypedPat {
            pat: tok("s"),
            ty: generic_ty("Or3", "<i32, f32, String>"),
        }),
        init: Some(Expr::Match(MatchExpr {
            scrutinee: tok("a"),
            arms: vec![
                MatchArm { pat: tok("1"), body: Expr::Lit(tok("33")) },
                MatchArm { pat: tok("3"), body: Expr::Lit(tok("3.2")) },
                MatchArm {
                    pat: tok("_"),
                    body: Expr::MethodCall(tok("\"hello\".to_string()")),
                },
            ],
        })),
        span: sp(),
    });
    let out = rewrite(&stmt).unwrap();
    assert_eq!(
        out,
        "let s: Or3<i32, f32, String> = match a { \
         1 => Or3::<i32, f32, String>::T1(33), \
         3 => Or3::<i32, f32, String>::T2(3.2), \
         _ => Or3::<i32, f32, String>::T3(\"hello\".to_string()), };"
    );

    // With a == 3 the second arm is taken, so the binding holds slot 2.
    let s: Or3<i32, f32, String> = Or3::T2(3.2);
}
