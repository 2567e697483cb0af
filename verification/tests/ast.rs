use solid_modeling::lang::ast::Expr;
use solid_modeling::lang::types::Type;

#[test]
fn test_expr_construction() {
    // λ(x : Scalar). x + 1.0
    let expr = Expr::lambda(
        "x",
        Type::Scalar,
        Expr::app(Expr::app(Expr::builtin("+"), Expr::var("x")), Expr::scalar("1.0")),
    );

    match expr {
        Expr::Lambda { param, param_ty, .. } => {
            assert_eq!(param, "x");
            assert_eq!(param_ty, Type::Scalar);
        }
        _ => panic!("Expected lambda"),
    }
}

#[test]
fn test_field_construction() {
    // field (p : Vec 2) ↦ length p
    let field_expr = Expr::field("p", 2, Expr::app(Expr::builtin("length"), Expr::var("p")));

    match field_expr {
        Expr::Field { param, dim, .. } => {
            assert_eq!(param, "p");
            assert_eq!(dim, 2);
        }
        _ => panic!("Expected field"),
    }
}

#[test]
fn constructors_build_their_variants() {
    assert_eq!(Expr::var("x"), Expr::Var("x".to_string()));
    assert_eq!(Expr::scalar("2.5"), Expr::Scalar("2.5".to_string()));
    assert_eq!(Expr::bool(false), Expr::Bool(false));
    assert_eq!(Expr::nil(), Expr::Nil);
    assert_eq!(Expr::builtin("min"), Expr::Builtin("min".to_string()));
    assert_eq!(
        Expr::cons(Expr::scalar("1"), Expr::nil()),
        Expr::Cons { head: Box::new(Expr::scalar("1")), tail: Box::new(Expr::Nil) }
    );
    assert_eq!(
        Expr::let_bind("y", Type::Bool, Expr::bool(true), Expr::var("y")),
        Expr::Let {
            var: "y".to_string(),
            ty: Type::Bool,
            value: Box::new(Expr::Bool(true)),
            body: Box::new(Expr::Var("y".to_string())),
        }
    );
    assert_eq!(
        Expr::if_then_else(Expr::bool(true), Expr::scalar("1"), Expr::scalar("2")),
        Expr::If {
            cond: Box::new(Expr::Bool(true)),
            then_branch: Box::new(Expr::Scalar("1".to_string())),
            else_branch: Box::new(Expr::Scalar("2".to_string())),
        }
    );
}

#[test]
fn expression_copies_are_equal() {
    let e = Expr::field(
        "p",
        3,
        Expr::Vec(vec![Expr::scalar("1"), Expr::app(Expr::var("f"), Expr::nil())]),
    );
    assert_eq!(e.copy(), e);
}
