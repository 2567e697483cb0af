use solid_modeling::lang::ast::Expr;
use solid_modeling::lang::parser::{parse_expr, parse_program, ExprError};
use solid_modeling::lang::types::Type;

fn scalar_value(e: &Expr) -> f64 {
    match e {
        Expr::Scalar(text) => text.parse::<f64>().unwrap(),
        _ => panic!("Expected scalar"),
    }
}

#[test]
fn test_parse_scalar() {
    let expr = parse_program("42.0").unwrap();
    assert_eq!(scalar_value(&expr), 42.0);

    let expr = parse_program("3.14159").unwrap();
    assert_eq!(scalar_value(&expr), 3.14159);
}

#[test]
fn test_parse_bool() {
    let expr = parse_program("true").unwrap();
    assert_eq!(expr, Expr::bool(true));

    let expr = parse_program("false").unwrap();
    assert_eq!(expr, Expr::bool(false));
}

#[test]
fn test_parse_var() {
    let expr = parse_program("x").unwrap();
    assert_eq!(expr, Expr::var("x"));

    let expr = parse_program("my_var").unwrap();
    assert_eq!(expr, Expr::var("my_var"));
}

#[test]
fn test_parse_vector() {
    let expr = parse_program("(vec 1.0 2.0)").unwrap();
    match expr {
        Expr::Vec(components) => {
            assert_eq!(components.len(), 2);
        }
        _ => panic!("Expected vector"),
    }
}

#[test]
fn test_parse_application() {
    let expr = parse_program("(+ 2.0 3.0)").unwrap();
    match expr {
        Expr::App { func, arg } => match (*func, *arg) {
            (Expr::App { func: f2, arg: a1 }, a2) => {
                assert_eq!(*f2, Expr::var("+"));
                assert_eq!(scalar_value(&a1), 2.0);
                assert_eq!(scalar_value(&a2), 3.0);
            }
            _ => panic!("Expected nested application"),
        },
        _ => panic!("Expected application"),
    }
}

#[test]
fn test_parse_lambda() {
    let expr = parse_program("(fn (x Scalar) (+ x 1.0))").unwrap();
    match expr {
        Expr::Lambda { param, param_ty, body: _ } => {
            assert_eq!(param, "x");
            assert_eq!(param_ty, Type::Scalar);
        }
        _ => panic!("Expected lambda"),
    }
}

#[test]
fn test_parse_let() {
    let expr = parse_program("(let x 5.0 (+ x 1.0))").unwrap();
    match expr {
        Expr::Let { var, value, .. } => {
            assert_eq!(var, "x");
            assert_eq!(scalar_value(&value), 5.0);
        }
        _ => panic!("Expected let"),
    }
}

#[test]
fn test_parse_field() {
    let expr = parse_program("(field (p 2) (length p))").unwrap();
    match expr {
        Expr::Field { param, dim, .. } => {
            assert_eq!(param, "p");
            assert_eq!(dim, 2);
        }
        _ => panic!("Expected field"),
    }
}

#[test]
fn test_parse_if() {
    let expr = parse_program("(if (< x 0.0) 0.0 x)").unwrap();
    match expr {
        Expr::If { .. } => {}
        _ => panic!("Expected if"),
    }
}

#[test]
fn test_parse_with_comments() {
    let program = r#"
            ; This is a comment
            (+ 2.0 3.0)  ; Another comment
        "#;
    let expr = parse_program(program).unwrap();
    match expr {
        Expr::App { .. } => {}
        _ => panic!("Expected application"),
    }
}

#[test]
fn test_parse_nested() {
    let expr = parse_program("(+ (* 2.0 3.0) 4.0)").unwrap();
    match expr {
        Expr::App { .. } => {}
        _ => panic!("Expected application"),
    }
}

#[test]
fn test_parse_circle() {
    let program = r#"
            (fn (r Scalar)
                (field (p 2)
                    (- (length p) r)))
        "#;
    let expr = parse_program(program).unwrap();
    match expr {
        Expr::Lambda { .. } => {}
        _ => panic!("Expected lambda"),
    }
}

// ===== Further cases =====

#[test]
fn nil_cons_fold_and_colors() {
    assert_eq!(parse_program("()").unwrap(), Expr::nil());
    assert_eq!(
        parse_program("(cons 1.0 ())").unwrap(),
        Expr::cons(Expr::scalar("1.0"), Expr::nil())
    );
    match parse_program("(fold + 0.0 xs)").unwrap() {
        Expr::Fold { func, init, list } => {
            assert_eq!(*func, Expr::var("+"));
            assert_eq!(*init, Expr::scalar("0.0"));
            assert_eq!(*list, Expr::var("xs"));
        }
        _ => panic!("Expected fold"),
    }
    match parse_program("(rgb 1.0 0.0 0.5)").unwrap() {
        Expr::Color { a, .. } => assert_eq!(*a, Expr::scalar("1.0")),
        _ => panic!("Expected color"),
    }
    match parse_program("(rgba 1 0 0 0.25)").unwrap() {
        Expr::Color { a, .. } => assert_eq!(*a, Expr::scalar("0.25")),
        _ => panic!("Expected color"),
    }
}

#[test]
fn number_forms_are_kept_as_written() {
    for text in ["-1.5", "+2", ".5", "1.", "1e3", "2.5E-2", "nan", "INF"] {
        assert_eq!(parse_program(text).unwrap(), Expr::scalar(text), "{}", text);
    }
}

#[test]
fn minus_before_a_name_is_the_operator() {
    assert_eq!(
        parse_program("(-x)").unwrap(),
        Expr::app(Expr::var("-"), Expr::var("x"))
    );
}

#[test]
fn lambda_with_vector_type() {
    assert_eq!(
        parse_program("(fn (p Vec 2) (length p))").unwrap(),
        Expr::lambda("p", Type::Vec(2), Expr::app(Expr::var("length"), Expr::var("p")))
    );
}

#[test]
fn trailing_text_is_reported() {
    let err = parse_program("x y").unwrap_err();
    assert_eq!(err.message, "Unexpected input remaining: y");
    assert_eq!(err.to_string(), "Parse error: Unexpected input remaining: y");
}

#[test]
fn infinity_reads_as_inf_then_a_name() {
    let err = parse_program("infinity").unwrap_err();
    assert_eq!(err.message, "Unexpected input remaining: inity");
}

#[test]
fn rejected_program_message() {
    let err = parse_program("  (+ 1").unwrap_err();
    assert_eq!(err.message, "Parse error: Error(Error { input: \"(+ 1\", code: TakeWhile1 })");
}

#[test]
fn exponent_without_digits_fails_the_whole_parse() {
    let err = parse_program("(f 1e)").unwrap_err();
    assert_eq!(err.message, "Parse error: Failure(Error { input: \"1e)\", code: Float })");
    assert_eq!(parse_expr("(f 2E+x)"), Err(ExprError::Failure("2E+x)")));
}

#[test]
fn parse_expr_returns_the_rest() {
    let (rest, e) = parse_expr("  true false").unwrap();
    assert_eq!(rest, "false");
    assert_eq!(e, Expr::bool(true));
    assert_eq!(parse_expr("  )"), Err(ExprError::Error(")")));
}

#[test]
fn keywords_end_at_a_word_boundary() {
    // `vec_scale` is a name, not the keyword `vec` followed by `_scale`
    let expr = parse_program("(vec_scale 2.0)").unwrap();
    assert_eq!(expr, Expr::app(Expr::var("vec_scale"), Expr::scalar("2.0")));
    let expr = parse_program("(letter 1.0)").unwrap();
    assert_eq!(expr, Expr::app(Expr::var("letter"), Expr::scalar("1.0")));
    assert_eq!(parse_program("trueish").unwrap(), Expr::var("trueish"));
    assert_eq!(parse_program("(vec)").unwrap(), Expr::Vec(vec![]));
    assert_eq!(parse_program("(vec(vec))").unwrap(), Expr::Vec(vec![Expr::Vec(vec![])]));
}

#[test]
fn reserved_words_are_not_names() {
    let err = parse_program("fn").unwrap_err();
    assert_eq!(err.message, "Parse error: Error(Error { input: \"fn\", code: TakeWhile1 })");
    let err = parse_program("(let if 1.0 if)").unwrap_err();
    assert_eq!(
        err.message,
        "Parse error: Error(Error { input: \"(let if 1.0 if)\", code: TakeWhile1 })"
    );
    // a conditional without its else branch is no application of a name `if`
    assert!(parse_program("(if c 1.0)").is_err());
    // names that merely start with a reserved word are names
    assert_eq!(parse_program("iffy").unwrap(), Expr::var("iffy"));
    assert_eq!(parse_program("(let fold_sum 1.0 fold_sum)").unwrap(),
        Expr::let_bind("fold_sum", Type::Scalar, Expr::scalar("1.0"), Expr::var("fold_sum")));
}

#[test]
fn application_is_left_associative() {
    // (f a b c) = (((f a) b) c)
    let expected = Expr::app(
        Expr::app(Expr::app(Expr::var("f"), Expr::var("a")), Expr::var("b")),
        Expr::var("c"),
    );
    assert_eq!(parse_program("(f a b c)").unwrap(), expected);
    // a lone name in parentheses is the name itself
    assert_eq!(parse_program("(f)").unwrap(), Expr::var("f"));
}

#[test]
fn a_program_is_one_expression_and_blank_text() {
    for src in ["  (+ 1.0 2.0) ; done", "x", "(f a)\n\n; trailing\n", " ; lead\n true"] {
        let (rest, e) = parse_expr(src).unwrap();
        assert_eq!(rest, "");
        assert_eq!(parse_program(src).unwrap(), e);
    }
    let (rest, _) = parse_expr("x y").unwrap();
    assert_eq!(rest, "y");
    assert!(parse_program("x y").is_err());
}
