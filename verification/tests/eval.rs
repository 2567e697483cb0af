use solid_modeling::lang::ast::Expr;
use solid_modeling::lang::builtins::lookup_builtin;
use solid_modeling::lang::env::{Builtin, Env, EvalError, Value};
use solid_modeling::lang::eval::{eval, sample_field, Answer, Evaluation, Request};
use solid_modeling::lang::parser::parse_program;
use solid_modeling::lang::types::Type;

fn f(x: f64) -> u64 {
    x.to_bits()
}

fn g(bits: u64) -> f64 {
    f64::from_bits(bits)
}

fn scalar(v: &Value) -> f64 {
    match v {
        Value::Scalar(bits) => g(*bits),
        _ => panic!("expected a scalar, got {:?}", v),
    }
}

/// The floating-point side of evaluation, as the viewer computes it.
fn compute(req: &Request) -> Answer {
    match req {
        Request::Literal(text) => Ok(Value::Scalar(f(text.parse::<f64>().unwrap()))),
        Request::Call(b, args) => {
            let s = |i: usize| match &args[i] {
                Value::Scalar(x) => g(*x),
                _ => unreachable!(),
            };
            let v = |i: usize| match &args[i] {
                Value::Vec(x) => x.iter().map(|b| g(*b)).collect::<Vec<f64>>(),
                _ => unreachable!(),
            };
            match b {
                Builtin::Add => Ok(Value::Scalar(f(s(0) + s(1)))),
                Builtin::Sub => Ok(Value::Scalar(f(s(0) - s(1)))),
                Builtin::Mul => Ok(Value::Scalar(f(s(0) * s(1)))),
                Builtin::Div => {
                    if s(1).abs() < 1e-10 {
                        Err(EvalError::DivisionByZero)
                    } else {
                        Ok(Value::Scalar(f(s(0) / s(1))))
                    }
                }
                Builtin::Min => Ok(Value::Scalar(f(s(0).min(s(1))))),
                Builtin::Max => Ok(Value::Scalar(f(s(0).max(s(1))))),
                Builtin::Abs => Ok(Value::Scalar(f(s(0).abs()))),
                Builtin::Sin => Ok(Value::Scalar(f(s(0).sin()))),
                Builtin::Cos => Ok(Value::Scalar(f(s(0).cos()))),
                Builtin::Sqrt => Ok(Value::Scalar(f(s(0).sqrt()))),
                Builtin::Negate => Ok(Value::Scalar(f(-s(0)))),
                Builtin::Lt => Ok(Value::Bool(s(0) < s(1))),
                Builtin::Gt => Ok(Value::Bool(s(0) > s(1))),
                Builtin::Eq => Ok(Value::Bool((s(0) - s(1)).abs() < 1e-10)),
                Builtin::Length => {
                    Ok(Value::Scalar(f(v(0).iter().map(|x| x * x).sum::<f64>().sqrt())))
                }
                Builtin::Dot => {
                    Ok(Value::Scalar(f(v(0).iter().zip(v(1).iter()).map(|(x, y)| x * y).sum())))
                }
                Builtin::Normalize => {
                    let len = v(0).iter().map(|x| x * x).sum::<f64>().sqrt();
                    if len < 1e-10 {
                        Err(EvalError::InvalidOperation("Cannot normalize zero vector".to_string()))
                    } else {
                        Ok(Value::Vec(v(0).iter().map(|x| f(x / len)).collect()))
                    }
                }
                Builtin::VecAdd => {
                    Ok(Value::Vec(v(0).iter().zip(v(1).iter()).map(|(x, y)| f(x + y)).collect()))
                }
                Builtin::VecSub => {
                    Ok(Value::Vec(v(0).iter().zip(v(1).iter()).map(|(x, y)| f(x - y)).collect()))
                }
                Builtin::VecScale => Ok(Value::Vec(v(1).iter().map(|x| f(s(0) * x)).collect())),
            }
        }
    }
}

fn run(expr: &Expr, env: &Env) -> Answer {
    let mut log: Vec<Answer> = Vec::new();
    loop {
        match eval(expr, env, &log) {
            Evaluation::Finished(a) => return a,
            Evaluation::Pending(req) => log.push(compute(&req)),
        }
    }
}

fn sample(field: &Value, point: &Value) -> Answer {
    let mut log: Vec<Answer> = Vec::new();
    loop {
        match sample_field(field.clone(), point.clone(), &log) {
            Evaluation::Finished(a) => return a,
            Evaluation::Pending(req) => log.push(compute(&req)),
        }
    }
}

const NAMES: [&str; 20] = [
    "+", "-", "*", "/", "min", "max", "abs", "sin", "cos", "sqrt", "negate", "<", ">", "==",
    "length", "dot", "normalize", "vec_add", "vec_sub", "vec_scale",
];

fn builtin_env() -> Env {
    let mut env = Env::new();
    for name in NAMES {
        env.insert(name.to_string(), lookup_builtin(name).unwrap());
    }
    env
}

fn run_program(src: &str) -> Answer {
    run(&parse_program(src).unwrap(), &builtin_env())
}

#[test]
fn test_eval_scalar() {
    let env = Env::new();
    let expr = Expr::scalar("42.0");
    let result = run(&expr, &env).unwrap();
    assert_eq!(scalar(&result), 42.0);
}

#[test]
fn test_eval_vector() {
    let env = Env::new();
    let expr = Expr::Vec(vec![Expr::scalar("1.0"), Expr::scalar("2.0")]);
    let result = run(&expr, &env).unwrap();
    match result {
        Value::Vec(v) => assert_eq!(v, vec![f(1.0), f(2.0)]),
        other => panic!("Expected vector, got {:?}", other),
    }
}

#[test]
fn test_eval_lambda() {
    let env = Env::new();
    // λ(x : Scalar). x
    let expr = Expr::lambda("x", Type::Scalar, Expr::var("x"));
    let result = run(&expr, &env).unwrap();
    match result {
        Value::Closure { param, .. } => {
            assert_eq!(param, "x");
        }
        _ => panic!("Expected closure"),
    }
}

#[test]
fn test_eval_application() {
    let env = Env::new();
    // (λx. x) 42
    let identity = Expr::lambda("x", Type::Scalar, Expr::var("x"));
    let app = Expr::app(identity, Expr::scalar("42.0"));
    let result = run(&app, &env).unwrap();
    assert_eq!(scalar(&result), 42.0);
}

#[test]
fn test_eval_let() {
    let env = Env::new();
    // let x = 5.0 in x
    let expr = Expr::let_bind("x", Type::Scalar, Expr::scalar("5.0"), Expr::var("x"));
    let result = run(&expr, &env).unwrap();
    assert_eq!(scalar(&result), 5.0);
}

#[test]
fn a_literal_is_first_asked_for_by_its_text() {
    let log: Vec<Answer> = Vec::new();
    match eval(&Expr::scalar("42.0"), &Env::new(), &log) {
        Evaluation::Pending(Request::Literal(t)) => assert_eq!(t, "42.0"),
        other => panic!("expected a request, got {:?}", other),
    }
}

#[test]
fn answers_are_taken_in_order_and_extra_ones_ignored() {
    let expr = Expr::Vec(vec![Expr::scalar("1.0"), Expr::scalar("2.0")]);
    let log: Vec<Answer> = vec![Ok(Value::Scalar(7)), Ok(Value::Scalar(8)), Ok(Value::Scalar(9))];
    match eval(&expr, &Env::new(), &log) {
        Evaluation::Finished(Ok(Value::Vec(v))) => assert_eq!(v, vec![7, 8]),
        other => panic!("unexpected {:?}", other),
    }
}

#[test]
fn addition_of_two_literals() {
    // (+ 2.0 3.0) → 5.0
    assert_eq!(scalar(&run_program("(+ 2.0 3.0)").unwrap()), 5.0);
}

#[test]
fn applying_a_lambda_that_adds_one() {
    // (λx. x + 1.0) 5.0 → 6.0
    assert_eq!(scalar(&run_program("((fn (x Scalar) (+ x 1.0)) 5.0)").unwrap()), 6.0);
}

#[test]
fn sampling_a_circle() {
    // circle = λr. field (p : Vec 2) ↦ length p − r; sample (circle 2.0) ⟨3.0, 0.0⟩ → 1.0
    let circle = "(fn (r Scalar) (field (p 2) (- (length p) r)))";
    let field = run_program(&format!("({} 2.0)", circle)).unwrap();
    let point = Value::Vec(vec![f(3.0), f(0.0)]);
    assert_eq!(scalar(&sample(&field, &point).unwrap()), 1.0);
}

#[test]
fn fields_are_not_evaluated_until_sampled() {
    // The body refers to a name that is bound nowhere: building the field is fine.
    let expr = Expr::field("p", 2, Expr::var("nowhere"));
    let field = run(&expr, &Env::new()).unwrap();
    match &field {
        Value::Field { param, dim, .. } => {
            assert_eq!(param, "p");
            assert_eq!(*dim, 2);
        }
        other => panic!("Expected field, got {:?}", other),
    }
    let point = Value::Vec(vec![f(0.0), f(0.0)]);
    assert_eq!(sample(&field, &point).unwrap_err(), EvalError::UnboundVariable("nowhere".to_string()));
}

#[test]
fn sampling_checks_the_point() {
    let field = run(&Expr::field("p", 2, Expr::var("p")), &Env::new()).unwrap();
    let point = Value::Vec(vec![f(1.0), f(2.0), f(3.0)]);
    assert_eq!(sample(&field, &point).unwrap_err(), EvalError::InvalidDimension(3));
    assert_eq!(sample(&field, &Value::Scalar(f(1.0))).unwrap_err(), EvalError::TypeMismatch("Field must be sampled at a vector".to_string()));
    assert_eq!(sample(&Value::Scalar(f(1.0)), &point).unwrap_err(), EvalError::NotAField);
    match sample(&field, &Value::Vec(vec![f(1.0), f(2.0)])).unwrap() {
        Value::Vec(v) => assert_eq!(v, vec![f(1.0), f(2.0)]),
        other => panic!("unexpected {:?}", other),
    }
}

#[test]
fn builtins_are_curried() {
    let partial = run_program("(+ 1.0)").unwrap();
    match &partial {
        Value::PartialBuiltin { func, args, arity } => {
            assert_eq!(*func, Builtin::Add);
            assert_eq!(args.len(), 1);
            assert_eq!(*arity, 2);
        }
        other => panic!("Expected partial application, got {:?}", other),
    }
    assert_eq!(scalar(&run_program("(let inc (+ 1.0) (inc 41.0))").unwrap()), 42.0);
    assert_eq!(scalar(&run_program("(abs -3.0)").unwrap()), 3.0);
}

#[test]
fn builtin_arguments_are_checked() {
    assert_eq!(run_program("(+ true 1.0)").unwrap_err(), EvalError::TypeMismatch("Expected scalar".to_string()));
    assert_eq!(run_program("(length 1.0)").unwrap_err(), EvalError::TypeMismatch("Expected vector".to_string()));
    assert_eq!(run_program("(dot (vec 1.0 2.0) (vec 1.0))").unwrap_err(), EvalError::InvalidDimension(2));
    assert_eq!(run_program("(/ 1.0 0.0)").unwrap_err(), EvalError::DivisionByZero);
}

#[test]
fn vector_operations() {
    assert_eq!(scalar(&run_program("(length (vec 3.0 4.0))").unwrap()), 5.0);
    assert_eq!(scalar(&run_program("(dot (vec 1.0 2.0 3.0) (vec 4.0 5.0 6.0))").unwrap()), 32.0);
    match run_program("(vec_scale 2.0 (vec 1.0 -1.0))").unwrap() {
        Value::Vec(v) => assert_eq!(v, vec![f(2.0), f(-2.0)]),
        other => panic!("unexpected {:?}", other),
    }
}

#[test]
fn the_union_of_two_circles() {
    // (min (- (length p) 5.0) (- (length (vec_sub p (vec 8.0 0.0))) 3.0)) at p = (8, 1)
    let src = "(field (p 2) (min (- (length p) 5.0) (- (length (vec_sub p (vec 8.0 0.0))) 3.0)))";
    let field = run_program(src).unwrap();
    let point = Value::Vec(vec![f(8.0), f(1.0)]);
    assert_eq!(scalar(&sample(&field, &point).unwrap()), -2.0);
}

#[test]
fn unbound_names() {
    assert_eq!(run(&Expr::var("x"), &Env::new()).unwrap_err(), EvalError::UnboundVariable("x".to_string()));
    assert_eq!(run(&Expr::builtin("frobnicate"), &Env::new()).unwrap_err(), EvalError::UnboundVariable("builtin: frobnicate".to_string()));
    match run(&Expr::builtin("min"), &Env::new()).unwrap() {
        Value::Builtin(b) => assert_eq!(b, Builtin::Min),
        other => panic!("unexpected {:?}", other),
    }
}

#[test]
fn applying_a_non_function() {
    assert_eq!(run_program("(1.0 2.0)").unwrap_err(), EvalError::NotAFunction);
}

#[test]
fn conditionals() {
    assert_eq!(scalar(&run_program("(if (< 1.0 2.0) 10.0 20.0)").unwrap()), 10.0);
    assert_eq!(scalar(&run_program("(if false 10.0 20.0)").unwrap()), 20.0);
    assert_eq!(run_program("(if 1.0 10.0 20.0)").unwrap_err(), EvalError::TypeMismatch("Condition must be boolean".to_string()));
}

#[test]
fn vector_components_must_be_scalars() {
    assert_eq!(run_program("(vec 1.0 true)").unwrap_err(), EvalError::TypeMismatch("Vector components must be scalars".to_string()));
}

#[test]
fn colors() {
    match run_program("(rgba 1.0 0.5 0.25 1.0)").unwrap() {
        Value::Color(r, g_, b, a) => assert_eq!((r, g_, b, a), (f(1.0), f(0.5), f(0.25), f(1.0))),
        other => panic!("unexpected {:?}", other),
    }
    match run_program("(rgb 1.0 0.5 0.25)").unwrap() {
        Value::Color(r, g_, b, a) => assert_eq!((r, g_, b, a), (f(1.0), f(0.5), f(0.25), f(1.0))),
        other => panic!("unexpected {:?}", other),
    }
    assert_eq!(run_program("(rgb 1.0 true 0.25)").unwrap_err(), EvalError::TypeMismatch("Expected scalar".to_string()));
}

#[test]
fn fold_is_a_right_fold() {
    // fold (-) 0 [1, 2, 3] = 1 - (2 - (3 - 0)) = 2
    assert_eq!(scalar(&run_program("(fold - 0.0 (cons 1.0 (cons 2.0 (cons 3.0 ()))))").unwrap()), 2.0);
    assert_eq!(scalar(&run_program("(fold + 5.0 ())").unwrap()), 5.0);
    assert_eq!(run_program("(fold + 0.0 1.0)").unwrap_err(), EvalError::TypeMismatch("fold expects a list".to_string()));
}

#[test]
fn let_shadows_and_lambdas_capture() {
    assert_eq!(scalar(&run_program("(let x 1.0 (let x 2.0 x))").unwrap()), 2.0);
    let src = "(let y 10.0 (let f (fn (x Scalar) (+ x y)) (let y 100.0 (f 1.0))))";
    assert_eq!(scalar(&run_program(src).unwrap()), 11.0);
}

#[test]
fn errors_read_as_displayed() {
    assert_eq!(EvalError::UnboundVariable("x".to_string()).to_string(), "Unbound variable: x");
    assert_eq!(EvalError::TypeMismatch("m".to_string()).to_string(), "Type mismatch: m");
    assert_eq!(EvalError::InvalidOperation("o".to_string()).to_string(), "Invalid operation: o");
    assert_eq!(EvalError::DivisionByZero.to_string(), "Division by zero");
    assert_eq!(EvalError::InvalidDimension(3).to_string(), "Invalid dimension: 3");
    assert_eq!(EvalError::EmptyList.to_string(), "Empty list");
    assert_eq!(EvalError::NotAFunction.to_string(), "Not a function");
    assert_eq!(EvalError::NotAField.to_string(), "Not a field");
    assert_eq!(
        EvalError::ArityMismatch { expected: 2, got: 10 }.to_string(),
        "Arity mismatch: expected 2 args, got 10"
    );
}

#[test]
fn types_and_dimensions_are_erased() {
    let inner = Expr::app(Expr::lambda("x", Type::Scalar, Expr::var("x")), Expr::scalar("3.5"));
    let ty_app = Expr::TyApp { expr: Box::new(inner.copy()), ty: Type::Bool };
    assert_eq!(scalar(&run(&ty_app, &Env::new()).unwrap()), 3.5);
    let dim_app = Expr::DimApp { expr: Box::new(inner), dim: 7 };
    assert_eq!(scalar(&run(&dim_app, &Env::new()).unwrap()), 3.5);
    let ty_lambda = Expr::TyLambda { ty_var: "a".to_string(), body: Box::new(Expr::var("unbound")) };
    match run(&ty_lambda, &Env::new()).unwrap() {
        Value::TyClosure { ty_var, .. } => assert_eq!(ty_var, "a"),
        other => panic!("unexpected {:?}", other),
    }
}
