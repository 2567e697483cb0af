use solid_modeling::lang::builtins::{check_arity, check_call, expect_scalar, expect_vec, get_arity, lookup_builtin};
use solid_modeling::lang::env::{Builtin, Env, EvalError, Value};

fn bits(v: Option<&Value>) -> Option<u64> {
    match v {
        Some(Value::Scalar(b)) => Some(*b),
        None => None,
        other => panic!("unexpected {:?}", other),
    }
}

#[test]
fn a_new_binding_hides_the_old_one_of_its_name_only() {
    let env = Env::new().extend("x".to_string(), Value::Scalar(1));
    let env = env.extend("y".to_string(), Value::Scalar(2));
    let env2 = env.extend("x".to_string(), Value::Scalar(3));
    assert_eq!(bits(env2.lookup("x")), Some(3));
    assert_eq!(bits(env2.lookup("y")), Some(2));
    assert_eq!(bits(env2.lookup("z")), None);
    // extending makes a new environment; the old one is unchanged
    assert_eq!(bits(env.lookup("x")), Some(1));
}

#[test]
fn insert_binds_in_place() {
    let mut env = Env::default();
    assert_eq!(bits(env.lookup("a")), None);
    env.insert("a".to_string(), Value::Scalar(10));
    env.insert("a".to_string(), Value::Scalar(11));
    assert_eq!(bits(env.lookup("a")), Some(11));
    let copy = env.clone();
    assert_eq!(bits(copy.lookup("a")), Some(11));
}

#[test]
fn builtins_by_name() {
    let names = [
        ("+", Builtin::Add), ("-", Builtin::Sub), ("*", Builtin::Mul), ("/", Builtin::Div),
        ("min", Builtin::Min), ("max", Builtin::Max), ("abs", Builtin::Abs), ("sin", Builtin::Sin),
        ("cos", Builtin::Cos), ("sqrt", Builtin::Sqrt), ("negate", Builtin::Negate),
        ("<", Builtin::Lt), (">", Builtin::Gt), ("==", Builtin::Eq), ("length", Builtin::Length),
        ("dot", Builtin::Dot), ("normalize", Builtin::Normalize), ("vec_add", Builtin::VecAdd),
        ("vec_sub", Builtin::VecSub), ("vec_scale", Builtin::VecScale),
    ];
    for (name, b) in names {
        match lookup_builtin(name) {
            Some(Value::Builtin(x)) => assert_eq!(x, b),
            other => panic!("{}: {:?}", name, other),
        }
    }
    assert!(lookup_builtin("pow").is_none());
    assert!(lookup_builtin("").is_none());
}

#[test]
fn arities() {
    for b in [Builtin::Add, Builtin::Sub, Builtin::Mul, Builtin::Div, Builtin::Min, Builtin::Max,
        Builtin::Lt, Builtin::Gt, Builtin::Eq, Builtin::Dot, Builtin::VecAdd, Builtin::VecSub,
        Builtin::VecScale] {
        assert_eq!(get_arity(b), 2);
    }
    for b in [Builtin::Abs, Builtin::Sin, Builtin::Cos, Builtin::Sqrt, Builtin::Negate,
        Builtin::Length, Builtin::Normalize] {
        assert_eq!(get_arity(b), 1);
    }
}

#[test]
fn argument_checks() {
    assert_eq!(check_arity(&vec![Value::Nil], 1), Ok(()));
    assert_eq!(
        check_arity(&vec![Value::Nil], 2),
        Err(EvalError::ArityMismatch { expected: 2, got: 1 })
    );
    assert_eq!(expect_scalar(&Value::Scalar(5)), Ok(5));
    assert_eq!(
        expect_scalar(&Value::Bool(true)),
        Err(EvalError::TypeMismatch("Expected scalar".to_string()))
    );
    assert_eq!(expect_vec(&Value::Vec(vec![1, 2])), Ok(vec![1, 2]));
    assert_eq!(
        expect_vec(&Value::Scalar(1)),
        Err(EvalError::TypeMismatch("Expected vector".to_string()))
    );
}

#[test]
fn calls_are_checked_in_order() {
    let s = Value::Scalar(0);
    let v2 = || Value::Vec(vec![0, 0]);
    assert_eq!(check_call(Builtin::Add, &vec![Value::Scalar(1), Value::Scalar(2)]), None);
    assert_eq!(
        check_call(Builtin::Add, &vec![Value::Scalar(1)]),
        Some(EvalError::ArityMismatch { expected: 2, got: 1 })
    );
    assert_eq!(
        check_call(Builtin::Sub, &vec![Value::Nil, Value::Bool(true)]),
        Some(EvalError::TypeMismatch("Expected scalar".to_string()))
    );
    assert_eq!(check_call(Builtin::Length, &vec![v2()]), None);
    assert_eq!(
        check_call(Builtin::Normalize, &vec![s]),
        Some(EvalError::TypeMismatch("Expected vector".to_string()))
    );
    assert_eq!(
        check_call(Builtin::VecAdd, &vec![Value::Vec(vec![0, 0, 0]), v2()]),
        Some(EvalError::InvalidDimension(3))
    );
    assert_eq!(check_call(Builtin::VecScale, &vec![Value::Scalar(2), v2()]), None);
    assert_eq!(
        check_call(Builtin::VecScale, &vec![v2(), v2()]),
        Some(EvalError::TypeMismatch("Expected scalar".to_string()))
    );
}
