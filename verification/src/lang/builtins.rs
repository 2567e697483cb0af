//! Built-in operations: their names, their arities, and the checks on their
//! arguments.
//!
//! Every built-in checks the number and the kinds of its arguments before it
//! computes; what it computes from the scalars is floating-point arithmetic,
//! which the evaluator asks its caller for (see [`super::eval`]).
use vstd::prelude::*;
use vstd::string::*;
use super::env::{Builtin, ErrorModel, EvalError, Value, ValueModel, copy_bits, values_model};
use super::lexer::{is_ident_rest, is_ident_start, is_reserved, lemma_span_bounds, spec_identifier, spec_span};

verus! {

/// The built-in with this name.
pub open spec fn builtin_named(name: Seq<char>) -> Option<Builtin> {
    if name == "+"@ {
        Some(Builtin::Add)
    } else if name == "-"@ {
        Some(Builtin::Sub)
    } else if name == "*"@ {
        Some(Builtin::Mul)
    } else if name == "/"@ {
        Some(Builtin::Div)
    } else if name == "min"@ {
        Some(Builtin::Min)
    } else if name == "max"@ {
        Some(Builtin::Max)
    } else if name == "abs"@ {
        Some(Builtin::Abs)
    } else if name == "sin"@ {
        Some(Builtin::Sin)
    } else if name == "cos"@ {
        Some(Builtin::Cos)
    } else if name == "sqrt"@ {
        Some(Builtin::Sqrt)
    } else if name == "negate"@ {
        Some(Builtin::Negate)
    } else if name == "<"@ {
        Some(Builtin::Lt)
    } else if name == ">"@ {
        Some(Builtin::Gt)
    } else if name == "=="@ {
        Some(Builtin::Eq)
    } else if name == "length"@ {
        Some(Builtin::Length)
    } else if name == "dot"@ {
        Some(Builtin::Dot)
    } else if name == "normalize"@ {
        Some(Builtin::Normalize)
    } else if name == "vec_add"@ {
        Some(Builtin::VecAdd)
    } else if name == "vec_sub"@ {
        Some(Builtin::VecSub)
    } else if name == "vec_scale"@ {
        Some(Builtin::VecScale)
    } else {
        None
    }
}

/// Number of arguments a built-in takes: two for the arithmetic, comparison
/// and binary vector operations, one for the rest.
pub open spec fn spec_arity(b: Builtin) -> usize {
    match b {
        Builtin::Add | Builtin::Sub | Builtin::Mul | Builtin::Div | Builtin::Min | Builtin::Max
        | Builtin::Lt | Builtin::Gt | Builtin::Eq | Builtin::Dot | Builtin::VecAdd
        | Builtin::VecSub | Builtin::VecScale => 2,
        _ => 1,
    }
}

/// The error for an argument that is not a scalar, if it is not.
pub open spec fn scalar_error(v: ValueModel) -> Option<ErrorModel> {
    match v {
        ValueModel::Scalar(_) => None,
        _ => Some(ErrorModel::TypeMismatch("Expected scalar"@)),
    }
}

/// The error for an argument that is not a vector, if it is not.
pub open spec fn vector_error(v: ValueModel) -> Option<ErrorModel> {
    match v {
        ValueModel::Vec(_) => None,
        _ => Some(ErrorModel::TypeMismatch("Expected vector"@)),
    }
}

/// The first error of two checks.
pub open spec fn first_error(a: Option<ErrorModel>, b: Option<ErrorModel>) -> Option<ErrorModel> {
    match a {
        Some(e) => Some(e),
        None => b,
    }
}

/// Why the built-in `b` refuses `args`, if it does: the wrong number of
/// arguments, an argument of the wrong kind (checked left to right), or
/// vectors of different dimensions.
pub open spec fn spec_check_call(b: Builtin, args: Seq<ValueModel>) -> Option<ErrorModel> {
    if args.len() != spec_arity(b) {
        Some(ErrorModel::ArityMismatch { expected: spec_arity(b), got: args.len() as usize })
    } else {
        match b {
            Builtin::Add | Builtin::Sub | Builtin::Mul | Builtin::Div | Builtin::Min
            | Builtin::Max | Builtin::Lt | Builtin::Gt | Builtin::Eq => first_error(
                scalar_error(args[0]),
                scalar_error(args[1]),
            ),
            Builtin::Abs | Builtin::Sin | Builtin::Cos | Builtin::Sqrt | Builtin::Negate => scalar_error(
                args[0],
            ),
            Builtin::Length | Builtin::Normalize => vector_error(args[0]),
            Builtin::Dot | Builtin::VecAdd | Builtin::VecSub => first_error(
                vector_error(args[0]),
                first_error(
                    vector_error(args[1]),
                    if args[0]->Vec_0.len() != args[1]->Vec_0.len() {
                        Some(ErrorModel::InvalidDimension(args[0]->Vec_0.len() as usize))
                    } else {
                        None
                    },
                ),
            ),
            Builtin::VecScale => first_error(scalar_error(args[0]), vector_error(args[1])),
        }
    }
}

/// The binary vector built-ins (`dot`, `vec_add`, `vec_sub`) are computed
/// only on two vectors of one dimension: given vectors of different
/// dimensions they refuse, naming the first one's dimension.
pub proof fn lemma_vector_dimensions_agree(b: Builtin, u: Seq<u64>, v: Seq<u64>)
    requires
        b == Builtin::Dot || b == Builtin::VecAdd || b == Builtin::VecSub,
    ensures
        spec_check_call(b, seq![ValueModel::Vec(u), ValueModel::Vec(v)]) is None <==> u.len() == v.len(),
        u.len() != v.len() ==> spec_check_call(b, seq![ValueModel::Vec(u), ValueModel::Vec(v)])
            == Some(ErrorModel::InvalidDimension(u.len() as usize)),
{
}

/// Every built-in's name reads as a single name, so that `(n a b)` applies
/// the built-in named `n`: the operator names (`+`, `-`, `*`, `/`, `<`, `>`,
/// `==`) always, and the word names wherever their characters are letters,
/// digits and `_` in the sense of `char::is_alphabetic` and
/// `char::is_alphanumeric`.
pub proof fn lemma_builtin_names_read_whole(n: Seq<char>)
    requires
        builtin_named(n) is Some,
    ensures
        n.len() <= 2 ==> spec_identifier(n, 0) == Some((n.len() as int, n)),
        (n.len() > 0 && is_ident_start(n[0]) && forall|i: int|
            1 <= i < n.len() ==> is_ident_rest(#[trigger] n[i])) ==> spec_identifier(n, 0) == Some(
            (n.len() as int, n),
        ),
{
    reveal_strlit("+");
    reveal_strlit("-");
    reveal_strlit("*");
    reveal_strlit("/");
    reveal_strlit("min");
    reveal_strlit("max");
    reveal_strlit("abs");
    reveal_strlit("sin");
    reveal_strlit("cos");
    reveal_strlit("sqrt");
    reveal_strlit("negate");
    reveal_strlit("<");
    reveal_strlit(">");
    reveal_strlit("==");
    reveal_strlit("length");
    reveal_strlit("dot");
    reveal_strlit("normalize");
    reveal_strlit("vec_add");
    reveal_strlit("vec_sub");
    reveal_strlit("vec_scale");
    reveal_strlit("fn");
    reveal_strlit("let");
    reveal_strlit("field");
    reveal_strlit("if");
    reveal_strlit("fold");
    reveal_strlit("cons");
    reveal_strlit("vec");
    reveal_strlit("rgb");
    reveal_strlit("rgba");
    reveal_strlit("true");
    reveal_strlit("false");
    assert(n.subrange(0, n.len() as int) =~= n);
    if n.len() > 2 {
        assert(!is_reserved(n));
        assert(n[0] != '+' && n[0] != '-' && n[0] != '*' && n[0] != '/' && n[0] != '<' && n[0] != '>');
        assert(n[0] != '=');
        if n.len() > 0 && is_ident_start(n[0]) && forall|i: int|
            1 <= i < n.len() ==> is_ident_rest(#[trigger] n[i]) {
            lemma_span_bounds(n, 1, |c: char| is_ident_rest(c));
            let e = spec_span(n, 1, |c: char| is_ident_rest(c));
            if e < n.len() {
                assert(is_ident_rest(n[e]));
            }
        }
    }
}

/// The built-in named `name`, as a value.
pub fn lookup_builtin(name: &str) -> (r: Option<Value>)
    ensures
        match builtin_named(name@) {
            Some(b) => r matches Some(v) && v@ == ValueModel::Builtin(b),
            None => r is None,
        },
{
    let n = String::from_str(name);
    let b = if n == String::from_str("+") {
        Builtin::Add
    } else if n == String::from_str("-") {
        Builtin::Sub
    } else if n == String::from_str("*") {
        Builtin::Mul
    } else if n == String::from_str("/") {
        Builtin::Div
    } else if n == String::from_str("min") {
        Builtin::Min
    } else if n == String::from_str("max") {
        Builtin::Max
    } else if n == String::from_str("abs") {
        Builtin::Abs
    } else if n == String::from_str("sin") {
        Builtin::Sin
    } else if n == String::from_str("cos") {
        Builtin::Cos
    } else if n == String::from_str("sqrt") {
        Builtin::Sqrt
    } else if n == String::from_str("negate") {
        Builtin::Negate
    } else if n == String::from_str("<") {
        Builtin::Lt
    } else if n == String::from_str(">") {
        Builtin::Gt
    } else if n == String::from_str("==") {
        Builtin::Eq
    } else if n == String::from_str("length") {
        Builtin::Length
    } else if n == String::from_str("dot") {
        Builtin::Dot
    } else if n == String::from_str("normalize") {
        Builtin::Normalize
    } else if n == String::from_str("vec_add") {
        Builtin::VecAdd
    } else if n == String::from_str("vec_sub") {
        Builtin::VecSub
    } else if n == String::from_str("vec_scale") {
        Builtin::VecScale
    } else {
        return None;
    };
    Some(Value::Builtin(b))
}

/// The number of arguments of a built-in.
pub fn get_arity(f: Builtin) -> (n: usize)
    ensures
        n == spec_arity(f),
{
    match f {
        Builtin::Add | Builtin::Sub | Builtin::Mul | Builtin::Div | Builtin::Min | Builtin::Max
        | Builtin::Lt | Builtin::Gt | Builtin::Eq | Builtin::Dot | Builtin::VecAdd
        | Builtin::VecSub | Builtin::VecScale => 2,
        _ => 1,
    }
}

/// `Ok` when there are exactly `expected` arguments.
pub fn check_arity(args: &Vec<Value>, expected: usize) -> (r: Result<(), EvalError>)
    ensures
        args@.len() == expected ==> r is Ok,
        args@.len() != expected ==> (r matches Err(e) && e@ == (ErrorModel::ArityMismatch {
            expected,
            got: args@.len() as usize,
        })),
{
    if args.len() != expected {
        Err(EvalError::ArityMismatch { expected, got: args.len() })
    } else {
        Ok(())
    }
}

/// The scalar an argument holds.
pub fn expect_scalar(val: &Value) -> (r: Result<u64, EvalError>)
    ensures
        match val@ {
            ValueModel::Scalar(x) => r == Ok::<u64, EvalError>(x),
            _ => r matches Err(e) && e@ == ErrorModel::TypeMismatch("Expected scalar"@),
        },
{
    match val {
        Value::Scalar(v) => Ok(*v),
        _ => Err(EvalError::TypeMismatch(String::from_str("Expected scalar"))),
    }
}

/// The vector an argument holds.
pub fn expect_vec(val: &Value) -> (r: Result<Vec<u64>, EvalError>)
    ensures
        match val@ {
            ValueModel::Vec(v) => r matches Ok(w) && w@ == v,
            _ => r matches Err(e) && e@ == ErrorModel::TypeMismatch("Expected vector"@),
        },
{
    match val {
        Value::Vec(v) => Ok(copy_bits(v)),
        _ => Err(EvalError::TypeMismatch(String::from_str("Expected vector"))),
    }
}

/// Why `b` refuses `args` ([`spec_check_call`]), or `None` when it computes.
pub fn check_call(b: Builtin, args: &Vec<Value>) -> (r: Option<EvalError>)
    ensures
        match spec_check_call(b, values_model(args@)) {
            Some(e) => r matches Some(x) && x@ == e,
            None => r is None,
        },
{
    let arity = get_arity(b);
    if let Err(e) = check_arity(args, arity) {
        return Some(e);
    }
    match b {
        Builtin::Add | Builtin::Sub | Builtin::Mul | Builtin::Div | Builtin::Min | Builtin::Max
        | Builtin::Lt | Builtin::Gt | Builtin::Eq => {
            if let Err(e) = expect_scalar(&args[0]) {
                return Some(e);
            }
            if let Err(e) = expect_scalar(&args[1]) {
                return Some(e);
            }
            None
        },
        Builtin::Abs | Builtin::Sin | Builtin::Cos | Builtin::Sqrt | Builtin::Negate => {
            match expect_scalar(&args[0]) {
                Err(e) => Some(e),
                Ok(_) => None,
            }
        },
        Builtin::Length | Builtin::Normalize => {
            match expect_vec(&args[0]) {
                Err(e) => Some(e),
                Ok(_) => None,
            }
        },
        Builtin::Dot | Builtin::VecAdd | Builtin::VecSub => {
            let a = match expect_vec(&args[0]) {
                Err(e) => {
                    return Some(e);
                },
                Ok(a) => a,
            };
            let c = match expect_vec(&args[1]) {
                Err(e) => {
                    return Some(e);
                },
                Ok(c) => c,
            };
            if a.len() != c.len() {
                Some(EvalError::InvalidDimension(a.len()))
            } else {
                None
            }
        },
        Builtin::VecScale => {
            if let Err(e) = expect_scalar(&args[0]) {
                return Some(e);
            }
            match expect_vec(&args[1]) {
                Err(e) => Some(e),
                Ok(_) => None,
            }
        },
    }
}

} // verus!
