//! Runtime values, evaluation environments and evaluation errors.
//!
//! A scalar is held as the bit pattern of its IEEE 754 double
//! (`f64::to_bits`); the evaluator moves scalars around but never computes
//! with them.
use vstd::prelude::*;
use vstd::string::*;
use super::ast::{Expr, ExprModel, Var};
use crate::text::{decimal_text, push_decimal};

verus! {

/// The built-in operations.
#[derive(Debug, Clone, Copy, PartialEq, Eq, Structural)]
pub enum Builtin {
    Add,
    Sub,
    Mul,
    Div,
    Min,
    Max,
    Abs,
    Sin,
    Cos,
    Sqrt,
    Negate,
    Lt,
    Gt,
    Eq,
    Length,
    Dot,
    Normalize,
    VecAdd,
    VecSub,
    VecScale,
}

/// Runtime values.
#[derive(Debug)]
pub enum Value {
    /// Scalar, as the bits of a double
    Scalar(u64),
    Bool(bool),
    /// Vector of scalars, each as the bits of a double
    Vec(Vec<u64>),
    /// Color (RGBA), each channel as the bits of a double
    Color(u64, u64, u64, u64),
    /// Function closure
    Closure { param: Var, body: Expr, env: Env },
    /// Type-level closure
    TyClosure { ty_var: String, body: Expr, env: Env },
    /// Dimension-level closure
    DimClosure { dim_var: String, body: Expr, env: Env },
    /// Field closure: its body is evaluated only when the field is sampled
    Field { param: Var, dim: usize, body: Expr, env: Env },
    /// Empty list
    Nil,
    /// List cell
    Cons(Box<Value>, Box<Value>),
    /// Built-in function
    Builtin(Builtin),
    /// Built-in function applied to some of its arguments
    PartialBuiltin { func: Builtin, args: Vec<Value>, arity: usize },
}

/// Evaluation environment: bindings of names to values, later ones hiding
/// earlier ones of the same name.
#[derive(Debug)]
pub struct Env {
    bindings: Vec<(Var, Value)>,
}

/// The mathematical value of an [`Env`]: its bindings in order.
pub type EnvModel = Seq<(Seq<char>, ValueModel)>;

/// The mathematical value of a [`Value`].
pub enum ValueModel {
    Scalar(u64),
    Bool(bool),
    Vec(Seq<u64>),
    Color(u64, u64, u64, u64),
    Closure { param: Seq<char>, body: ExprModel, env: EnvModel },
    TyClosure { ty_var: Seq<char>, body: ExprModel, env: EnvModel },
    DimClosure { dim_var: Seq<char>, body: ExprModel, env: EnvModel },
    Field { param: Seq<char>, dim: usize, body: ExprModel, env: EnvModel },
    Nil,
    Cons(Box<ValueModel>, Box<ValueModel>),
    Builtin(Builtin),
    PartialBuiltin { func: Builtin, args: Seq<ValueModel>, arity: usize },
}

impl Value {
    pub open spec fn model(&self) -> ValueModel
        decreases self,
    {
        match self {
            Value::Scalar(x) => ValueModel::Scalar(*x),
            Value::Bool(b) => ValueModel::Bool(*b),
            Value::Vec(v) => ValueModel::Vec(v@),
            Value::Color(r, g, b, a) => ValueModel::Color(*r, *g, *b, *a),
            Value::Closure { param, body, env } => ValueModel::Closure {
                param: param@,
                body: body@,
                env: env.model(),
            },
            Value::TyClosure { ty_var, body, env } => ValueModel::TyClosure {
                ty_var: ty_var@,
                body: body@,
                env: env.model(),
            },
            Value::DimClosure { dim_var, body, env } => ValueModel::DimClosure {
                dim_var: dim_var@,
                body: body@,
                env: env.model(),
            },
            Value::Field { param, dim, body, env } => ValueModel::Field {
                param: param@,
                dim: *dim,
                body: body@,
                env: env.model(),
            },
            Value::Nil => ValueModel::Nil,
            Value::Cons(h, t) => ValueModel::Cons(Box::new(h.model()), Box::new(t.model())),
            Value::Builtin(b) => ValueModel::Builtin(*b),
            Value::PartialBuiltin { func, args, arity } => ValueModel::PartialBuiltin {
                func: *func,
                args: Seq::new(
                    args.len() as nat,
                    |i: int|
                        if 0 <= i < args.len() {
                            args[i].model()
                        } else {
                            ValueModel::Nil
                        },
                ),
                arity: *arity,
            },
        }
    }
}

impl Env {
    pub closed spec fn model(&self) -> EnvModel
        decreases self,
    {
        Seq::new(
            self.bindings.len() as nat,
            |i: int|
                if 0 <= i < self.bindings.len() {
                    (self.bindings[i].0@, self.bindings[i].1.model())
                } else {
                    (Seq::empty(), ValueModel::Nil)
                },
        )
    }
}

impl View for Value {
    type V = ValueModel;

    open spec fn view(&self) -> ValueModel {
        self.model()
    }
}

impl View for Env {
    type V = EnvModel;

    open spec fn view(&self) -> EnvModel {
        self.model()
    }
}

/// Evaluation errors.
#[derive(Debug, Clone, PartialEq)]
pub enum EvalError {
    UnboundVariable(String),
    TypeMismatch(String),
    InvalidOperation(String),
    DivisionByZero,
    InvalidDimension(usize),
    EmptyList,
    NotAFunction,
    NotAField,
    ArityMismatch { expected: usize, got: usize },
}

/// The mathematical value of an [`EvalError`].
pub enum ErrorModel {
    UnboundVariable(Seq<char>),
    TypeMismatch(Seq<char>),
    InvalidOperation(Seq<char>),
    DivisionByZero,
    InvalidDimension(usize),
    EmptyList,
    NotAFunction,
    NotAField,
    ArityMismatch { expected: usize, got: usize },
}

impl View for EvalError {
    type V = ErrorModel;

    open spec fn view(&self) -> ErrorModel {
        match self {
            EvalError::UnboundVariable(v) => ErrorModel::UnboundVariable(v@),
            EvalError::TypeMismatch(m) => ErrorModel::TypeMismatch(m@),
            EvalError::InvalidOperation(m) => ErrorModel::InvalidOperation(m@),
            EvalError::DivisionByZero => ErrorModel::DivisionByZero,
            EvalError::InvalidDimension(d) => ErrorModel::InvalidDimension(*d),
            EvalError::EmptyList => ErrorModel::EmptyList,
            EvalError::NotAFunction => ErrorModel::NotAFunction,
            EvalError::NotAField => ErrorModel::NotAField,
            EvalError::ArityMismatch { expected, got } => ErrorModel::ArityMismatch {
                expected: *expected,
                got: *got,
            },
        }
    }
}

/// How an evaluation error reads.
pub open spec fn error_text(e: ErrorModel) -> Seq<char> {
    match e {
        ErrorModel::UnboundVariable(v) => "Unbound variable: "@ + v,
        ErrorModel::TypeMismatch(m) => "Type mismatch: "@ + m,
        ErrorModel::InvalidOperation(m) => "Invalid operation: "@ + m,
        ErrorModel::DivisionByZero => "Division by zero"@,
        ErrorModel::InvalidDimension(d) => "Invalid dimension: "@ + decimal_text(d as nat),
        ErrorModel::EmptyList => "Empty list"@,
        ErrorModel::NotAFunction => "Not a function"@,
        ErrorModel::NotAField => "Not a field"@,
        ErrorModel::ArityMismatch { expected, got } => "Arity mismatch: expected "@ + decimal_text(
            expected as nat,
        ) + " args, got "@ + decimal_text(got as nat),
    }
}

impl EvalError {
    /// A copy of this error.
    pub fn copy(&self) -> (r: EvalError)
        ensures
            r@ == self@,
    {
        match self {
            EvalError::UnboundVariable(v) => EvalError::UnboundVariable(v.clone()),
            EvalError::TypeMismatch(m) => EvalError::TypeMismatch(m.clone()),
            EvalError::InvalidOperation(m) => EvalError::InvalidOperation(m.clone()),
            EvalError::DivisionByZero => EvalError::DivisionByZero,
            EvalError::InvalidDimension(d) => EvalError::InvalidDimension(*d),
            EvalError::EmptyList => EvalError::EmptyList,
            EvalError::NotAFunction => EvalError::NotAFunction,
            EvalError::NotAField => EvalError::NotAField,
            EvalError::ArityMismatch { expected, got } => EvalError::ArityMismatch {
                expected: *expected,
                got: *got,
            },
        }
    }

    /// The error as displayed.
    pub fn to_string(&self) -> (r: String)
        ensures
            r@ == error_text(self@),
    {
        match self {
            EvalError::UnboundVariable(v) => {
                let mut r = String::from_str("Unbound variable: ");
                r.append(v.as_str());
                r
            },
            EvalError::TypeMismatch(m) => {
                let mut r = String::from_str("Type mismatch: ");
                r.append(m.as_str());
                r
            },
            EvalError::InvalidOperation(m) => {
                let mut r = String::from_str("Invalid operation: ");
                r.append(m.as_str());
                r
            },
            EvalError::DivisionByZero => String::from_str("Division by zero"),
            EvalError::InvalidDimension(d) => {
                let mut r = String::from_str("Invalid dimension: ");
                push_decimal(&mut r, *d);
                r
            },
            EvalError::EmptyList => String::from_str("Empty list"),
            EvalError::NotAFunction => String::from_str("Not a function"),
            EvalError::NotAField => String::from_str("Not a field"),
            EvalError::ArityMismatch { expected, got } => {
                let mut r = String::from_str("Arity mismatch: expected ");
                push_decimal(&mut r, *expected);
                r.append(" args, got ");
                push_decimal(&mut r, *got);
                r
            },
        }
    }
}

/// The value bound to `x` by the last binding of `x`, if any.
pub open spec fn lookup_model(env: EnvModel, x: Seq<char>) -> Option<ValueModel>
    decreases env.len(),
{
    if env.len() == 0 {
        None
    } else if env.last().0 == x {
        Some(env.last().1)
    } else {
        lookup_model(env.drop_last(), x)
    }
}

/// A new binding of `x` hides the earlier ones of `x` and leaves every
/// other name as it was: looking up after `extend` or `insert` gives the
/// value just bound for `x`, and the earlier answer for any other name.
pub proof fn lemma_lookup_after_bind(env: EnvModel, x: Seq<char>, v: ValueModel, y: Seq<char>)
    ensures
        lookup_model(env.push((x, v)), y) == (if y == x {
            Some(v)
        } else {
            lookup_model(env, y)
        }),
{
    assert(env.push((x, v)).drop_last() =~= env);
}

/// A copy of a list of scalars.
pub fn copy_bits(v: &Vec<u64>) -> (r: Vec<u64>)
    ensures
        r@ == v@,
{
    let mut r: Vec<u64> = Vec::new();
    let mut i: usize = 0;
    while i < v.len()
        invariant
            i <= v@.len(),
            r@ == v@.subrange(0, i as int),
        decreases v@.len() - i,
    {
        r.push(v[i]);
        i = i + 1;
        assert(r@ =~= v@.subrange(0, i as int));
    }
    assert(v@.subrange(0, i as int) =~= v@);
    r
}

impl Value {
    /// A copy of this value.
    #[verifier::rlimit(40)]
    pub fn copy(&self) -> (r: Value)
        ensures
            r@ == self@,
        decreases self,
    {
        match self {
            Value::Scalar(x) => Value::Scalar(*x),
            Value::Bool(b) => Value::Bool(*b),
            Value::Vec(v) => Value::Vec(copy_bits(v)),
            Value::Color(r, g, b, a) => Value::Color(*r, *g, *b, *a),
            Value::Closure { param, body, env } => Value::Closure {
                param: param.clone(),
                body: body.copy(),
                env: env.copy(),
            },
            Value::TyClosure { ty_var, body, env } => Value::TyClosure {
                ty_var: ty_var.clone(),
                body: body.copy(),
                env: env.copy(),
            },
            Value::DimClosure { dim_var, body, env } => Value::DimClosure {
                dim_var: dim_var.clone(),
                body: body.copy(),
                env: env.copy(),
            },
            Value::Field { param, dim, body, env } => Value::Field {
                param: param.clone(),
                dim: *dim,
                body: body.copy(),
                env: env.copy(),
            },
            Value::Nil => Value::Nil,
            Value::Cons(h, t) => Value::Cons(Box::new(h.copy()), Box::new(t.copy())),
            Value::Builtin(b) => Value::Builtin(*b),
            Value::PartialBuiltin { func, args, arity } => {
                let mut out: Vec<Value> = Vec::new();
                let mut i: usize = 0;
                while i < args.len()
                    invariant
                        *self == (Value::PartialBuiltin { func: *func, args: *args, arity: *arity }),
                        i <= args@.len(),
                        out@.len() == i,
                        forall|j: int| 0 <= j < i ==> #[trigger] out@[j]@ == args@[j]@,
                    decreases args@.len() - i,
                {
                    proof {
                        assert(decreases_to!(*self => self->args));
                        assert(decreases_to!(*args => args[i as int]));
                    }
                    out.push(args[i].copy());
                    i = i + 1;
                }
                let r = Value::PartialBuiltin { func: *func, args: out, arity: *arity };
                proof {
                    lemma_partial_model(r);
                    lemma_partial_model(*self);
                    assert(Seq::new(out@.len(), |i: int| out@[i]@) =~= Seq::new(
                        args@.len(),
                        |i: int| args@[i]@,
                    ));
                }
                r
            },
        }
    }
}

/// The model of a partially applied built-in lists the models of its arguments.
pub proof fn lemma_partial_model(v: Value)
    requires
        v is PartialBuiltin,
    ensures
        v@ == (ValueModel::PartialBuiltin {
            func: v->func,
            args: Seq::new(v->args@.len(), |i: int| v->args@[i]@),
            arity: v->arity,
        }),
{
    if let ValueModel::PartialBuiltin { func, args, arity } = v.model() {
        assert(args =~= Seq::new(v->args@.len(), |i: int| v->args@[i]@));
    }
}

impl Env {
    /// The empty environment.
    pub fn new() -> (r: Env)
        ensures
            r@ == Seq::<(Seq<char>, ValueModel)>::empty(),
    {
        let r = Env { bindings: Vec::new() };
        assert(r@ =~= Seq::<(Seq<char>, ValueModel)>::empty());
        r
    }

    /// A copy of this environment.
    pub fn copy(&self) -> (r: Env)
        ensures
            r@ == self@,
        decreases self,
    {
        let mut out: Vec<(Var, Value)> = Vec::new();
        let mut i: usize = 0;
        while i < self.bindings.len()
            invariant
                i <= self.bindings@.len(),
                out@.len() == i,
                forall|j: int|
                    0 <= j < i ==> #[trigger] out@[j].0@ == self.bindings@[j].0@ && out@[j].1@
                        == self.bindings@[j].1@,
            decreases self.bindings@.len() - i,
        {
            proof {
                assert(decreases_to!(*self => self.bindings));
                assert(decreases_to!(self.bindings => self.bindings[i as int]));
                assert(decreases_to!(self.bindings[i as int] => self.bindings[i as int].1));
            }
            let name = self.bindings[i].0.clone();
            let value = self.bindings[i].1.copy();
            out.push((name, value));
            i = i + 1;
        }
        let r = Env { bindings: out };
        assert(r@ =~= self@);
        r
    }

    /// This environment with `var` bound to `value`.
    pub fn extend(&self, var: Var, value: Value) -> (r: Env)
        ensures
            r@ == self@.push((var@, value@)),
    {
        let mut r = self.copy();
        r.insert(var, value);
        r
    }

    /// The value of the last binding of `var`.
    pub fn lookup(&self, var: &str) -> (r: Option<&Value>)
        ensures
            match lookup_model(self@, var@) {
                Some(v) => r matches Some(x) && x@ == v,
                None => r is None,
            },
    {
        let name = String::from_str(var);
        let mut i = self.bindings.len();
        assert(self@.subrange(0, i as int) =~= self@);
        while i > 0
            invariant
                i <= self.bindings@.len(),
                name@ == var@,
                lookup_model(self@, var@) == lookup_model(self@.subrange(0, i as int), var@),
            decreases i,
        {
            proof {
                let sub = self@.subrange(0, i as int);
                assert(sub.drop_last() =~= self@.subrange(0, i - 1));
                assert(sub.last() == self@[i - 1]);
            }
            if self.bindings[i - 1].0 == name {
                return Some(&self.bindings[i - 1].1);
            }
            i = i - 1;
        }
        None
    }

    /// Bind `var` to `value`, hiding any earlier binding of `var`.
    pub fn insert(&mut self, var: Var, value: Value)
        ensures
            final(self)@ == old(self)@.push((var@, value@)),
    {
        self.bindings.push((var, value));
        assert(self@ =~= old(self)@.push((var@, value@)));
    }
}

impl Default for Env {
    fn default() -> (r: Env)
        ensures
            r@ == Seq::<(Seq<char>, ValueModel)>::empty(),
    {
        Env::new()
    }
}

impl Clone for Env {
    fn clone(&self) -> (r: Env)
        ensures
            r@ == self@,
    {
        self.copy()
    }
}

impl Clone for Value {
    fn clone(&self) -> (r: Value)
        ensures
            r@ == self@,
    {
        self.copy()
    }
}

/// The models of a sequence of values.
pub open spec fn values_model(v: Seq<Value>) -> Seq<ValueModel> {
    Seq::new(v.len(), |i: int| v[i]@)
}

pub proof fn lemma_values_model_push(v: Seq<Value>, x: Value)
    ensures
        values_model(v.push(x)) =~= values_model(v).push(x@),
{
}

} // verus!
