//! The evaluator of FieldCalc: strict everywhere except fields, whose bodies
//! are evaluated only when the field is sampled.
//!
//! Scalars are doubles, and the library does no floating-point arithmetic:
//! wherever evaluation needs a number computed (the value of a literal, or a
//! built-in applied to checked arguments) it consults a log of answers, the
//! `k`-th such computation taking the `k`-th answer. When the log runs out,
//! evaluation stops and names the computation it needs ([`Request`]); the
//! caller computes it, appends the answer to the log and evaluates again.
//! Given the same expression, environment and log, evaluation always takes
//! the same course.
use vstd::prelude::*;
use vstd::string::*;
use super::ast::{Expr, ExprModel};
use super::builtins::{builtin_named, check_call, get_arity, lookup_builtin, spec_arity, spec_check_call};
use super::env::{
    Builtin,
    Env,
    EnvModel,
    ErrorModel,
    EvalError,
    Value,
    ValueModel,
    lemma_partial_model,
    lemma_values_model_push,
    lookup_model,
    values_model,
};

verus! {

/// The result of a computation: a value or an error.
pub type Answer = Result<Value, EvalError>;

/// The mathematical value of an [`Answer`].
pub type AnswerModel = Result<ValueModel, ErrorModel>;

pub open spec fn answer_model(a: Answer) -> AnswerModel {
    match a {
        Ok(v) => Ok(v@),
        Err(e) => Err(e@),
    }
}

pub open spec fn log_model(log: Seq<Answer>) -> Seq<AnswerModel> {
    Seq::new(log.len(), |i: int| answer_model(log[i]))
}

/// A floating-point computation that evaluation needs.
#[derive(Debug)]
pub enum Request {
    /// The double nearest to this decimal literal.
    Literal(String),
    /// This built-in applied to these arguments, which have passed its checks.
    Call(Builtin, Vec<Value>),
}

pub enum RequestModel {
    Literal(Seq<char>),
    Call(Builtin, Seq<ValueModel>),
}

impl View for Request {
    type V = RequestModel;

    open spec fn view(&self) -> RequestModel {
        match self {
            Request::Literal(t) => RequestModel::Literal(t@),
            Request::Call(b, args) => RequestModel::Call(*b, values_model(args@)),
        }
    }
}

/// Where evaluation got to with a log of answers, having used `k` of them;
/// or that it needs one more; or that it needs more depth than it was given.
pub enum Step {
    Done(AnswerModel, nat),
    Need(RequestModel),
    OutOfFuel,
}

/// The next answer of the log, or a request for it.
pub open spec fn numeric(req: RequestModel, log: Seq<AnswerModel>, k: nat) -> Step {
    if k < log.len() {
        Step::Done(log[k as int], k + 1)
    } else {
        Step::Need(req)
    }
}

/// Continue with the value of a step that succeeded; anything else stands.
pub open spec fn bind(s: Step, f: spec_fn(ValueModel, nat) -> Step) -> Step {
    match s {
        Step::Done(Ok(v), k) => f(v, k),
        _ => s,
    }
}

pub open spec fn ok(v: ValueModel, k: nat) -> Step {
    Step::Done(Ok(v), k)
}

pub open spec fn fail(e: ErrorModel, k: nat) -> Step {
    Step::Done(Err(e), k)
}

/// A step that must give a scalar.
pub open spec fn scalar_step(s: Step) -> Step {
    bind(
        s,
        |v: ValueModel, k: nat|
            match v {
                ValueModel::Scalar(_) => ok(v, k),
                _ => fail(ErrorModel::TypeMismatch("Expected scalar"@), k),
            },
    )
}

/// A built-in applied to all its arguments: checked here, computed outside.
pub open spec fn spec_call(b: Builtin, args: Seq<ValueModel>, log: Seq<AnswerModel>, k: nat) -> Step {
    match spec_check_call(b, args) {
        Some(e) => fail(e, k),
        None => numeric(RequestModel::Call(b, args), log, k),
    }
}

/// Evaluation of `e` in `env`, with at most `fuel` nested steps.
pub open spec fn spec_eval(
    fuel: nat,
    e: ExprModel,
    env: EnvModel,
    log: Seq<AnswerModel>,
    k: nat,
) -> Step
    decreases fuel,
{
    if fuel == 0 {
        Step::OutOfFuel
    } else {
        let f = (fuel - 1) as nat;
        match e {
            ExprModel::Var(x) => match lookup_model(env, x) {
                Some(v) => ok(v, k),
                None => fail(ErrorModel::UnboundVariable(x), k),
            },
            ExprModel::Scalar(t) => numeric(RequestModel::Literal(t), log, k),
            ExprModel::Bool(b) => ok(ValueModel::Bool(b), k),
            ExprModel::Vec(items) => spec_eval_components(f, items, env, log, k),
            ExprModel::Color { r, g, b, a } => bind(
                scalar_step(spec_eval(f, *r, env, log, k)),
                |rv: ValueModel, k1: nat|
                    bind(
                        scalar_step(spec_eval(f, *g, env, log, k1)),
                        |gv: ValueModel, k2: nat|
                            bind(
                                scalar_step(spec_eval(f, *b, env, log, k2)),
                                |bv: ValueModel, k3: nat|
                                    bind(
                                        scalar_step(spec_eval(f, *a, env, log, k3)),
                                        |av: ValueModel, k4: nat|
                                            ok(ValueModel::Color(rv->Scalar_0, gv->Scalar_0, bv->Scalar_0, av->Scalar_0), k4),
                                    ),
                            ),
                    ),
            ),
            ExprModel::Nil => ok(ValueModel::Nil, k),
            ExprModel::Cons { head, tail } => bind(
                spec_eval(f, *head, env, log, k),
                |h: ValueModel, k1: nat|
                    bind(
                        spec_eval(f, *tail, env, log, k1),
                        |t: ValueModel, k2: nat| ok(ValueModel::Cons(Box::new(h), Box::new(t)), k2),
                    ),
            ),
            ExprModel::Lambda { param, body, .. } => ok(
                ValueModel::Closure { param, body: *body, env },
                k,
            ),
            ExprModel::App { func, arg } => bind(
                spec_eval(f, *func, env, log, k),
                |fv: ValueModel, k1: nat|
                    bind(
                        spec_eval(f, *arg, env, log, k1),
                        |av: ValueModel, k2: nat| spec_apply(f, fv, av, log, k2),
                    ),
            ),
            ExprModel::TyLambda { ty_var, body } => ok(
                ValueModel::TyClosure { ty_var, body: *body, env },
                k,
            ),
            ExprModel::TyApp { expr, .. } => spec_eval(f, *expr, env, log, k),
            ExprModel::DimLambda { dim_var, body } => ok(
                ValueModel::DimClosure { dim_var, body: *body, env },
                k,
            ),
            ExprModel::DimApp { expr, .. } => spec_eval(f, *expr, env, log, k),
            ExprModel::Field { param, dim, body } => ok(
                ValueModel::Field { param, dim, body: *body, env },
                k,
            ),
            ExprModel::Let { var, value, body, .. } => bind(
                spec_eval(f, *value, env, log, k),
                |v: ValueModel, k1: nat| spec_eval(f, *body, env.push((var, v)), log, k1),
            ),
            ExprModel::Fold { func, init, list } => bind(
                spec_eval(f, *func, env, log, k),
                |fv: ValueModel, k1: nat|
                    bind(
                        spec_eval(f, *init, env, log, k1),
                        |z: ValueModel, k2: nat|
                            bind(
                                spec_eval(f, *list, env, log, k2),
                                |xs: ValueModel, k3: nat| spec_fold(f, fv, z, xs, log, k3),
                            ),
                    ),
            ),
            ExprModel::Builtin(name) => match builtin_named(name) {
                Some(b) => ok(ValueModel::Builtin(b), k),
                None => fail(ErrorModel::UnboundVariable("builtin: "@ + name), k),
            },
            ExprModel::If { cond, then_branch, else_branch } => bind(
                spec_eval(f, *cond, env, log, k),
                |c: ValueModel, k1: nat|
                    match c {
                        ValueModel::Bool(true) => spec_eval(f, *then_branch, env, log, k1),
                        ValueModel::Bool(false) => spec_eval(f, *else_branch, env, log, k1),
                        _ => fail(ErrorModel::TypeMismatch("Condition must be boolean"@), k1),
                    },
            ),
        }
    }
}

/// The components of a vector literal, left to right; each must be a scalar.
pub open spec fn spec_eval_components(
    fuel: nat,
    items: Seq<ExprModel>,
    env: EnvModel,
    log: Seq<AnswerModel>,
    k: nat,
) -> Step
    decreases fuel,
{
    if fuel == 0 {
        Step::OutOfFuel
    } else if items.len() == 0 {
        ok(ValueModel::Vec(Seq::empty()), k)
    } else {
        let f = (fuel - 1) as nat;
        bind(
            spec_eval(f, items[0], env, log, k),
            |v: ValueModel, k1: nat|
                match v {
                    ValueModel::Scalar(x) => bind(
                        spec_eval_components(f, items.drop_first(), env, log, k1),
                        |rest: ValueModel, k2: nat| ok(ValueModel::Vec(seq![x] + rest->Vec_0), k2),
                    ),
                    _ => fail(ErrorModel::TypeMismatch("Vector components must be scalars"@), k1),
                },
        )
    }
}

/// Application of a function value to an argument. Built-ins are curried:
/// they collect arguments until they have as many as they take.
pub open spec fn spec_apply(
    fuel: nat,
    fv: ValueModel,
    av: ValueModel,
    log: Seq<AnswerModel>,
    k: nat,
) -> Step
    decreases fuel,
{
    if fuel == 0 {
        Step::OutOfFuel
    } else {
        let f = (fuel - 1) as nat;
        match fv {
            ValueModel::Closure { param, body, env } => spec_eval(
                f,
                body,
                env.push((param, av)),
                log,
                k,
            ),
            ValueModel::Builtin(b) => if spec_arity(b) == 1 {
                spec_call(b, seq![av], log, k)
            } else {
                ok(ValueModel::PartialBuiltin { func: b, args: seq![av], arity: spec_arity(b) }, k)
            },
            ValueModel::PartialBuiltin { func, args, arity } => if args.push(av).len() == arity {
                spec_call(func, args.push(av), log, k)
            } else {
                ok(ValueModel::PartialBuiltin { func, args: args.push(av), arity }, k)
            },
            _ => fail(ErrorModel::NotAFunction, k),
        }
    }
}

/// Right fold over a list: `fold f z [x1, ..., xn] = f x1 (... (f xn z))`,
/// the tail folded first.
pub open spec fn spec_fold(
    fuel: nat,
    fv: ValueModel,
    z: ValueModel,
    xs: ValueModel,
    log: Seq<AnswerModel>,
    k: nat,
) -> Step
    decreases fuel,
{
    if fuel == 0 {
        Step::OutOfFuel
    } else {
        let f = (fuel - 1) as nat;
        match xs {
            ValueModel::Nil => ok(z, k),
            ValueModel::Cons(h, t) => bind(
                spec_fold(f, fv, z, *t, log, k),
                |rest: ValueModel, k1: nat|
                    bind(
                        spec_apply(f, fv, *h, log, k1),
                        |partial: ValueModel, k2: nat| spec_apply(f, partial, rest, log, k2),
                    ),
            ),
            _ => fail(ErrorModel::TypeMismatch("fold expects a list"@), k),
        }
    }
}

/// Sampling a field at a point: the point must be a vector of the field's
/// dimension; the field's body is then evaluated with the point bound.
pub open spec fn spec_sample(
    fuel: nat,
    field: ValueModel,
    point: ValueModel,
    log: Seq<AnswerModel>,
    k: nat,
) -> Step {
    match field {
        ValueModel::Field { param, dim, body, env } => match point {
            ValueModel::Vec(v) => if v.len() == dim {
                spec_eval(fuel, body, env.push((param, ValueModel::Vec(v))), log, k)
            } else {
                fail(ErrorModel::InvalidDimension(v.len() as usize), k)
            },
            _ => fail(ErrorModel::TypeMismatch("Field must be sampled at a vector"@), k),
        },
        _ => fail(ErrorModel::NotAField, k),
    }
}

// ===== Executable evaluator =====

/// Where an evaluation got to: done, having used answers up to position `k`;
/// or needing one more.
enum Progress {
    Done(Answer, usize),
    Need(Request),
}

spec fn agrees(r: Progress, s: Step) -> bool {
    match (r, s) {
        (Progress::Done(a, k), Step::Done(b, kk)) => answer_model(a) == b && k == kk,
        (Progress::Need(q), Step::Need(m)) => q@ == m,
        _ => false,
    }
}

spec fn within(r: Progress, n: nat) -> bool {
    r matches Progress::Done(_, k) ==> k <= n
}

/// A copy of an answer.
fn copy_answer(a: &Answer) -> (r: Answer)
    ensures
        answer_model(r) == answer_model(*a),
{
    match a {
        Ok(v) => Ok(v.copy()),
        Err(e) => Err(e.copy()),
    }
}

/// `numeric`: the next answer of the log, or the request for it.
fn numeric_in(req: Request, log: &Vec<Answer>, k: usize) -> (r: Progress)
    requires
        k <= log@.len(),
    ensures
        agrees(r, numeric(req@, log_model(log@), k as nat)),
        within(r, log@.len()),
{
    if k < log.len() {
        Progress::Done(copy_answer(&log[k]), k + 1)
    } else {
        Progress::Need(req)
    }
}

/// `spec_call`: check the arguments of a built-in, then ask for its result.
fn call_in(b: Builtin, args: Vec<Value>, log: &Vec<Answer>, k: usize) -> (r: Progress)
    requires
        k <= log@.len(),
    ensures
        agrees(r, spec_call(b, values_model(args@), log_model(log@), k as nat)),
        within(r, log@.len()),
{
    match check_call(b, &args) {
        Some(e) => Progress::Done(Err(e), k),
        None => numeric_in(Request::Call(b, args), log, k),
    }
}

/// `spec_eval`.
fn eval_in(expr: &Expr, env: &Env, log: &Vec<Answer>, k: usize, Ghost(fuel): Ghost<nat>) -> (r:
    Progress)
    requires
        k <= log@.len(),
        !(spec_eval(fuel, expr@, env@, log_model(log@), k as nat) is OutOfFuel),
    ensures
        agrees(r, spec_eval(fuel, expr@, env@, log_model(log@), k as nat)),
        within(r, log@.len()),
    decreases fuel,
{
    let ghost f = (fuel - 1) as nat;
    let ghost lm = log_model(log@);
    match expr {
        Expr::Var(x) => match env.lookup(x.as_str()) {
            Some(v) => Progress::Done(Ok(v.copy()), k),
            None => Progress::Done(Err(EvalError::UnboundVariable(x.clone())), k),
        },
        Expr::Scalar(t) => numeric_in(Request::Literal(t.clone()), log, k),
        Expr::Bool(b) => Progress::Done(Ok(Value::Bool(*b)), k),
        Expr::Vec(items) => {
            proof {
                super::ast::lemma_vec_model(*items);
                assert(super::ast::models(items@).subrange(0, items@.len() as int)
                    =~= super::ast::models(items@));
            }
            eval_components(items, 0, env, log, k, Ghost(f))
        },
        Expr::Color { r, g, b, a } => {
            let (x1, k1) = match eval_in(r, env, log, k, Ghost(f)) {
                Progress::Done(Ok(Value::Scalar(x)), k1) => (x, k1),
                Progress::Done(Ok(_), k1) => {
                    return Progress::Done(
                        Err(EvalError::TypeMismatch(String::from_str("Expected scalar"))),
                        k1,
                    );
                },
                other => {
                    return other;
                },
            };
            let (x2, k2) = match eval_in(g, env, log, k1, Ghost(f)) {
                Progress::Done(Ok(Value::Scalar(x)), k2) => (x, k2),
                Progress::Done(Ok(_), k2) => {
                    return Progress::Done(
                        Err(EvalError::TypeMismatch(String::from_str("Expected scalar"))),
                        k2,
                    );
                },
                other => {
                    return other;
                },
            };
            let (x3, k3) = match eval_in(b, env, log, k2, Ghost(f)) {
                Progress::Done(Ok(Value::Scalar(x)), k3) => (x, k3),
                Progress::Done(Ok(_), k3) => {
                    return Progress::Done(
                        Err(EvalError::TypeMismatch(String::from_str("Expected scalar"))),
                        k3,
                    );
                },
                other => {
                    return other;
                },
            };
            let (x4, k4) = match eval_in(a, env, log, k3, Ghost(f)) {
                Progress::Done(Ok(Value::Scalar(x)), k4) => (x, k4),
                Progress::Done(Ok(_), k4) => {
                    return Progress::Done(
                        Err(EvalError::TypeMismatch(String::from_str("Expected scalar"))),
                        k4,
                    );
                },
                other => {
                    return other;
                },
            };
            Progress::Done(Ok(Value::Color(x1, x2, x3, x4)), k4)
        },
        Expr::Nil => Progress::Done(Ok(Value::Nil), k),
        Expr::Cons { head, tail } => {
            let (h, k1) = match eval_in(head, env, log, k, Ghost(f)) {
                Progress::Done(Ok(v), k1) => (v, k1),
                other => {
                    return other;
                },
            };
            let (t, k2) = match eval_in(tail, env, log, k1, Ghost(f)) {
                Progress::Done(Ok(v), k2) => (v, k2),
                other => {
                    return other;
                },
            };
            Progress::Done(Ok(Value::Cons(Box::new(h), Box::new(t))), k2)
        },
        Expr::Lambda { param, body, .. } => Progress::Done(
            Ok(Value::Closure { param: param.clone(), body: body.copy(), env: env.copy() }),
            k,
        ),
        Expr::App { func, arg } => {
            let (fv, k1) = match eval_in(func, env, log, k, Ghost(f)) {
                Progress::Done(Ok(v), k1) => (v, k1),
                other => {
                    return other;
                },
            };
            let (av, k2) = match eval_in(arg, env, log, k1, Ghost(f)) {
                Progress::Done(Ok(v), k2) => (v, k2),
                other => {
                    return other;
                },
            };
            apply_in(fv, av, log, k2, Ghost(f))
        },
        Expr::TyLambda { ty_var, body } => Progress::Done(
            Ok(Value::TyClosure { ty_var: ty_var.clone(), body: body.copy(), env: env.copy() }),
            k,
        ),
        Expr::TyApp { expr, .. } => eval_in(expr, env, log, k, Ghost(f)),
        Expr::DimLambda { dim_var, body } => Progress::Done(
            Ok(Value::DimClosure { dim_var: dim_var.clone(), body: body.copy(), env: env.copy() }),
            k,
        ),
        Expr::DimApp { expr, .. } => eval_in(expr, env, log, k, Ghost(f)),
        Expr::Field { param, dim, body } => Progress::Done(
            Ok(Value::Field { param: param.clone(), dim: *dim, body: body.copy(), env: env.copy() }),
            k,
        ),
        Expr::Let { var, value, body, .. } => {
            let (v, k1) = match eval_in(value, env, log, k, Ghost(f)) {
                Progress::Done(Ok(v), k1) => (v, k1),
                other => {
                    return other;
                },
            };
            let inner = env.extend(var.clone(), v);
            eval_in(body, &inner, log, k1, Ghost(f))
        },
        Expr::Fold { func, init, list } => {
            let (fv, k1) = match eval_in(func, env, log, k, Ghost(f)) {
                Progress::Done(Ok(v), k1) => (v, k1),
                other => {
                    return other;
                },
            };
            let (z, k2) = match eval_in(init, env, log, k1, Ghost(f)) {
                Progress::Done(Ok(v), k2) => (v, k2),
                other => {
                    return other;
                },
            };
            let (xs, k3) = match eval_in(list, env, log, k2, Ghost(f)) {
                Progress::Done(Ok(v), k3) => (v, k3),
                other => {
                    return other;
                },
            };
            fold_in(fv, z, xs, log, k3, Ghost(f))
        },
        Expr::Builtin(name) => match lookup_builtin(name.as_str()) {
            Some(v) => Progress::Done(Ok(v), k),
            None => {
                let mut message = String::from_str("builtin: ");
                message.append(name.as_str());
                Progress::Done(Err(EvalError::UnboundVariable(message)), k)
            },
        },
        Expr::If { cond, then_branch, else_branch } => {
            let (c, k1) = match eval_in(cond, env, log, k, Ghost(f)) {
                Progress::Done(Ok(v), k1) => (v, k1),
                other => {
                    return other;
                },
            };
            match c {
                Value::Bool(true) => eval_in(then_branch, env, log, k1, Ghost(f)),
                Value::Bool(false) => eval_in(else_branch, env, log, k1, Ghost(f)),
                _ => Progress::Done(
                    Err(EvalError::TypeMismatch(String::from_str("Condition must be boolean"))),
                    k1,
                ),
            }
        },
    }
}

/// `spec_eval_components` on the components of `items` from position `i`.
fn eval_components(
    items: &Vec<Expr>,
    i: usize,
    env: &Env,
    log: &Vec<Answer>,
    k: usize,
    Ghost(fuel): Ghost<nat>,
) -> (r: Progress)
    requires
        i <= items@.len(),
        k <= log@.len(),
        !(spec_eval_components(
            fuel,
            super::ast::models(items@).subrange(i as int, items@.len() as int),
            env@,
            log_model(log@),
            k as nat,
        ) is OutOfFuel),
    ensures
        agrees(
            r,
            spec_eval_components(
                fuel,
                super::ast::models(items@).subrange(i as int, items@.len() as int),
                env@,
                log_model(log@),
                k as nat,
            ),
        ),
        within(r, log@.len()),
        r matches Progress::Done(Ok(v), _) ==> v is Vec,
    decreases fuel,
{
    let ghost f = (fuel - 1) as nat;
    let ghost rest = super::ast::models(items@).subrange(i as int, items@.len() as int);
    if i == items.len() {
        return Progress::Done(Ok(Value::Vec(Vec::new())), k);
    }
    proof {
        assert(rest[0] == items@[i as int]@);
        assert(rest.drop_first() =~= super::ast::models(items@).subrange(
            i + 1,
            items@.len() as int,
        ));
    }
    let (x, k1) = match eval_in(&items[i], env, log, k, Ghost(f)) {
        Progress::Done(Ok(Value::Scalar(x)), k1) => (x, k1),
        Progress::Done(Ok(_), k1) => {
            return Progress::Done(
                Err(EvalError::TypeMismatch(String::from_str("Vector components must be scalars"))),
                k1,
            );
        },
        other => {
            return other;
        },
    };
    match eval_components(items, i + 1, env, log, k1, Ghost(f)) {
        Progress::Done(Ok(Value::Vec(xs)), k2) => {
            let mut out = xs;
            let ghost old_out = out@;
            out.insert(0, x);
            assert(out@ =~= seq![x] + old_out);
            Progress::Done(Ok(Value::Vec(out)), k2)
        },
        other => other,
    }
}

/// `spec_apply`.
fn apply_in(fv: Value, av: Value, log: &Vec<Answer>, k: usize, Ghost(fuel): Ghost<nat>) -> (r:
    Progress)
    requires
        k <= log@.len(),
        !(spec_apply(fuel, fv@, av@, log_model(log@), k as nat) is OutOfFuel),
    ensures
        agrees(r, spec_apply(fuel, fv@, av@, log_model(log@), k as nat)),
        within(r, log@.len()),
    decreases fuel,
{
    let ghost f = (fuel - 1) as nat;
    let ghost fm = fv@;
    match fv {
        Value::Closure { param, body, env } => {
            let mut inner = env;
            inner.insert(param, av);
            eval_in(&body, &inner, log, k, Ghost(f))
        },
        Value::Builtin(b) => {
            let arity = get_arity(b);
            let mut args: Vec<Value> = Vec::new();
            args.push(av);
            proof {
                assert(values_model(args@) =~= seq![av@]);
            }
            if arity == 1 {
                call_in(b, args, log, k)
            } else {
                let r = Value::PartialBuiltin { func: b, args, arity };
                proof {
                    lemma_partial_model(r);
                    assert(Seq::new(r->args@.len(), |i: int| r->args@[i]@) =~= seq![av@]);
                }
                Progress::Done(Ok(r), k)
            }
        },
        Value::PartialBuiltin { func, args, arity } => {
            proof {
                lemma_partial_model(Value::PartialBuiltin { func, args, arity });
                assert(Seq::new(args@.len(), |i: int| args@[i]@) =~= values_model(args@));
                lemma_values_model_push(args@, av);
            }
            let mut args = args;
            args.push(av);
            if args.len() == arity {
                call_in(func, args, log, k)
            } else {
                let r = Value::PartialBuiltin { func, args, arity };
                proof {
                    lemma_partial_model(r);
                    assert(Seq::new(r->args@.len(), |i: int| r->args@[i]@) =~= values_model(
                        r->args@,
                    ));
                }
                Progress::Done(Ok(r), k)
            }
        },
        _ => Progress::Done(Err(EvalError::NotAFunction), k),
    }
}

/// `spec_fold`.
fn fold_in(
    fv: Value,
    z: Value,
    xs: Value,
    log: &Vec<Answer>,
    k: usize,
    Ghost(fuel): Ghost<nat>,
) -> (r: Progress)
    requires
        k <= log@.len(),
        !(spec_fold(fuel, fv@, z@, xs@, log_model(log@), k as nat) is OutOfFuel),
    ensures
        agrees(r, spec_fold(fuel, fv@, z@, xs@, log_model(log@), k as nat)),
        within(r, log@.len()),
    decreases fuel,
{
    let ghost f = (fuel - 1) as nat;
    match xs {
        Value::Nil => Progress::Done(Ok(z), k),
        Value::Cons(h, t) => {
            let (rest, k1) = match fold_in(fv.copy(), z, *t, log, k, Ghost(f)) {
                Progress::Done(Ok(v), k1) => (v, k1),
                other => {
                    return other;
                },
            };
            let (partial, k2) = match apply_in(fv, *h, log, k1, Ghost(f)) {
                Progress::Done(Ok(v), k2) => (v, k2),
                other => {
                    return other;
                },
            };
            apply_in(partial, rest, log, k2, Ghost(f))
        },
        _ => Progress::Done(
            Err(EvalError::TypeMismatch(String::from_str("fold expects a list"))),
            k,
        ),
    }
}


// ===== Public entry points =====

/// How far evaluation got with a log of answers: to its answer, or to the
/// next floating-point computation it needs.
#[derive(Debug)]
pub enum Evaluation {
    Finished(Answer),
    Pending(Request),
}

/// `r` reports the step `s`: its answer, or the computation it needs.
pub open spec fn reports(r: Evaluation, s: Step) -> bool {
    match (r, s) {
        (Evaluation::Finished(a), Step::Done(b, _)) => answer_model(a) == b,
        (Evaluation::Pending(q), Step::Need(m)) => q@ == m,
        _ => false,
    }
}

/// Evaluating `e` in `env` against `log` ends (with an answer or a request)
/// at some depth. It does not where the program itself loops.
pub open spec fn eval_terminates(e: ExprModel, env: EnvModel, log: Seq<AnswerModel>) -> bool {
    exists|fuel: nat| !(#[trigger] spec_eval(fuel, e, env, log, 0) is OutOfFuel)
}

/// Where evaluating `e` in `env` against `log` ends, at a depth at which it does.
pub open spec fn spec_evaluation(e: ExprModel, env: EnvModel, log: Seq<AnswerModel>) -> Step {
    spec_eval(
        choose|fuel: nat| !(#[trigger] spec_eval(fuel, e, env, log, 0) is OutOfFuel),
        e,
        env,
        log,
        0,
    )
}

/// Evaluate `expr` in `env`, taking the results of floating-point
/// computations from `log` in the order in which evaluation needs them.
pub fn eval(expr: &Expr, env: &Env, log: &Vec<Answer>) -> (r: Evaluation)
    requires
        eval_terminates(expr@, env@, log_model(log@)),
    ensures
        reports(r, spec_evaluation(expr@, env@, log_model(log@))),
{
    let ghost fuel = choose|fuel: nat|
        !(#[trigger] spec_eval(fuel, expr@, env@, log_model(log@), 0) is OutOfFuel);
    match eval_in(expr, env, log, 0, Ghost(fuel)) {
        Progress::Done(a, _) => Evaluation::Finished(a),
        Progress::Need(q) => Evaluation::Pending(q),
    }
}

/// Sampling `field` at `point` against `log` ends at some depth.
pub open spec fn sample_terminates(field: ValueModel, point: ValueModel, log: Seq<AnswerModel>) -> bool {
    exists|fuel: nat| !(#[trigger] spec_sample(fuel, field, point, log, 0) is OutOfFuel)
}

/// Where sampling `field` at `point` against `log` ends, at a depth at which it does.
pub open spec fn spec_sampling(field: ValueModel, point: ValueModel, log: Seq<AnswerModel>) -> Step {
    spec_sample(
        choose|fuel: nat| !(#[trigger] spec_sample(fuel, field, point, log, 0) is OutOfFuel),
        field,
        point,
        log,
        0,
    )
}

/// Sample a field at a point: check that the point is a vector of the
/// field's dimension, then evaluate the field's body with the point bound.
pub fn sample_field(field: Value, point: Value, log: &Vec<Answer>) -> (r: Evaluation)
    requires
        sample_terminates(field@, point@, log_model(log@)),
    ensures
        reports(r, spec_sampling(field@, point@, log_model(log@))),
{
    let ghost fuel = choose|fuel: nat|
        !(#[trigger] spec_sample(fuel, field@, point@, log_model(log@), 0) is OutOfFuel);
    match field {
        Value::Field { param, dim, body, env } => match point {
            Value::Vec(v) => {
                if v.len() == dim {
                    let inner = env.extend(param, Value::Vec(v));
                    match eval_in(&body, &inner, log, 0, Ghost(fuel)) {
                        Progress::Done(a, _) => Evaluation::Finished(a),
                        Progress::Need(q) => Evaluation::Pending(q),
                    }
                } else {
                    let n = v.len();
                    Evaluation::Finished(Err(EvalError::InvalidDimension(n)))
                }
            },
            _ => Evaluation::Finished(
                Err(EvalError::TypeMismatch(String::from_str("Field must be sampled at a vector"))),
            ),
        },
        _ => Evaluation::Finished(Err(EvalError::NotAField)),
    }
}

} // verus!
