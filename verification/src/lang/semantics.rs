//! What evaluation promises: strict everywhere but under abstractions and
//! fields, curried built-ins, sampling as evaluation of the field's body,
//! and types and dimensions erased at run time.
use vstd::prelude::*;
use super::ast::ExprModel;
use super::builtins::spec_arity;
use super::env::{Builtin, EnvModel, ValueModel};
use super::eval::{
    AnswerModel,
    Step,
    eval_terminates,
    sample_terminates,
    spec_apply,
    spec_call,
    spec_eval,
    spec_evaluation,
    spec_fold,
    spec_sample,
    spec_sampling,
};
use super::depth::{
    lemma_apply_depth,
    lemma_evaluation_at_any_depth,
    lemma_fold_depth,
    lemma_sampling_at_any_depth,
};
use super::types::{Nat, TypeModel};

verus! {

/// A field is not evaluated until it is sampled: evaluating a field literal
/// gives a field value that holds its body and the environment as they are,
/// and consults no answer, whatever the body.
pub proof fn lemma_fields_are_lazy(
    param: Seq<char>,
    dim: Nat,
    body: ExprModel,
    env: EnvModel,
    log: Seq<AnswerModel>,
)
    ensures
        ({
            let e = ExprModel::Field { param, dim, body: Box::new(body) };
            &&& eval_terminates(e, env, log)
            &&& spec_evaluation(e, env, log) == Step::Done(
                Ok(ValueModel::Field { param, dim, body, env }),
                0,
            )
        }),
{
    let e = ExprModel::Field { param, dim, body: Box::new(body) };
    assert(!(spec_eval(1, e, env, log, 0) is OutOfFuel));
    lemma_evaluation_at_any_depth(1, e, env, log);
}

/// Likewise a lambda: it evaluates to a closure over the environment as it
/// is, and its body is not evaluated until the closure is applied.
pub proof fn lemma_lambdas_are_closures(
    param: Seq<char>,
    param_ty: TypeModel,
    body: ExprModel,
    env: EnvModel,
    log: Seq<AnswerModel>,
)
    ensures
        ({
            let e = ExprModel::Lambda { param, param_ty, body: Box::new(body) };
            &&& eval_terminates(e, env, log)
            &&& spec_evaluation(e, env, log) == Step::Done(
                Ok(ValueModel::Closure { param, body, env }),
                0,
            )
        }),
{
    let e = ExprModel::Lambda { param, param_ty, body: Box::new(body) };
    assert(!(spec_eval(1, e, env, log, 0) is OutOfFuel));
    lemma_evaluation_at_any_depth(1, e, env, log);
}

/// Built-ins are curried: a built-in of two arguments applied to one keeps
/// it and waits; applied to the second, it is called with both, in order.
/// A built-in of one argument is called at once.
pub proof fn lemma_builtins_are_curried(
    fuel: nat,
    b: Builtin,
    x: ValueModel,
    y: ValueModel,
    log: Seq<AnswerModel>,
    k: nat,
)
    requires
        fuel > 0,
    ensures
        spec_arity(b) == 1 ==> spec_apply(fuel, ValueModel::Builtin(b), x, log, k) == spec_call(
            b,
            seq![x],
            log,
            k,
        ),
        spec_arity(b) == 2 ==> {
            let partial = ValueModel::PartialBuiltin { func: b, args: seq![x], arity: 2 };
            &&& spec_apply(fuel, ValueModel::Builtin(b), x, log, k) == Step::Done(Ok(partial), k)
            &&& spec_apply(fuel, partial, y, log, k) == spec_call(b, seq![x, y], log, k)
        },
{
    assert(seq![x].push(y) =~= seq![x, y]);
}

/// Sampling a field at a point of its dimension evaluates the field's body
/// in the field's environment with its parameter bound to the point.
pub proof fn lemma_sampling_evaluates_body(
    param: Seq<char>,
    dim: usize,
    body: ExprModel,
    env: EnvModel,
    point: Seq<u64>,
    log: Seq<AnswerModel>,
)
    requires
        point.len() == dim,
        eval_terminates(body, env.push((param, ValueModel::Vec(point))), log),
    ensures
        ({
            let field = ValueModel::Field { param, dim, body, env };
            &&& sample_terminates(field, ValueModel::Vec(point), log)
            &&& spec_sampling(field, ValueModel::Vec(point), log) == spec_evaluation(
                body,
                env.push((param, ValueModel::Vec(point))),
                log,
            )
        }),
{
    let field = ValueModel::Field { param, dim, body, env };
    let inner = env.push((param, ValueModel::Vec(point)));
    let fuel = choose|f: nat| !(#[trigger] spec_eval(f, body, inner, log, 0) is OutOfFuel);
    assert(!(spec_sample(fuel, field, ValueModel::Vec(point), log, 0) is OutOfFuel));
    lemma_sampling_at_any_depth(fuel, field, ValueModel::Vec(point), log);
}

/// Types are erased at run time: applying an expression to a type evaluates
/// as the expression alone. So does applying it to a dimension.
pub proof fn lemma_types_are_erased(
    e: ExprModel,
    ty: TypeModel,
    dim: Nat,
    env: EnvModel,
    log: Seq<AnswerModel>,
)
    requires
        eval_terminates(e, env, log),
    ensures
        ({
            let ty_app = ExprModel::TyApp { expr: Box::new(e), ty };
            let dim_app = ExprModel::DimApp { expr: Box::new(e), dim };
            &&& eval_terminates(ty_app, env, log)
            &&& spec_evaluation(ty_app, env, log) == spec_evaluation(e, env, log)
            &&& eval_terminates(dim_app, env, log)
            &&& spec_evaluation(dim_app, env, log) == spec_evaluation(e, env, log)
        }),
{
    let ty_app = ExprModel::TyApp { expr: Box::new(e), ty };
    let dim_app = ExprModel::DimApp { expr: Box::new(e), dim };
    let fuel = choose|f: nat| !(#[trigger] spec_eval(f, e, env, log, 0) is OutOfFuel);
    lemma_evaluation_at_any_depth(fuel, e, env, log);
    assert(spec_eval(fuel + 1, ty_app, env, log, 0) == spec_eval(fuel, e, env, log, 0));
    assert(spec_eval(fuel + 1, dim_app, env, log, 0) == spec_eval(fuel, e, env, log, 0));
    lemma_evaluation_at_any_depth(fuel + 1, ty_app, env, log);
    lemma_evaluation_at_any_depth(fuel + 1, dim_app, env, log);
}

/// Applying `f` to `a`, against `log` from answer `k`, ends at some depth.
pub open spec fn apply_ends(f: ValueModel, a: ValueModel, log: Seq<AnswerModel>, k: nat) -> bool {
    exists|d: nat| !(#[trigger] spec_apply(d, f, a, log, k) is OutOfFuel)
}

/// Folding `f` from `z` over `xs`, against `log` from answer `k`, ends at some depth.
pub open spec fn fold_ends(
    f: ValueModel,
    z: ValueModel,
    xs: ValueModel,
    log: Seq<AnswerModel>,
    k: nat,
) -> bool {
    exists|d: nat| !(#[trigger] spec_fold(d, f, z, xs, log, k) is OutOfFuel)
}

/// `f` always ends as a function of two curried arguments: applied to any
/// value it ends, and what it then gives, applied to any value, ends.
pub open spec fn ends_on_two_arguments(f: ValueModel, log: Seq<AnswerModel>) -> bool {
    &&& forall|a: ValueModel, k: nat| #[trigger] apply_ends(f, a, log, k)
    &&& forall|a: ValueModel, k: nat, d: nat|
        #[trigger] spec_apply(d, f, a, log, k) matches Step::Done(Ok(p), k1) ==> forall|b: ValueModel|
            #[trigger] apply_ends(p, b, log, k1)
}

/// `fold` recurses only on the tail of its list: folding a function that
/// always ends over any list ends.
pub proof fn lemma_fold_ends(
    f: ValueModel,
    z: ValueModel,
    xs: ValueModel,
    log: Seq<AnswerModel>,
    k: nat,
)
    requires
        ends_on_two_arguments(f, log),
    ensures
        fold_ends(f, z, xs, log, k),
    decreases xs,
{
    match xs {
        ValueModel::Cons(h, t) => {
            lemma_fold_ends(f, z, *t, log, k);
            let d1 = choose|d: nat| !(#[trigger] spec_fold(d, f, z, *t, log, k) is OutOfFuel);
            match spec_fold(d1, f, z, *t, log, k) {
                Step::Done(Ok(rest), k1) => {
                    assert(apply_ends(f, *h, log, k1));
                    let d2 = choose|d: nat| !(#[trigger] spec_apply(d, f, *h, log, k1) is OutOfFuel);
                    match spec_apply(d2, f, *h, log, k1) {
                        Step::Done(Ok(partial), k2) => {
                            assert(apply_ends(partial, rest, log, k2));
                            let d3 = choose|d: nat|
                                !(#[trigger] spec_apply(d, partial, rest, log, k2) is OutOfFuel);
                            let m = if d1 >= d2 && d1 >= d3 {
                                d1
                            } else if d2 >= d3 {
                                d2
                            } else {
                                d3
                            };
                            lemma_fold_depth(d1, m, f, z, *t, log, k);
                            lemma_apply_depth(d2, m, f, *h, log, k1);
                            lemma_apply_depth(d3, m, partial, rest, log, k2);
                            assert(!(spec_fold(m + 1, f, z, xs, log, k) is OutOfFuel));
                        },
                        _ => {
                            let m = if d1 >= d2 {
                                d1
                            } else {
                                d2
                            };
                            lemma_fold_depth(d1, m, f, z, *t, log, k);
                            lemma_apply_depth(d2, m, f, *h, log, k1);
                            assert(!(spec_fold(m + 1, f, z, xs, log, k) is OutOfFuel));
                        },
                    }
                },
                _ => {
                    assert(!(spec_fold(d1 + 1, f, z, xs, log, k) is OutOfFuel));
                },
            }
        },
        _ => {
            assert(!(spec_fold(1, f, z, xs, log, k) is OutOfFuel));
        },
    }
}

/// A colour literal is evaluated component by component, in the order
/// written: where red, green, blue and alpha evaluate in turn to the scalars
/// `x1`, `x2`, `x3`, `x4`, the colour is `Color(x1, x2, x3, x4)`, each channel
/// the value of the expression in its own position.
pub proof fn lemma_colour_channels_in_order(
    fuel: nat,
    r: ExprModel,
    g: ExprModel,
    b: ExprModel,
    a: ExprModel,
    env: EnvModel,
    log: Seq<AnswerModel>,
    k: nat,
    x1: u64,
    x2: u64,
    x3: u64,
    x4: u64,
    k1: nat,
    k2: nat,
    k3: nat,
    k4: nat,
)
    requires
        spec_eval(fuel, r, env, log, k) == Step::Done(Ok(ValueModel::Scalar(x1)), k1),
        spec_eval(fuel, g, env, log, k1) == Step::Done(Ok(ValueModel::Scalar(x2)), k2),
        spec_eval(fuel, b, env, log, k2) == Step::Done(Ok(ValueModel::Scalar(x3)), k3),
        spec_eval(fuel, a, env, log, k3) == Step::Done(Ok(ValueModel::Scalar(x4)), k4),
    ensures
        spec_eval(
            fuel + 1,
            ExprModel::Color { r: Box::new(r), g: Box::new(g), b: Box::new(b), a: Box::new(a) },
            env,
            log,
            k,
        ) == Step::Done(Ok(ValueModel::Color(x1, x2, x3, x4)), k4),
{
}

/// A colour of four number literals takes the first four answers of the log
/// as its channels, red first: with answers `x1`, `x2`, `x3`, `x4`, whatever
/// the literals' texts, it evaluates to `Color(x1, x2, x3, x4)`.
pub proof fn lemma_literal_colour(
    t1: Seq<char>,
    t2: Seq<char>,
    t3: Seq<char>,
    t4: Seq<char>,
    env: EnvModel,
    log: Seq<AnswerModel>,
    x1: u64,
    x2: u64,
    x3: u64,
    x4: u64,
)
    requires
        log.len() >= 4,
        log[0] == Ok::<ValueModel, super::env::ErrorModel>(ValueModel::Scalar(x1)),
        log[1] == Ok::<ValueModel, super::env::ErrorModel>(ValueModel::Scalar(x2)),
        log[2] == Ok::<ValueModel, super::env::ErrorModel>(ValueModel::Scalar(x3)),
        log[3] == Ok::<ValueModel, super::env::ErrorModel>(ValueModel::Scalar(x4)),
    ensures
        ({
            let e = ExprModel::Color {
                r: Box::new(ExprModel::Scalar(t1)),
                g: Box::new(ExprModel::Scalar(t2)),
                b: Box::new(ExprModel::Scalar(t3)),
                a: Box::new(ExprModel::Scalar(t4)),
            };
            &&& eval_terminates(e, env, log)
            &&& spec_evaluation(e, env, log) == Step::Done(Ok(ValueModel::Color(x1, x2, x3, x4)), 4)
        }),
{
    assert(spec_eval(1, ExprModel::Scalar(t1), env, log, 0) == Step::Done(Ok(ValueModel::Scalar(x1)), 1));
    assert(spec_eval(1, ExprModel::Scalar(t2), env, log, 1) == Step::Done(Ok(ValueModel::Scalar(x2)), 2));
    assert(spec_eval(1, ExprModel::Scalar(t3), env, log, 2) == Step::Done(Ok(ValueModel::Scalar(x3)), 3));
    assert(spec_eval(1, ExprModel::Scalar(t4), env, log, 3) == Step::Done(Ok(ValueModel::Scalar(x4)), 4));
    lemma_colour_channels_in_order(
        1,
        ExprModel::Scalar(t1),
        ExprModel::Scalar(t2),
        ExprModel::Scalar(t3),
        ExprModel::Scalar(t4),
        env,
        log,
        0,
        x1,
        x2,
        x3,
        x4,
        1,
        2,
        3,
        4,
    );
    let e = ExprModel::Color {
        r: Box::new(ExprModel::Scalar(t1)),
        g: Box::new(ExprModel::Scalar(t2)),
        b: Box::new(ExprModel::Scalar(t3)),
        a: Box::new(ExprModel::Scalar(t4)),
    };
    lemma_evaluation_at_any_depth(2, e, env, log);
}

} // verus!
