//! Evaluation does not depend on the depth it is given, once that depth
//! suffices: more depth never changes where it ends.
use vstd::prelude::*;
use super::ast::ExprModel;
use super::env::{EnvModel, ValueModel};
use super::eval::{
    AnswerModel,
    Step,
    spec_apply,
    spec_eval,
    spec_eval_components,
    spec_evaluation,
    spec_fold,
    spec_sample,
    spec_sampling,
};

verus! {

proof fn lemma_eval_depth(
    f1: nat,
    f2: nat,
    e: ExprModel,
    env: EnvModel,
    log: Seq<AnswerModel>,
    k: nat,
)
    requires
        f1 <= f2,
        !(spec_eval(f1, e, env, log, k) is OutOfFuel),
    ensures
        spec_eval(f2, e, env, log, k) == spec_eval(f1, e, env, log, k),
    decreases f1,
{
    let g1 = (f1 - 1) as nat;
    let g2 = (f2 - 1) as nat;
    match e {
        ExprModel::Vec(items) => {
            lemma_components_depth(g1, g2, items, env, log, k);
        },
        ExprModel::Color { r, g, b, a } => {
            lemma_eval_depth(g1, g2, *r, env, log, k);
            if let Step::Done(Ok(ValueModel::Scalar(_)), k1) = spec_eval(g1, *r, env, log, k) {
                lemma_eval_depth(g1, g2, *g, env, log, k1);
                if let Step::Done(Ok(ValueModel::Scalar(_)), k2) = spec_eval(g1, *g, env, log, k1) {
                    lemma_eval_depth(g1, g2, *b, env, log, k2);
                    if let Step::Done(Ok(ValueModel::Scalar(_)), k3) = spec_eval(
                        g1,
                        *b,
                        env,
                        log,
                        k2,
                    ) {
                        lemma_eval_depth(g1, g2, *a, env, log, k3);
                    }
                }
            }
        },
        ExprModel::Cons { head, tail } => {
            lemma_eval_depth(g1, g2, *head, env, log, k);
            if let Step::Done(Ok(_), k1) = spec_eval(g1, *head, env, log, k) {
                lemma_eval_depth(g1, g2, *tail, env, log, k1);
            }
        },
        ExprModel::App { func, arg } => {
            lemma_eval_depth(g1, g2, *func, env, log, k);
            if let Step::Done(Ok(fv), k1) = spec_eval(g1, *func, env, log, k) {
                lemma_eval_depth(g1, g2, *arg, env, log, k1);
                if let Step::Done(Ok(av), k2) = spec_eval(g1, *arg, env, log, k1) {
                    lemma_apply_depth(g1, g2, fv, av, log, k2);
                }
            }
        },
        ExprModel::TyApp { expr, .. } => {
            lemma_eval_depth(g1, g2, *expr, env, log, k);
        },
        ExprModel::DimApp { expr, .. } => {
            lemma_eval_depth(g1, g2, *expr, env, log, k);
        },
        ExprModel::Let { var, value, body, .. } => {
            lemma_eval_depth(g1, g2, *value, env, log, k);
            if let Step::Done(Ok(v), k1) = spec_eval(g1, *value, env, log, k) {
                lemma_eval_depth(g1, g2, *body, env.push((var, v)), log, k1);
            }
        },
        ExprModel::Fold { func, init, list } => {
            lemma_eval_depth(g1, g2, *func, env, log, k);
            if let Step::Done(Ok(fv), k1) = spec_eval(g1, *func, env, log, k) {
                lemma_eval_depth(g1, g2, *init, env, log, k1);
                if let Step::Done(Ok(z), k2) = spec_eval(g1, *init, env, log, k1) {
                    lemma_eval_depth(g1, g2, *list, env, log, k2);
                    if let Step::Done(Ok(xs), k3) = spec_eval(g1, *list, env, log, k2) {
                        lemma_fold_depth(g1, g2, fv, z, xs, log, k3);
                    }
                }
            }
        },
        ExprModel::If { cond, then_branch, else_branch } => {
            lemma_eval_depth(g1, g2, *cond, env, log, k);
            if let Step::Done(Ok(ValueModel::Bool(c)), k1) = spec_eval(g1, *cond, env, log, k) {
                if c {
                    lemma_eval_depth(g1, g2, *then_branch, env, log, k1);
                } else {
                    lemma_eval_depth(g1, g2, *else_branch, env, log, k1);
                }
            }
        },
        _ => {},
    }
}

proof fn lemma_components_depth(
    f1: nat,
    f2: nat,
    items: Seq<ExprModel>,
    env: EnvModel,
    log: Seq<AnswerModel>,
    k: nat,
)
    requires
        f1 <= f2,
        !(spec_eval_components(f1, items, env, log, k) is OutOfFuel),
    ensures
        spec_eval_components(f2, items, env, log, k) == spec_eval_components(f1, items, env, log, k),
    decreases f1,
{
    let g1 = (f1 - 1) as nat;
    let g2 = (f2 - 1) as nat;
    if items.len() > 0 {
        lemma_eval_depth(g1, g2, items[0], env, log, k);
        if let Step::Done(Ok(ValueModel::Scalar(_)), k1) = spec_eval(g1, items[0], env, log, k) {
            lemma_components_depth(g1, g2, items.drop_first(), env, log, k1);
        }
    }
}

pub(crate) proof fn lemma_apply_depth(
    f1: nat,
    f2: nat,
    fv: ValueModel,
    av: ValueModel,
    log: Seq<AnswerModel>,
    k: nat,
)
    requires
        f1 <= f2,
        !(spec_apply(f1, fv, av, log, k) is OutOfFuel),
    ensures
        spec_apply(f2, fv, av, log, k) == spec_apply(f1, fv, av, log, k),
    decreases f1,
{
    let g1 = (f1 - 1) as nat;
    let g2 = (f2 - 1) as nat;
    if let ValueModel::Closure { param, body, env } = fv {
        lemma_eval_depth(g1, g2, body, env.push((param, av)), log, k);
    }
}

pub(crate) proof fn lemma_fold_depth(
    f1: nat,
    f2: nat,
    fv: ValueModel,
    z: ValueModel,
    xs: ValueModel,
    log: Seq<AnswerModel>,
    k: nat,
)
    requires
        f1 <= f2,
        !(spec_fold(f1, fv, z, xs, log, k) is OutOfFuel),
    ensures
        spec_fold(f2, fv, z, xs, log, k) == spec_fold(f1, fv, z, xs, log, k),
    decreases f1,
{
    let g1 = (f1 - 1) as nat;
    let g2 = (f2 - 1) as nat;
    if let ValueModel::Cons(h, t) = xs {
        lemma_fold_depth(g1, g2, fv, z, *t, log, k);
        if let Step::Done(Ok(rest), k1) = spec_fold(g1, fv, z, *t, log, k) {
            lemma_apply_depth(g1, g2, fv, *h, log, k1);
            if let Step::Done(Ok(partial), k2) = spec_apply(g1, fv, *h, log, k1) {
                lemma_apply_depth(g1, g2, partial, rest, log, k2);
            }
        }
    }
}

/// Evaluation is deterministic in its depth: at any depth at which
/// evaluating `e` in `env` against `log` ends, it ends where
/// [`spec_evaluation`] (what [`super::eval::eval`] reports) says.
pub proof fn lemma_evaluation_at_any_depth(
    fuel: nat,
    e: ExprModel,
    env: EnvModel,
    log: Seq<AnswerModel>,
)
    requires
        !(spec_eval(fuel, e, env, log, 0) is OutOfFuel),
    ensures
        spec_evaluation(e, env, log) == spec_eval(fuel, e, env, log, 0),
{
    let c = choose|f: nat| !(#[trigger] spec_eval(f, e, env, log, 0) is OutOfFuel);
    assert(!(spec_eval(c, e, env, log, 0) is OutOfFuel));
    if c <= fuel {
        lemma_eval_depth(c, fuel, e, env, log, 0);
    } else {
        lemma_eval_depth(fuel, c, e, env, log, 0);
    }
}

/// Sampling likewise: at any depth at which sampling `field` at `point`
/// ends, it ends where [`spec_sampling`] (what
/// [`super::eval::sample_field`] reports) says.
pub proof fn lemma_sampling_at_any_depth(
    fuel: nat,
    field: ValueModel,
    point: ValueModel,
    log: Seq<AnswerModel>,
)
    requires
        !(spec_sample(fuel, field, point, log, 0) is OutOfFuel),
    ensures
        spec_sampling(field, point, log) == spec_sample(fuel, field, point, log, 0),
{
    let c = choose|f: nat| !(#[trigger] spec_sample(f, field, point, log, 0) is OutOfFuel);
    assert(!(spec_sample(c, field, point, log, 0) is OutOfFuel));
    if let ValueModel::Field { param, dim, body, env } = field {
        if let ValueModel::Vec(v) = point {
            if v.len() == dim {
                let inner = env.push((param, ValueModel::Vec(v)));
                if c <= fuel {
                    lemma_eval_depth(c, fuel, body, inner, log, 0);
                } else {
                    lemma_eval_depth(fuel, c, body, inner, log, 0);
                }
            }
        }
    }
}

} // verus!
