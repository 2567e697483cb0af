//! Answers beyond those that evaluation uses are never looked at: an
//! evaluation that ends with a log ends the same way with any longer log
//! that starts with it.
use vstd::prelude::*;
use super::ast::ExprModel;
use super::env::{EnvModel, ValueModel};
use super::eval::{
    AnswerModel,
    Step,
    eval_terminates,
    sample_terminates,
    spec_apply,
    spec_eval,
    spec_eval_components,
    spec_evaluation,
    spec_fold,
    spec_sample,
    spec_sampling,
};
use super::depth::{lemma_evaluation_at_any_depth, lemma_sampling_at_any_depth};

verus! {

proof fn lemma_eval_extra(
    fuel: nat,
    e: ExprModel,
    env: EnvModel,
    log: Seq<AnswerModel>,
    more: Seq<AnswerModel>,
    k: nat,
)
    requires
        spec_eval(fuel, e, env, log, k) is Done,
    ensures
        spec_eval(fuel, e, env, log + more, k) == spec_eval(fuel, e, env, log, k),
    decreases fuel,
{
    let d = (fuel - 1) as nat;
    match e {
        ExprModel::Vec(items) => {
            lemma_components_extra(d, items, env, log, more, k);
        },
        ExprModel::Color { r, g, b, a } => {
            lemma_eval_extra(d, *r, env, log, more, k);
            if let Step::Done(Ok(ValueModel::Scalar(_)), k1) = spec_eval(d, *r, env, log, k) {
                lemma_eval_extra(d, *g, env, log, more, k1);
                if let Step::Done(Ok(ValueModel::Scalar(_)), k2) = spec_eval(d, *g, env, log, k1) {
                    lemma_eval_extra(d, *b, env, log, more, k2);
                    if let Step::Done(Ok(ValueModel::Scalar(_)), k3) = spec_eval(
                        d,
                        *b,
                        env,
                        log,
                        k2,
                    ) {
                        lemma_eval_extra(d, *a, env, log, more, k3);
                    }
                }
            }
        },
        ExprModel::Cons { head, tail } => {
            lemma_eval_extra(d, *head, env, log, more, k);
            if let Step::Done(Ok(_), k1) = spec_eval(d, *head, env, log, k) {
                lemma_eval_extra(d, *tail, env, log, more, k1);
            }
        },
        ExprModel::App { func, arg } => {
            lemma_eval_extra(d, *func, env, log, more, k);
            if let Step::Done(Ok(fv), k1) = spec_eval(d, *func, env, log, k) {
                lemma_eval_extra(d, *arg, env, log, more, k1);
                if let Step::Done(Ok(av), k2) = spec_eval(d, *arg, env, log, k1) {
                    lemma_apply_extra(d, fv, av, log, more, k2);
                }
            }
        },
        ExprModel::TyApp { expr, .. } => {
            lemma_eval_extra(d, *expr, env, log, more, k);
        },
        ExprModel::DimApp { expr, .. } => {
            lemma_eval_extra(d, *expr, env, log, more, k);
        },
        ExprModel::Let { var, value, body, .. } => {
            lemma_eval_extra(d, *value, env, log, more, k);
            if let Step::Done(Ok(v), k1) = spec_eval(d, *value, env, log, k) {
                lemma_eval_extra(d, *body, env.push((var, v)), log, more, k1);
            }
        },
        ExprModel::Fold { func, init, list } => {
            lemma_eval_extra(d, *func, env, log, more, k);
            if let Step::Done(Ok(fv), k1) = spec_eval(d, *func, env, log, k) {
                lemma_eval_extra(d, *init, env, log, more, k1);
                if let Step::Done(Ok(z), k2) = spec_eval(d, *init, env, log, k1) {
                    lemma_eval_extra(d, *list, env, log, more, k2);
                    if let Step::Done(Ok(xs), k3) = spec_eval(d, *list, env, log, k2) {
                        lemma_fold_extra(d, fv, z, xs, log, more, k3);
                    }
                }
            }
        },
        ExprModel::If { cond, then_branch, else_branch } => {
            lemma_eval_extra(d, *cond, env, log, more, k);
            if let Step::Done(Ok(ValueModel::Bool(c)), k1) = spec_eval(d, *cond, env, log, k) {
                if c {
                    lemma_eval_extra(d, *then_branch, env, log, more, k1);
                } else {
                    lemma_eval_extra(d, *else_branch, env, log, more, k1);
                }
            }
        },
        _ => {},
    }
}

proof fn lemma_components_extra(
    fuel: nat,
    items: Seq<ExprModel>,
    env: EnvModel,
    log: Seq<AnswerModel>,
    more: Seq<AnswerModel>,
    k: nat,
)
    requires
        spec_eval_components(fuel, items, env, log, k) is Done,
    ensures
        spec_eval_components(fuel, items, env, log + more, k) == spec_eval_components(fuel, items, env, log, k),
    decreases fuel,
{
    let d = (fuel - 1) as nat;
    if items.len() > 0 {
        lemma_eval_extra(d, items[0], env, log, more, k);
        if let Step::Done(Ok(ValueModel::Scalar(_)), k1) = spec_eval(d, items[0], env, log, k) {
            lemma_components_extra(d, items.drop_first(), env, log, more, k1);
        }
    }
}

proof fn lemma_apply_extra(
    fuel: nat,
    fv: ValueModel,
    av: ValueModel,
    log: Seq<AnswerModel>,
    more: Seq<AnswerModel>,
    k: nat,
)
    requires
        spec_apply(fuel, fv, av, log, k) is Done,
    ensures
        spec_apply(fuel, fv, av, log + more, k) == spec_apply(fuel, fv, av, log, k),
    decreases fuel,
{
    let d = (fuel - 1) as nat;
    if let ValueModel::Closure { param, body, env } = fv {
        lemma_eval_extra(d, body, env.push((param, av)), log, more, k);
    }
}

proof fn lemma_fold_extra(
    fuel: nat,
    fv: ValueModel,
    z: ValueModel,
    xs: ValueModel,
    log: Seq<AnswerModel>,
    more: Seq<AnswerModel>,
    k: nat,
)
    requires
        spec_fold(fuel, fv, z, xs, log, k) is Done,
    ensures
        spec_fold(fuel, fv, z, xs, log + more, k) == spec_fold(fuel, fv, z, xs, log, k),
    decreases fuel,
{
    let d = (fuel - 1) as nat;
    if let ValueModel::Cons(h, t) = xs {
        lemma_fold_extra(d, fv, z, *t, log, more, k);
        if let Step::Done(Ok(rest), k1) = spec_fold(d, fv, z, *t, log, k) {
            lemma_apply_extra(d, fv, *h, log, more, k1);
            if let Step::Done(Ok(partial), k2) = spec_apply(d, fv, *h, log, k1) {
                lemma_apply_extra(d, partial, rest, log, more, k2);
            }
        }
    }
}

/// Once evaluation has finished with a log of answers, it finishes the same
/// way with any longer log that starts with it: answers past those it used
/// are never looked at.
pub proof fn lemma_finished_with_more_answers(
    e: ExprModel,
    env: EnvModel,
    log: Seq<AnswerModel>,
    more: Seq<AnswerModel>,
)
    requires
        eval_terminates(e, env, log),
        spec_evaluation(e, env, log) is Done,
    ensures
        eval_terminates(e, env, log + more),
        spec_evaluation(e, env, log + more) == spec_evaluation(e, env, log),
{
    let fuel = choose|f: nat| !(#[trigger] spec_eval(f, e, env, log, 0) is OutOfFuel);
    lemma_eval_extra(fuel, e, env, log, more, 0);
    assert(!(spec_eval(fuel, e, env, log + more, 0) is OutOfFuel));
    lemma_evaluation_at_any_depth(fuel, e, env, log + more);
}

/// Likewise for sampling a field.
pub proof fn lemma_sampled_with_more_answers(
    field: ValueModel,
    point: ValueModel,
    log: Seq<AnswerModel>,
    more: Seq<AnswerModel>,
)
    requires
        sample_terminates(field, point, log),
        spec_sampling(field, point, log) is Done,
    ensures
        sample_terminates(field, point, log + more),
        spec_sampling(field, point, log + more) == spec_sampling(field, point, log),
{
    let fuel = choose|f: nat| !(#[trigger] spec_sample(f, field, point, log, 0) is OutOfFuel);
    if let ValueModel::Field { param, dim, body, env } = field {
        if let ValueModel::Vec(v) = point {
            if v.len() == dim {
                lemma_eval_extra(fuel, body, env.push((param, ValueModel::Vec(v))), log, more, 0);
            }
        }
    }
    assert(!(spec_sample(fuel, field, point, log + more, 0) is OutOfFuel));
    lemma_sampling_at_any_depth(fuel, field, point, log + more);
}

} // verus!
