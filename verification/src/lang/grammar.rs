//! The expression grammar of FieldCalc, as spec functions.
//!
//! `(+ 2.0 3.0)`, `(fn (x Scalar) (+ x 1.0))`, `(field (p 2) (length p))`,
//! `(let x 5.0 (+ x 1.0))`, `(if c a b)`, `(fold f z xs)`, `(cons h t)`,
//! `(vec 1.0 2.0)`, `(rgb r g b)`, `(rgba r g b a)`, `()`, literals and names.
//!
//! Keywords (`fn`, `let`, `vec`, ..., `true`, `false`) must be followed by a
//! character that cannot continue an identifier: `vec_add` is a name.
//!
//! At each position the alternatives are tried in a fixed order and the first
//! that does not reject is taken; an unrecoverable failure inside any
//! alternative ends the whole parse.
use vstd::prelude::*;
use super::lexer::{Scan, ends_word, has_tag, spec_identifier, spec_number, spec_type, spec_u64, spec_ws};
use super::ast::{ExprModel, apply_all};
use super::types::TypeModel;

verus! {

/// `c` as a lexeme at `p`: whitespace, `c`, whitespace.
pub open spec fn spec_sym(s: Seq<char>, p: int, c: char) -> Option<int> {
    let q = spec_ws(s, p);
    if 0 <= q < s.len() && s[q] == c {
        Some(spec_ws(s, q + 1))
    } else {
        None
    }
}

/// The keyword `t` as a lexeme at `p`: no identifier character may follow it.
pub open spec fn spec_keyword(s: Seq<char>, p: int, t: Seq<char>) -> Option<int> {
    let q = spec_ws(s, p);
    if has_tag(s, q, t) && ends_word(s, q + t.len()) {
        Some(spec_ws(s, q + t.len()))
    } else {
        None
    }
}

/// `(` followed by the keyword `t`.
pub open spec fn spec_open(s: Seq<char>, p: int, t: Seq<char>) -> Option<int> {
    match spec_sym(s, p, '(') {
        Some(q) => spec_keyword(s, q, t),
        None => None,
    }
}

/// An identifier as a lexeme.
pub open spec fn spec_lex_ident(s: Seq<char>, p: int) -> Option<(int, Seq<char>)> {
    match spec_identifier(s, spec_ws(s, p)) {
        Some((e, name)) => Some((spec_ws(s, e), name)),
        None => None,
    }
}

/// A type name as a lexeme.
pub open spec fn spec_lex_type(s: Seq<char>, p: int) -> Option<(int, TypeModel)> {
    match spec_type(s, spec_ws(s, p)) {
        Some((e, t)) => Some((spec_ws(s, e), t)),
        None => None,
    }
}

/// An unsigned integer as a lexeme.
pub open spec fn spec_lex_u64(s: Seq<char>, p: int) -> Option<(int, u64)> {
    match spec_u64(s, spec_ws(s, p)) {
        Some((e, n)) => Some((spec_ws(s, e), n)),
        None => None,
    }
}

/// Strict progress within the input.
pub open spec fn advances(s: Seq<char>, p: int, q: int) -> bool {
    p < q <= s.len()
}

/// The first alternative unless it rejects.
pub open spec fn or_else<T>(a: Scan<T>, b: Scan<T>) -> Scan<T> {
    match a {
        Scan::Error => b,
        _ => a,
    }
}

/// `a` followed by the results of `r`.
pub open spec fn prefixed(a: Seq<ExprModel>, r: Scan<Seq<ExprModel>>) -> Scan<Seq<ExprModel>> {
    match r {
        Scan::Done(q, es) => Scan::Done(q, a + es),
        Scan::Error => Scan::Error,
        Scan::Failure(f) => Scan::Failure(f),
    }
}

/// The items of `r` followed by a closing parenthesis, combined by `build`.
pub open spec fn closed_by<T>(
    s: Seq<char>,
    r: Scan<T>,
    build: spec_fn(T) -> ExprModel,
) -> Scan<ExprModel> {
    match r {
        Scan::Done(q, v) => match spec_sym(s, q, ')') {
            Some(e) => Scan::Done(e, build(v)),
            None => Scan::Error,
        },
        Scan::Error => Scan::Error,
        Scan::Failure(f) => Scan::Failure(f),
    }
}

/// `true` or `false`.
pub open spec fn spec_bool(s: Seq<char>, p: int) -> Scan<ExprModel> {
    let q = spec_ws(s, p);
    if has_tag(s, q, "true"@) && ends_word(s, q + "true"@.len()) {
        Scan::Done(spec_ws(s, q + "true"@.len()), ExprModel::Bool(true))
    } else if has_tag(s, q, "false"@) && ends_word(s, q + "false"@.len()) {
        Scan::Done(spec_ws(s, q + "false"@.len()), ExprModel::Bool(false))
    } else {
        Scan::Error
    }
}

/// A number literal.
pub open spec fn spec_scalar(s: Seq<char>, p: int) -> Scan<ExprModel> {
    match spec_number(s, spec_ws(s, p)) {
        Scan::Done(e, text) => Scan::Done(spec_ws(s, e), ExprModel::Scalar(text)),
        Scan::Error => Scan::Error,
        Scan::Failure(f) => Scan::Failure(f),
    }
}

/// A variable.
pub open spec fn spec_var(s: Seq<char>, p: int) -> Scan<ExprModel> {
    match spec_lex_ident(s, p) {
        Some((e, name)) => Scan::Done(e, ExprModel::Var(name)),
        None => Scan::Error,
    }
}

/// `()`.
pub open spec fn spec_nil(s: Seq<char>, p: int) -> Scan<ExprModel> {
    match spec_sym(s, p, '(') {
        Some(q) => match spec_sym(s, q, ')') {
            Some(e) => Scan::Done(e, ExprModel::Nil),
            None => Scan::Error,
        },
        None => Scan::Error,
    }
}

/// An expression at `p`.
pub open spec fn spec_expr(s: Seq<char>, p: int) -> Scan<ExprModel>
    decreases s.len() - p, 1int, 0int,
{
    or_else(
        spec_bool(s, p),
        or_else(
            spec_scalar(s, p),
            or_else(
                spec_nil(s, p),
                or_else(
                    spec_vector(s, p),
                    or_else(
                        spec_color(s, p),
                        or_else(
                            spec_lambda(s, p),
                            or_else(
                                spec_let(s, p),
                                or_else(
                                    spec_field(s, p),
                                    or_else(
                                        spec_if(s, p),
                                        or_else(
                                            spec_fold(s, p),
                                            or_else(
                                                spec_cons(s, p),
                                                or_else(spec_application(s, p), spec_var(s, p)),
                                            ),
                                        ),
                                    ),
                                ),
                            ),
                        ),
                    ),
                ),
            ),
        ),
    )
}

/// Exactly `n` expressions in a row.
pub open spec fn spec_exprs(s: Seq<char>, p: int, n: nat) -> Scan<Seq<ExprModel>>
    decreases s.len() - p, 2int, n as int,
{
    if n == 0 {
        Scan::Done(p, Seq::empty())
    } else {
        match spec_expr(s, p) {
            Scan::Done(q, e) => if advances(s, p, q) {
                prefixed(seq![e], spec_exprs(s, q, (n - 1) as nat))
            } else {
                Scan::Error
            },
            Scan::Error => Scan::Error,
            Scan::Failure(f) => Scan::Failure(f),
        }
    }
}

/// As many expressions as there are, possibly none.
pub open spec fn spec_many(s: Seq<char>, p: int) -> Scan<Seq<ExprModel>>
    decreases s.len() - p, 2int, 0int,
{
    match spec_expr(s, p) {
        Scan::Done(q, e) => if advances(s, p, q) {
            prefixed(seq![e], spec_many(s, q))
        } else {
            Scan::Error
        },
        Scan::Error => Scan::Done(p, Seq::empty()),
        Scan::Failure(f) => Scan::Failure(f),
    }
}

/// `(vec e ...)`.
pub open spec fn spec_vector(s: Seq<char>, p: int) -> Scan<ExprModel>
    decreases s.len() - p, 0int, 0int,
{
    match spec_open(s, p, "vec"@) {
        Some(q) => if advances(s, p, q) {
            closed_by(s, spec_many(s, q), |es: Seq<ExprModel>| ExprModel::Vec(es))
        } else {
            Scan::Error
        },
        None => Scan::Error,
    }
}

/// `(rgba r g b a)`, else `(rgb r g b)` with alpha `1.0`.
pub open spec fn spec_color(s: Seq<char>, p: int) -> Scan<ExprModel>
    decreases s.len() - p, 0int, 0int,
{
    let rgba = match spec_open(s, p, "rgba"@) {
        Some(q) => if advances(s, p, q) {
            closed_by(
                s,
                spec_exprs(s, q, 4),
                |es: Seq<ExprModel>|
                    ExprModel::Color {
                        r: Box::new(es[0]),
                        g: Box::new(es[1]),
                        b: Box::new(es[2]),
                        a: Box::new(es[3]),
                    },
            )
        } else {
            Scan::Error
        },
        None => Scan::Error,
    };
    let rgb = match spec_open(s, p, "rgb"@) {
        Some(q) => if advances(s, p, q) {
            closed_by(
                s,
                spec_exprs(s, q, 3),
                |es: Seq<ExprModel>|
                    ExprModel::Color {
                        r: Box::new(es[0]),
                        g: Box::new(es[1]),
                        b: Box::new(es[2]),
                        a: Box::new(ExprModel::Scalar("1.0"@)),
                    },
            )
        } else {
            Scan::Error
        },
        None => Scan::Error,
    };
    or_else(rgba, rgb)
}

/// `(fn (x Type) body)`.
pub open spec fn spec_lambda(s: Seq<char>, p: int) -> Scan<ExprModel>
    decreases s.len() - p, 0int, 0int,
{
    match spec_open(s, p, "fn"@) {
        Some(q) => match spec_sym(s, q, '(') {
            Some(q1) => match spec_lex_ident(s, q1) {
                Some((q2, name)) => match spec_lex_type(s, q2) {
                    Some((q3, ty)) => match spec_sym(s, q3, ')') {
                        Some(q4) => if advances(s, p, q4) {
                            closed_by(
                                s,
                                spec_exprs(s, q4, 1),
                                |es: Seq<ExprModel>|
                                    ExprModel::Lambda {
                                        param: name,
                                        param_ty: ty,
                                        body: Box::new(es[0]),
                                    },
                            )
                        } else {
                            Scan::Error
                        },
                        None => Scan::Error,
                    },
                    None => Scan::Error,
                },
                None => Scan::Error,
            },
            None => Scan::Error,
        },
        None => Scan::Error,
    }
}

/// `(let x value body)`; the bound variable is annotated `Scalar`.
pub open spec fn spec_let(s: Seq<char>, p: int) -> Scan<ExprModel>
    decreases s.len() - p, 0int, 0int,
{
    match spec_open(s, p, "let"@) {
        Some(q) => match spec_lex_ident(s, q) {
            Some((q1, name)) => if advances(s, p, q1) {
                closed_by(
                    s,
                    spec_exprs(s, q1, 2),
                    |es: Seq<ExprModel>|
                        ExprModel::Let {
                            var: name,
                            ty: TypeModel::Scalar,
                            value: Box::new(es[0]),
                            body: Box::new(es[1]),
                        },
                )
            } else {
                Scan::Error
            },
            None => Scan::Error,
        },
        None => Scan::Error,
    }
}

/// `(field (p dim) body)`.
pub open spec fn spec_field(s: Seq<char>, p: int) -> Scan<ExprModel>
    decreases s.len() - p, 0int, 0int,
{
    match spec_open(s, p, "field"@) {
        Some(q) => match spec_sym(s, q, '(') {
            Some(q1) => match spec_lex_ident(s, q1) {
                Some((q2, name)) => match spec_lex_u64(s, q2) {
                    Some((q3, dim)) => match spec_sym(s, q3, ')') {
                        Some(q4) => if advances(s, p, q4) {
                            closed_by(
                                s,
                                spec_exprs(s, q4, 1),
                                |es: Seq<ExprModel>|
                                    ExprModel::Field {
                                        param: name,
                                        dim: dim as usize,
                                        body: Box::new(es[0]),
                                    },
                            )
                        } else {
                            Scan::Error
                        },
                        None => Scan::Error,
                    },
                    None => Scan::Error,
                },
                None => Scan::Error,
            },
            None => Scan::Error,
        },
        None => Scan::Error,
    }
}

/// `(if cond then else)`.
pub open spec fn spec_if(s: Seq<char>, p: int) -> Scan<ExprModel>
    decreases s.len() - p, 0int, 0int,
{
    match spec_open(s, p, "if"@) {
        Some(q) => if advances(s, p, q) {
            closed_by(
                s,
                spec_exprs(s, q, 3),
                |es: Seq<ExprModel>|
                    ExprModel::If {
                        cond: Box::new(es[0]),
                        then_branch: Box::new(es[1]),
                        else_branch: Box::new(es[2]),
                    },
            )
        } else {
            Scan::Error
        },
        None => Scan::Error,
    }
}

/// `(fold func init list)`.
pub open spec fn spec_fold(s: Seq<char>, p: int) -> Scan<ExprModel>
    decreases s.len() - p, 0int, 0int,
{
    match spec_open(s, p, "fold"@) {
        Some(q) => if advances(s, p, q) {
            closed_by(
                s,
                spec_exprs(s, q, 3),
                |es: Seq<ExprModel>|
                    ExprModel::Fold {
                        func: Box::new(es[0]),
                        init: Box::new(es[1]),
                        list: Box::new(es[2]),
                    },
            )
        } else {
            Scan::Error
        },
        None => Scan::Error,
    }
}

/// `(cons head tail)`.
pub open spec fn spec_cons(s: Seq<char>, p: int) -> Scan<ExprModel>
    decreases s.len() - p, 0int, 0int,
{
    match spec_open(s, p, "cons"@) {
        Some(q) => if advances(s, p, q) {
            closed_by(
                s,
                spec_exprs(s, q, 2),
                |es: Seq<ExprModel>|
                    ExprModel::Cons { head: Box::new(es[0]), tail: Box::new(es[1]) },
            )
        } else {
            Scan::Error
        },
        None => Scan::Error,
    }
}

/// `(f a1 ... an)`: `f` applied to each argument in turn.
pub open spec fn spec_application(s: Seq<char>, p: int) -> Scan<ExprModel>
    decreases s.len() - p, 0int, 0int,
{
    match spec_sym(s, p, '(') {
        Some(q) => if advances(s, p, q) {
            match spec_expr(s, q) {
                Scan::Done(q1, f) => if advances(s, q, q1) {
                    closed_by(s, spec_many(s, q1), |args: Seq<ExprModel>| apply_all(f, args))
                } else {
                    Scan::Error
                },
                Scan::Error => Scan::Error,
                Scan::Failure(e) => Scan::Failure(e),
            }
        } else {
            Scan::Error
        },
        None => Scan::Error,
    }
}

} // verus!
