//! Parser for FieldCalc's S-expression syntax, verified against the grammar
//! in [`super::grammar`].
use vstd::prelude::*;
use vstd::string::*;
use super::ast::{Expr, ExprModel, apply_to_all, lemma_vec_model, models};
use super::grammar::{
    advances,
    prefixed,
    spec_application,
    spec_bool,
    spec_color,
    spec_cons,
    spec_expr,
    spec_exprs,
    spec_field,
    spec_fold,
    spec_if,
    spec_keyword,
    spec_lambda,
    spec_let,
    spec_lex_ident,
    spec_lex_type,
    spec_lex_u64,
    spec_many,
    spec_nil,
    spec_open,
    spec_scalar,
    spec_sym,
    spec_var,
    spec_vector,
};
use super::lexer::{
    Fail,
    Scan,
    agrees,
    at_tag,
    has_tag,
    word_ends_at,
    chars_of,
    identifier_end,
    is_space,
    lemma_comment_bounds,
    lemma_ws_bounds,
    number_end,
    scan_type,
    scan_u64,
    spec_comment,
    spec_identifier,
    spec_number,
    spec_type,
    spec_u64,
    spec_ws,
    ws,
};
use super::types::{Type, TypeModel};

verus! {

/// A scanned position agrees with a spec position.
pub open spec fn same_pos(r: Option<usize>, o: Option<int>) -> bool {
    match (r, o) {
        (Some(a), Some(b)) => a == b,
        (None, None) => true,
        _ => false,
    }
}

/// A list of parsed expressions agrees with a scan of expression models.
pub open spec fn agrees_all(r: Result<(usize, Vec<Expr>), Fail>, sc: Scan<Seq<ExprModel>>) -> bool {
    match (r, sc) {
        (Ok((p, v)), Scan::Done(q, m)) => p == q && models(v@) == m,
        (Err(Fail::Error), Scan::Error) => true,
        (Err(Fail::Failure(p)), Scan::Failure(q)) => p == q,
        _ => false,
    }
}

/// A failure, if any, is at a position within the input.
pub open spec fn fails_within<T>(r: Result<T, Fail>, n: int) -> bool {
    r matches Err(Fail::Failure(f)) ==> f <= n
}

/// Whitespace is skipped once: after it, there is none left to skip.
pub proof fn lemma_ws_idempotent(s: Seq<char>, p: int)
    requires
        0 <= p <= s.len(),
    ensures
        spec_ws(s, spec_ws(s, p)) == spec_ws(s, p),
    decreases s.len() - p, 0int,
{
    if p < s.len() && is_space(s[p]) {
        lemma_ws_idempotent(s, p + 1);
    } else if p < s.len() && s[p] == ';' {
        lemma_comment_idempotent(s, p + 1);
    }
}

proof fn lemma_comment_idempotent(s: Seq<char>, p: int)
    requires
        0 <= p <= s.len(),
    ensures
        spec_ws(s, spec_comment(s, p)) == spec_comment(s, p),
    decreases s.len() - p, 1int,
{
    if p < s.len() && s[p] != '\n' {
        lemma_comment_idempotent(s, p + 1);
    } else if p < s.len() {
        lemma_ws_idempotent(s, p);
    }
}

proof fn lemma_prefixed_prefixed(a: Seq<ExprModel>, b: Seq<ExprModel>, r: Scan<Seq<ExprModel>>)
    ensures
        prefixed(a, prefixed(b, r)) == prefixed(a + b, r),
{
    if let Scan::Done(q, es) = r {
        assert(a + (b + es) =~= (a + b) + es);
    }
}

proof fn lemma_models_push(v: Seq<Expr>, e: Expr)
    ensures
        models(v.push(e)) =~= models(v) + seq![e@],
{
}

/// The text being parsed, with its characters.
struct Source<'a> {
    text: &'a str,
    chars: Vec<char>,
}

impl<'a> Source<'a> {
    spec fn s(&self) -> Seq<char> {
        self.chars@
    }

    spec fn wf(&self) -> bool {
        self.chars@ == self.text@
    }

    fn new(text: &'a str) -> (r: Source<'a>)
        ensures
            r.wf(),
            r.s() == text@,
    {
        Source { text, chars: chars_of(text) }
    }

    fn len(&self) -> (n: usize)
        ensures
            n == self.s().len(),
    {
        self.chars.len()
    }

    /// The text between two character positions.
    fn text_between(&self, a: usize, b: usize) -> (r: String)
        requires
            self.wf(),
            a <= b <= self.s().len(),
        ensures
            r@ == self.s().subrange(a as int, b as int),
    {
        String::from_str(self.text.substring_char(a, b))
    }

    fn skip_ws(&self, p: usize) -> (r: usize)
        requires
            p <= self.s().len(),
        ensures
            r == spec_ws(self.s(), p as int),
            p <= r <= self.s().len(),
    {
        proof {
            lemma_ws_bounds(self.s(), p as int);
        }
        ws(&self.chars, p)
    }

    fn sym(&self, p: usize, c: char) -> (r: Option<usize>)
        requires
            p <= self.s().len(),
        ensures
            same_pos(r, spec_sym(self.s(), p as int, c)),
            r matches Some(q) ==> advances(self.s(), p as int, q as int),
    {
        let q = self.skip_ws(p);
        if q < self.chars.len() && self.chars[q] == c {
            Some(self.skip_ws(q + 1))
        } else {
            None
        }
    }

    fn keyword(&self, p: usize, t: &str) -> (r: Option<usize>)
        requires
            p <= self.s().len(),
        ensures
            same_pos(r, spec_keyword(self.s(), p as int, t@)),
            r matches Some(q) ==> p <= q <= self.s().len(),
    {
        let q = self.skip_ws(p);
        if at_tag(&self.chars, q, t) {
            let n = t.unicode_len();
            if word_ends_at(&self.chars, q + n) {
                Some(self.skip_ws(q + n))
            } else {
                None
            }
        } else {
            None
        }
    }

    fn open(&self, p: usize, t: &str) -> (r: Option<usize>)
        requires
            p <= self.s().len(),
        ensures
            same_pos(r, spec_open(self.s(), p as int, t@)),
            r matches Some(q) ==> advances(self.s(), p as int, q as int),
    {
        match self.sym(p, '(') {
            Some(q) => self.keyword(q, t),
            None => None,
        }
    }

    fn lex_ident(&self, p: usize) -> (r: Option<(usize, String)>)
        requires
            self.wf(),
            p <= self.s().len(),
        ensures
            match (r, spec_lex_ident(self.s(), p as int)) {
                (Some((e, name)), Some((f, m))) => e == f && name@ == m,
                (None, None) => true,
                _ => false,
            },
            r matches Some((q, _)) ==> advances(self.s(), p as int, q as int),
    {
        let q = self.skip_ws(p);
        match identifier_end(&self.chars, q) {
            Some(e) => {
                proof {
                    let f = spec_identifier(self.s(), q as int);
                    assert(f matches Some((e2, _)) && e2 == e);
                    assert(q < e <= self.s().len()) by {
                        lemma_span_bounds_ident(self.s(), q as int);
                    }
                }
                let name = self.text_between(q, e);
                Some((self.skip_ws(e), name))
            },
            None => None,
        }
    }

    fn lex_type(&self, p: usize) -> (r: Option<(usize, Type)>)
        requires
            p <= self.s().len(),
        ensures
            match (r, spec_lex_type(self.s(), p as int)) {
                (Some((e, t)), Some((f, m))) => e == f && t@ == m,
                (None, None) => true,
                _ => false,
            },
            r matches Some((q, _)) ==> p <= q <= self.s().len(),
    {
        let q = self.skip_ws(p);
        match scan_type(&self.chars, q) {
            Some((e, t)) => {
                proof {
                    lemma_type_bounds(self.s(), q as int);
                }
                Some((self.skip_ws(e), t))
            },
            None => None,
        }
    }

    fn lex_u64(&self, p: usize) -> (r: Option<(usize, u64)>)
        requires
            p <= self.s().len(),
        ensures
            match (r, spec_lex_u64(self.s(), p as int)) {
                (Some((e, n)), Some((f, m))) => e == f && n == m,
                (None, None) => true,
                _ => false,
            },
            r matches Some((q, _)) ==> p <= q <= self.s().len(),
    {
        let q = self.skip_ws(p);
        match scan_u64(&self.chars, q) {
            Some((e, n)) => {
                proof {
                    lemma_u64_bounds(self.s(), q as int);
                }
                Some((self.skip_ws(e), n))
            },
            None => None,
        }
    }

    fn bool_expr(&self, p: usize) -> (r: Result<(usize, Expr), Fail>)
        requires
            p <= self.s().len(),
        ensures
            agrees(r, spec_bool(self.s(), p as int)),
            fails_within(r, self.s().len() as int),
            r matches Ok((q, _)) ==> advances(self.s(), p as int, q as int),
    {
        proof {
            reveal_strlit("true");
            reveal_strlit("false");
        }
        let q = self.skip_ws(p);
        if at_tag(&self.chars, q, "true") && word_ends_at(&self.chars, q + 4) {
            Ok((self.skip_ws(q + 4), Expr::Bool(true)))
        } else if at_tag(&self.chars, q, "false") && word_ends_at(&self.chars, q + 5) {
            Ok((self.skip_ws(q + 5), Expr::Bool(false)))
        } else {
            Err(Fail::Error)
        }
    }

    fn scalar_expr(&self, p: usize) -> (r: Result<(usize, Expr), Fail>)
        requires
            self.wf(),
            p <= self.s().len(),
        ensures
            agrees(r, spec_scalar(self.s(), p as int)),
            fails_within(r, self.s().len() as int),
            r matches Ok((q, _)) ==> advances(self.s(), p as int, q as int),
    {
        let q = self.skip_ws(p);
        match number_end(&self.chars, q) {
            Ok(e) => {
                proof {
                    lemma_number_bounds(self.s(), q as int);
                }
                let text = self.text_between(q, e);
                Ok((self.skip_ws(e), Expr::Scalar(text)))
            },
            Err(f) => Err(f),
        }
    }

    fn var_expr(&self, p: usize) -> (r: Result<(usize, Expr), Fail>)
        requires
            self.wf(),
            p <= self.s().len(),
        ensures
            agrees(r, spec_var(self.s(), p as int)),
            fails_within(r, self.s().len() as int),
            r matches Ok((q, _)) ==> advances(self.s(), p as int, q as int),
    {
        match self.lex_ident(p) {
            Some((e, name)) => Ok((e, Expr::Var(name))),
            None => Err(Fail::Error),
        }
    }

    fn nil_expr(&self, p: usize) -> (r: Result<(usize, Expr), Fail>)
        requires
            p <= self.s().len(),
        ensures
            agrees(r, spec_nil(self.s(), p as int)),
            fails_within(r, self.s().len() as int),
            r matches Ok((q, _)) ==> advances(self.s(), p as int, q as int),
    {
        match self.sym(p, '(') {
            Some(q) => match self.sym(q, ')') {
                Some(e) => Ok((e, Expr::Nil)),
                None => Err(Fail::Error),
            },
            None => Err(Fail::Error),
        }
    }
}

/// The first of a non-empty list of expressions, and the rest.
fn split_first(v: Vec<Expr>) -> (r: (Expr, Vec<Expr>))
    requires
        v@.len() > 0,
    ensures
        r.0@ == models(v@)[0],
        models(r.1@) == models(v@).drop_first(),
        r.1@.len() == v@.len() - 1,
{
    let mut rest = v;
    let first = rest.remove(0);
    assert(models(rest@) =~= models(v@).drop_first());
    (first, rest)
}

impl<'a> Source<'a> {
    /// `spec_expr`: any expression.
    fn expr(&self, p: usize) -> (r: Result<(usize, Expr), Fail>)
        requires
            self.wf(),
            p <= self.s().len(),
        ensures
            agrees(r, spec_expr(self.s(), p as int)),
            fails_within(r, self.s().len() as int),
            r matches Ok((q, _)) ==> advances(self.s(), p as int, q as int),
        decreases self.s().len() - p, 1int, 0int,
    {
        let r = self.bool_expr(p);
        if !matches!(r, Err(Fail::Error)) {
            return r;
        }
        let r = self.scalar_expr(p);
        if !matches!(r, Err(Fail::Error)) {
            return r;
        }
        let r = self.nil_expr(p);
        if !matches!(r, Err(Fail::Error)) {
            return r;
        }
        let r = self.vector_expr(p);
        if !matches!(r, Err(Fail::Error)) {
            return r;
        }
        let r = self.color_expr(p);
        if !matches!(r, Err(Fail::Error)) {
            return r;
        }
        let r = self.lambda_expr(p);
        if !matches!(r, Err(Fail::Error)) {
            return r;
        }
        let r = self.let_expr(p);
        if !matches!(r, Err(Fail::Error)) {
            return r;
        }
        let r = self.field_expr(p);
        if !matches!(r, Err(Fail::Error)) {
            return r;
        }
        let r = self.if_expr(p);
        if !matches!(r, Err(Fail::Error)) {
            return r;
        }
        let r = self.fold_expr(p);
        if !matches!(r, Err(Fail::Error)) {
            return r;
        }
        let r = self.cons_expr(p);
        if !matches!(r, Err(Fail::Error)) {
            return r;
        }
        let r = self.application_expr(p);
        if !matches!(r, Err(Fail::Error)) {
            return r;
        }
        self.var_expr(p)
    }

    /// `spec_exprs`: exactly `n` expressions.
    fn exprs(&self, p: usize, n: usize) -> (r: Result<(usize, Vec<Expr>), Fail>)
        requires
            self.wf(),
            p <= self.s().len(),
        ensures
            agrees_all(r, spec_exprs(self.s(), p as int, n as nat)),
            fails_within(r, self.s().len() as int),
            r matches Ok((q, v)) ==> p <= q <= self.s().len() && v@.len() == n,
        decreases self.s().len() - p, 2int, n as int,
    {
        let mut acc: Vec<Expr> = Vec::new();
        let mut i = p;
        let mut k: usize = 0;
        while k < n
            invariant
                self.wf(),
                p <= i <= self.s().len(),
                k <= n,
                acc@.len() == k,
                spec_exprs(self.s(), p as int, n as nat) == prefixed(
                    models(acc@),
                    spec_exprs(self.s(), i as int, (n - k) as nat),
                ),
            decreases n - k,
        {
            match self.expr(i) {
                Ok((q, e)) => {
                    proof {
                        lemma_prefixed_prefixed(
                            models(acc@),
                            seq![e@],
                            spec_exprs(self.s(), q as int, (n - k - 1) as nat),
                        );
                        lemma_models_push(acc@, e);
                    }
                    acc.push(e);
                    i = q;
                    k = k + 1;
                },
                Err(f) => {
                    return Err(f);
                },
            }
        }
        proof {
            assert(models(acc@) + Seq::<ExprModel>::empty() =~= models(acc@));
        }
        Ok((i, acc))
    }

    /// `spec_many`: as many expressions as there are.
    fn many(&self, p: usize) -> (r: Result<(usize, Vec<Expr>), Fail>)
        requires
            self.wf(),
            p <= self.s().len(),
        ensures
            agrees_all(r, spec_many(self.s(), p as int)),
            fails_within(r, self.s().len() as int),
            r matches Ok((q, v)) ==> p <= q <= self.s().len(),
        decreases self.s().len() - p, 2int, 0int,
    {
        let mut acc: Vec<Expr> = Vec::new();
        let mut i = p;
        loop
            invariant
                self.wf(),
                p <= i <= self.s().len(),
                spec_many(self.s(), p as int) == prefixed(models(acc@), spec_many(self.s(), i as int)),
            decreases self.s().len() - i,
        {
            match self.expr(i) {
                Ok((q, e)) => {
                    proof {
                        lemma_prefixed_prefixed(models(acc@), seq![e@], spec_many(self.s(), q as int));
                        lemma_models_push(acc@, e);
                    }
                    acc.push(e);
                    i = q;
                },
                Err(Fail::Error) => {
                    proof {
                        assert(models(acc@) + Seq::<ExprModel>::empty() =~= models(acc@));
                    }
                    return Ok((i, acc));
                },
                Err(Fail::Failure(f)) => {
                    return Err(Fail::Failure(f));
                },
            }
        }
    }

    /// `spec_vector`.
    fn vector_expr(&self, p: usize) -> (r: Result<(usize, Expr), Fail>)
        requires
            self.wf(),
            p <= self.s().len(),
        ensures
            agrees(r, spec_vector(self.s(), p as int)),
            fails_within(r, self.s().len() as int),
            r matches Ok((q, _)) ==> advances(self.s(), p as int, q as int),
        decreases self.s().len() - p, 0int, 0int,
    {
        match self.open(p, "vec") {
            Some(q) => match self.many(q) {
                Ok((r, items)) => match self.sym(r, ')') {
                    Some(e) => {
                        proof {
                            lemma_vec_model(items);
                        }
                        Ok((e, Expr::Vec(items)))
                    },
                    None => Err(Fail::Error),
                },
                Err(f) => Err(f),
            },
            None => Err(Fail::Error),
        }
    }

    /// `spec_color`.
    fn color_expr(&self, p: usize) -> (r: Result<(usize, Expr), Fail>)
        requires
            self.wf(),
            p <= self.s().len(),
        ensures
            agrees(r, spec_color(self.s(), p as int)),
            fails_within(r, self.s().len() as int),
            r matches Ok((q, _)) ==> advances(self.s(), p as int, q as int),
        decreases self.s().len() - p, 0int, 0int,
    {
        match self.open(p, "rgba") {
            Some(q) => match self.exprs(q, 4) {
                Ok((r, items)) => match self.sym(r, ')') {
                    Some(e) => {
                        let (red, items) = split_first(items);
                        let (green, items) = split_first(items);
                        let (blue, items) = split_first(items);
                        let (alpha, _) = split_first(items);
                        return Ok(
                            (
                                e,
                                Expr::Color {
                                    r: Box::new(red),
                                    g: Box::new(green),
                                    b: Box::new(blue),
                                    a: Box::new(alpha),
                                },
                            ),
                        );
                    },
                    None => {},
                },
                Err(Fail::Error) => {},
                Err(f) => {
                    return Err(f);
                },
            },
            None => {},
        }
        match self.open(p, "rgb") {
            Some(q) => match self.exprs(q, 3) {
                Ok((r, items)) => match self.sym(r, ')') {
                    Some(e) => {
                        let (red, items) = split_first(items);
                        let (green, items) = split_first(items);
                        let (blue, _) = split_first(items);
                        Ok(
                            (
                                e,
                                Expr::Color {
                                    r: Box::new(red),
                                    g: Box::new(green),
                                    b: Box::new(blue),
                                    a: Box::new(Expr::scalar("1.0")),
                                },
                            ),
                        )
                    },
                    None => Err(Fail::Error),
                },
                Err(f) => Err(f),
            },
            None => Err(Fail::Error),
        }
    }

    /// `spec_lambda`.
    fn lambda_expr(&self, p: usize) -> (r: Result<(usize, Expr), Fail>)
        requires
            self.wf(),
            p <= self.s().len(),
        ensures
            agrees(r, spec_lambda(self.s(), p as int)),
            fails_within(r, self.s().len() as int),
            r matches Ok((q, _)) ==> advances(self.s(), p as int, q as int),
        decreases self.s().len() - p, 0int, 0int,
    {
        let q = match self.open(p, "fn") {
            Some(q) => q,
            None => {
                return Err(Fail::Error);
            },
        };
        let q1 = match self.sym(q, '(') {
            Some(q1) => q1,
            None => {
                return Err(Fail::Error);
            },
        };
        let (q2, name) = match self.lex_ident(q1) {
            Some(x) => x,
            None => {
                return Err(Fail::Error);
            },
        };
        let (q3, ty) = match self.lex_type(q2) {
            Some(x) => x,
            None => {
                return Err(Fail::Error);
            },
        };
        let q4 = match self.sym(q3, ')') {
            Some(q4) => q4,
            None => {
                return Err(Fail::Error);
            },
        };
        match self.exprs(q4, 1) {
            Ok((r, items)) => match self.sym(r, ')') {
                Some(e) => {
                    let (body, _) = split_first(items);
                    Ok((e, Expr::Lambda { param: name, param_ty: ty, body: Box::new(body) }))
                },
                None => Err(Fail::Error),
            },
            Err(f) => Err(f),
        }
    }

    /// `spec_let`.
    fn let_expr(&self, p: usize) -> (r: Result<(usize, Expr), Fail>)
        requires
            self.wf(),
            p <= self.s().len(),
        ensures
            agrees(r, spec_let(self.s(), p as int)),
            fails_within(r, self.s().len() as int),
            r matches Ok((q, _)) ==> advances(self.s(), p as int, q as int),
        decreases self.s().len() - p, 0int, 0int,
    {
        let q = match self.open(p, "let") {
            Some(q) => q,
            None => {
                return Err(Fail::Error);
            },
        };
        let (q1, name) = match self.lex_ident(q) {
            Some(x) => x,
            None => {
                return Err(Fail::Error);
            },
        };
        match self.exprs(q1, 2) {
            Ok((r, items)) => match self.sym(r, ')') {
                Some(e) => {
                    let (value, items) = split_first(items);
                    let (body, _) = split_first(items);
                    Ok(
                        (
                            e,
                            Expr::Let {
                                var: name,
                                ty: Type::Scalar,
                                value: Box::new(value),
                                body: Box::new(body),
                            },
                        ),
                    )
                },
                None => Err(Fail::Error),
            },
            Err(f) => Err(f),
        }
    }

    /// `spec_field`.
    fn field_expr(&self, p: usize) -> (r: Result<(usize, Expr), Fail>)
        requires
            self.wf(),
            p <= self.s().len(),
        ensures
            agrees(r, spec_field(self.s(), p as int)),
            fails_within(r, self.s().len() as int),
            r matches Ok((q, _)) ==> advances(self.s(), p as int, q as int),
        decreases self.s().len() - p, 0int, 0int,
    {
        let q = match self.open(p, "field") {
            Some(q) => q,
            None => {
                return Err(Fail::Error);
            },
        };
        let q1 = match self.sym(q, '(') {
            Some(q1) => q1,
            None => {
                return Err(Fail::Error);
            },
        };
        let (q2, name) = match self.lex_ident(q1) {
            Some(x) => x,
            None => {
                return Err(Fail::Error);
            },
        };
        let (q3, dim) = match self.lex_u64(q2) {
            Some(x) => x,
            None => {
                return Err(Fail::Error);
            },
        };
        let q4 = match self.sym(q3, ')') {
            Some(q4) => q4,
            None => {
                return Err(Fail::Error);
            },
        };
        match self.exprs(q4, 1) {
            Ok((r, items)) => match self.sym(r, ')') {
                Some(e) => {
                    let (body, _) = split_first(items);
                    Ok(
                        (
                            e,
                            Expr::Field {
                                param: name,
                                dim: #[verifier::truncate] (dim as usize),
                                body: Box::new(body),
                            },
                        ),
                    )
                },
                None => Err(Fail::Error),
            },
            Err(f) => Err(f),
        }
    }

    /// `spec_if`.
    fn if_expr(&self, p: usize) -> (r: Result<(usize, Expr), Fail>)
        requires
            self.wf(),
            p <= self.s().len(),
        ensures
            agrees(r, spec_if(self.s(), p as int)),
            fails_within(r, self.s().len() as int),
            r matches Ok((q, _)) ==> advances(self.s(), p as int, q as int),
        decreases self.s().len() - p, 0int, 0int,
    {
        match self.open(p, "if") {
            Some(q) => match self.exprs(q, 3) {
                Ok((r, items)) => match self.sym(r, ')') {
                    Some(e) => {
                        let (c, items) = split_first(items);
                        let (t, items) = split_first(items);
                        let (f, _) = split_first(items);
                        Ok(
                            (
                                e,
                                Expr::If {
                                    cond: Box::new(c),
                                    then_branch: Box::new(t),
                                    else_branch: Box::new(f),
                                },
                            ),
                        )
                    },
                    None => Err(Fail::Error),
                },
                Err(f) => Err(f),
            },
            None => Err(Fail::Error),
        }
    }

    /// `spec_fold`.
    fn fold_expr(&self, p: usize) -> (r: Result<(usize, Expr), Fail>)
        requires
            self.wf(),
            p <= self.s().len(),
        ensures
            agrees(r, spec_fold(self.s(), p as int)),
            fails_within(r, self.s().len() as int),
            r matches Ok((q, _)) ==> advances(self.s(), p as int, q as int),
        decreases self.s().len() - p, 0int, 0int,
    {
        match self.open(p, "fold") {
            Some(q) => match self.exprs(q, 3) {
                Ok((r, items)) => match self.sym(r, ')') {
                    Some(e) => {
                        let (func, items) = split_first(items);
                        let (init, items) = split_first(items);
                        let (list, _) = split_first(items);
                        Ok(
                            (
                                e,
                                Expr::Fold {
                                    func: Box::new(func),
                                    init: Box::new(init),
                                    list: Box::new(list),
                                },
                            ),
                        )
                    },
                    None => Err(Fail::Error),
                },
                Err(f) => Err(f),
            },
            None => Err(Fail::Error),
        }
    }

    /// `spec_cons`.
    fn cons_expr(&self, p: usize) -> (r: Result<(usize, Expr), Fail>)
        requires
            self.wf(),
            p <= self.s().len(),
        ensures
            agrees(r, spec_cons(self.s(), p as int)),
            fails_within(r, self.s().len() as int),
            r matches Ok((q, _)) ==> advances(self.s(), p as int, q as int),
        decreases self.s().len() - p, 0int, 0int,
    {
        match self.open(p, "cons") {
            Some(q) => match self.exprs(q, 2) {
                Ok((r, items)) => match self.sym(r, ')') {
                    Some(e) => {
                        let (head, items) = split_first(items);
                        let (tail, _) = split_first(items);
                        Ok((e, Expr::Cons { head: Box::new(head), tail: Box::new(tail) }))
                    },
                    None => Err(Fail::Error),
                },
                Err(f) => Err(f),
            },
            None => Err(Fail::Error),
        }
    }

    /// `spec_application`.
    fn application_expr(&self, p: usize) -> (r: Result<(usize, Expr), Fail>)
        requires
            self.wf(),
            p <= self.s().len(),
        ensures
            agrees(r, spec_application(self.s(), p as int)),
            fails_within(r, self.s().len() as int),
            r matches Ok((q, _)) ==> advances(self.s(), p as int, q as int),
        decreases self.s().len() - p, 0int, 0int,
    {
        match self.sym(p, '(') {
            Some(q) => match self.expr(q) {
                Ok((q1, f)) => match self.many(q1) {
                    Ok((r, args)) => match self.sym(r, ')') {
                        Some(e) => Ok((e, apply_to_all(f, args))),
                        None => Err(Fail::Error),
                    },
                    Err(e) => Err(e),
                },
                Err(e) => Err(e),
            },
            None => Err(Fail::Error),
        }
    }
}

// ===== Public interface =====

/// The text that `format!("{:?}", s)` gives for a string slice `s`: the
/// characters in double quotes, with escapes.
pub uninterp spec fn debug_text(s: Seq<char>) -> Seq<char>;

/// Formats a string slice with `{:?}`; the result is named by [`debug_text`].
#[verifier::external_body]
fn debug_quoted(s: &str) -> (r: String)
    ensures
        r@ == debug_text(s@),
{
    format!("{:?}", s)
}

/// A parse error, with a message that says where and why parsing stopped.
#[derive(Debug, Clone, PartialEq)]
pub struct ParseError {
    pub message: String,
}

impl ParseError {
    /// The error as displayed: `Parse error: ` and the message.
    pub fn to_string(&self) -> (r: String)
        ensures
            r@ == "Parse error: "@ + self.message@,
    {
        let mut r = String::from_str("Parse error: ");
        r.append(self.message.as_str());
        r
    }
}

/// Why [`parse_expr`] produced no expression, by the input left where it stopped.
#[derive(Debug, Clone, Copy, PartialEq, Eq)]
pub enum ExprError<'a> {
    /// No alternative applies; the input from the first non-blank character.
    Error(&'a str),
    /// A number with an exponent marker but no exponent digits; the input
    /// from the start of that number.
    Failure(&'a str),
}

/// How a whole program reads: an expression that uses up the input, an
/// expression followed by more text (from this position), a text that is no
/// expression (from this position), or a failure at this position.
pub enum ProgramOutcome {
    Parsed(ExprModel),
    Remaining(int),
    Rejected(int),
    Failed(int),
}

/// A program is an expression between optional whitespace and comments.
pub open spec fn spec_program(s: Seq<char>) -> ProgramOutcome {
    let q = spec_ws(s, 0);
    match spec_expr(s, q) {
        Scan::Done(e, m) => if spec_ws(s, e) == s.len() {
            ProgramOutcome::Parsed(m)
        } else {
            ProgramOutcome::Remaining(spec_ws(s, e))
        },
        Scan::Error => ProgramOutcome::Rejected(q),
        Scan::Failure(f) => ProgramOutcome::Failed(f),
    }
}

proof fn lemma_sym_after(s: Seq<char>, p: int, c: char)
    requires
        0 <= p <= s.len(),
    ensures
        spec_sym(s, p, c) matches Some(q) ==> spec_ws(s, p) < q <= s.len(),
{
    lemma_ws_bounds(s, p);
    let q = spec_ws(s, p);
    if 0 <= q < s.len() && s[q] == c {
        lemma_ws_bounds(s, q + 1);
    }
}

proof fn lemma_open_after(s: Seq<char>, p: int, t: Seq<char>)
    requires
        0 <= p <= s.len(),
    ensures
        spec_open(s, p, t) matches Some(q) ==> spec_ws(s, p) < q <= s.len(),
{
    lemma_sym_after(s, p, '(');
    if let Some(r) = spec_sym(s, p, '(') {
        lemma_ws_bounds(s, r);
        let k = spec_ws(s, r);
        if has_tag(s, k, t) {
            lemma_ws_bounds(s, k + t.len());
        }
    }
}

proof fn lemma_lex_after(s: Seq<char>, p: int)
    requires
        0 <= p <= s.len(),
    ensures
        spec_lex_ident(s, p) matches Some((e, _)) ==> p <= e <= s.len(),
        spec_lex_type(s, p) matches Some((e, _)) ==> p <= e <= s.len(),
        spec_lex_u64(s, p) matches Some((e, _)) ==> p <= e <= s.len(),
{
    lemma_ws_bounds(s, p);
    let q = spec_ws(s, p);
    lemma_span_bounds_ident(s, q);
    lemma_type_bounds(s, q);
    lemma_u64_bounds(s, q);
    if let Some((e, _)) = spec_identifier(s, q) {
        lemma_ws_bounds(s, e);
    }
    if let Some((e, _)) = spec_type(s, q) {
        lemma_ws_bounds(s, e);
    }
    if let Some((e, _)) = spec_u64(s, q) {
        lemma_ws_bounds(s, e);
    }
}

proof fn lemma_lambda_after_ws(s: Seq<char>, p: int)
    requires
        0 <= p <= s.len(),
    ensures
        spec_lambda(s, p) == spec_lambda(s, spec_ws(s, p)),
{
    let w = spec_ws(s, p);
    lemma_ws_bounds(s, p);
    lemma_ws_idempotent(s, p);
    lemma_open_after(s, p, "fn"@);
    if let Some(q) = spec_open(s, p, "fn"@) {
        lemma_ws_bounds(s, q);
        lemma_sym_after(s, q, '(');
        if let Some(q1) = spec_sym(s, q, '(') {
            lemma_lex_after(s, q1);
            if let Some((q2, _)) = spec_lex_ident(s, q1) {
                lemma_lex_after(s, q2);
                if let Some((q3, _)) = spec_lex_type(s, q2) {
                    lemma_ws_bounds(s, q3);
                    lemma_sym_after(s, q3, ')');
                }
            }
        }
    }
}

proof fn lemma_field_after_ws(s: Seq<char>, p: int)
    requires
        0 <= p <= s.len(),
    ensures
        spec_field(s, p) == spec_field(s, spec_ws(s, p)),
{
    let w = spec_ws(s, p);
    lemma_ws_bounds(s, p);
    lemma_ws_idempotent(s, p);
    lemma_open_after(s, p, "field"@);
    if let Some(q) = spec_open(s, p, "field"@) {
        lemma_ws_bounds(s, q);
        lemma_sym_after(s, q, '(');
        if let Some(q1) = spec_sym(s, q, '(') {
            lemma_lex_after(s, q1);
            if let Some((q2, _)) = spec_lex_ident(s, q1) {
                lemma_lex_after(s, q2);
                if let Some((q3, _)) = spec_lex_u64(s, q2) {
                    lemma_ws_bounds(s, q3);
                    lemma_sym_after(s, q3, ')');
                }
            }
        }
    }
}

proof fn lemma_let_after_ws(s: Seq<char>, p: int)
    requires
        0 <= p <= s.len(),
    ensures
        spec_let(s, p) == spec_let(s, spec_ws(s, p)),
{
    lemma_ws_bounds(s, p);
    lemma_ws_idempotent(s, p);
    lemma_open_after(s, p, "let"@);
    if let Some(q) = spec_open(s, p, "let"@) {
        lemma_lex_after(s, q);
    }
}

proof fn lemma_simple_forms_after_ws(s: Seq<char>, p: int)
    requires
        0 <= p <= s.len(),
    ensures
        spec_vector(s, p) == spec_vector(s, spec_ws(s, p)),
        spec_color(s, p) == spec_color(s, spec_ws(s, p)),
        spec_if(s, p) == spec_if(s, spec_ws(s, p)),
        spec_fold(s, p) == spec_fold(s, spec_ws(s, p)),
        spec_cons(s, p) == spec_cons(s, spec_ws(s, p)),
        spec_application(s, p) == spec_application(s, spec_ws(s, p)),
{
    lemma_ws_bounds(s, p);
    lemma_ws_idempotent(s, p);
    lemma_sym_after(s, p, '(');
    lemma_open_after(s, p, "vec"@);
    lemma_open_after(s, p, "rgba"@);
    lemma_open_after(s, p, "rgb"@);
    lemma_open_after(s, p, "if"@);
    lemma_open_after(s, p, "fold"@);
    lemma_open_after(s, p, "cons"@);
}

/// Whitespace and comments before an expression are ignored: it reads the
/// same from a position as from the end of the whitespace and comments there.
pub proof fn lemma_expr_after_ws(s: Seq<char>, p: int)
    requires
        0 <= p <= s.len(),
    ensures
        spec_expr(s, p) == spec_expr(s, spec_ws(s, p)),
{
    let w = spec_ws(s, p);
    lemma_ws_bounds(s, p);
    lemma_ws_idempotent(s, p);
    lemma_lambda_after_ws(s, p);
    lemma_field_after_ws(s, p);
    lemma_let_after_ws(s, p);
    lemma_simple_forms_after_ws(s, p);
    assert(spec_bool(s, p) == spec_bool(s, w));
    assert(spec_scalar(s, p) == spec_scalar(s, w));
    assert(spec_nil(s, p) == spec_nil(s, w));
    assert(spec_var(s, p) == spec_var(s, w));
}

/// A program is one expression followed by nothing but whitespace and
/// comments: [`parse_program`] succeeds exactly where [`parse_expr`] does and
/// leaves only whitespace and comments, with the same expression; otherwise
/// it reports what follows the expression, or where the expression failed.
pub proof fn lemma_program_is_one_expression(s: Seq<char>)
    ensures
        match spec_expr(s, 0) {
            Scan::Done(q, m) => spec_program(s) == if spec_ws(s, q) == s.len() {
                ProgramOutcome::Parsed(m)
            } else {
                ProgramOutcome::Remaining(spec_ws(s, q))
            },
            Scan::Error => spec_program(s) == ProgramOutcome::Rejected(spec_ws(s, 0)),
            Scan::Failure(f) => spec_program(s) == ProgramOutcome::Failed(f),
        },
{
    lemma_expr_after_ws(s, 0);
}

/// Parse one expression at the start of `input`, returning the rest.
pub fn parse_expr<'a>(input: &'a str) -> (r: Result<(&'a str, Expr), ExprError<'a>>)
    ensures
        match spec_expr(input@, 0) {
            Scan::Done(q, m) => r matches Ok((rest, e)) && e@ == m && rest@ == input@.subrange(
                q,
                input@.len() as int,
            ),
            Scan::Error => r matches Err(ExprError::Error(rest)) && rest@ == input@.subrange(
                spec_ws(input@, 0),
                input@.len() as int,
            ),
            Scan::Failure(f) => r matches Err(ExprError::Failure(rest)) && rest@ == input@.subrange(
                f,
                input@.len() as int,
            ),
        },
{
    let src = Source::new(input);
    let n = src.len();
    match src.expr(0) {
        Ok((q, e)) => Ok((input.substring_char(q, n), e)),
        Err(Fail::Error) => {
            let q = src.skip_ws(0);
            Err(ExprError::Error(input.substring_char(q, n)))
        },
        Err(Fail::Failure(f)) => {
            Err(ExprError::Failure(input.substring_char(f, n)))
        },
    }
}

/// Parse a complete program: one expression, with whitespace and comments
/// around it and nothing else.
pub fn parse_program(input: &str) -> (r: Result<Expr, ParseError>)
    ensures
        match spec_program(input@) {
            ProgramOutcome::Parsed(m) => r matches Ok(e) && e@ == m,
            ProgramOutcome::Remaining(t) => r matches Err(pe) && pe.message@
                == "Unexpected input remaining: "@ + input@.subrange(t, input@.len() as int),
            ProgramOutcome::Rejected(q) => r matches Err(pe) && pe.message@ == "Parse error: Error(Error { input: "@
                + debug_text(input@.subrange(q, input@.len() as int)) + ", code: TakeWhile1 })"@,
            ProgramOutcome::Failed(f) => r matches Err(pe) && pe.message@ == "Parse error: Failure(Error { input: "@
                + debug_text(input@.subrange(f, input@.len() as int)) + ", code: Float })"@,
        },
{
    let src = Source::new(input);
    let n = src.len();
    let q = src.skip_ws(0);
    match src.expr(q) {
        Ok((e, expr)) => {
            let t = src.skip_ws(e);
            if t == n {
                Ok(expr)
            } else {
                let mut message = String::from_str("Unexpected input remaining: ");
                message.append(input.substring_char(t, n));
                Err(ParseError { message })
            }
        },
        Err(Fail::Error) => {
            let mut message = String::from_str("Parse error: Error(Error { input: ");
            let rest = debug_quoted(input.substring_char(q, n));
            message.append(rest.as_str());
            message.append(", code: TakeWhile1 })");
            Err(ParseError { message })
        },
        Err(Fail::Failure(f)) => {
            let mut message = String::from_str("Parse error: Failure(Error { input: ");
            let rest = debug_quoted(input.substring_char(f, n));
            message.append(rest.as_str());
            message.append(", code: Float })");
            Err(ParseError { message })
        },
    }
}

proof fn lemma_span_bounds_ident(s: Seq<char>, p: int)
    requires
        0 <= p <= s.len(),
    ensures
        spec_identifier(s, p) matches Some((e, _)) ==> p < e <= s.len(),
{
    reveal_strlit("==");
    if 0 <= p < s.len() {
        super::lexer::lemma_span_bounds(s, p + 1, |c: char| super::lexer::is_ident_rest(c));
    }
}

proof fn lemma_type_bounds(s: Seq<char>, p: int)
    requires
        0 <= p <= s.len(),
    ensures
        spec_type(s, p) matches Some((e, _)) ==> p <= e <= s.len(),
{
    reveal_strlit("Scalar");
    reveal_strlit("Color");
    reveal_strlit("Bool");
    reveal_strlit("Vec");
    if p + 3 <= s.len() {
        super::lexer::lemma_span_bounds(s, p + 3, |c: char| is_space(c));
        let m = super::lexer::spec_spaces_end(s, p + 3);
        lemma_u64_bounds(s, m);
    }
}

proof fn lemma_u64_bounds(s: Seq<char>, p: int)
    requires
        0 <= p <= s.len(),
    ensures
        spec_u64(s, p) matches Some((e, _)) ==> p < e <= s.len(),
{
    super::lexer::lemma_span_bounds(s, p, |c: char| super::lexer::is_digit(c));
}

proof fn lemma_number_bounds(s: Seq<char>, p: int)
    requires
        0 <= p <= s.len(),
    ensures
        spec_number(s, p) matches Scan::Done(e, _) ==> p < e <= s.len(),
{
    let q = if p < s.len() && super::lexer::is_sign(s[p]) {
        p + 1
    } else {
        p
    };
    super::lexer::lemma_span_bounds(s, q, |c: char| super::lexer::is_digit(c));
    let d = super::lexer::spec_digits_end(s, q);
    if d < s.len() {
        super::lexer::lemma_span_bounds(s, d + 1, |c: char| super::lexer::is_digit(c));
    }
    if q < s.len() {
        super::lexer::lemma_span_bounds(s, q + 1, |c: char| super::lexer::is_digit(c));
    }
    if let Some(m) = super::lexer::spec_mantissa_end(s, q) {
        if 0 <= m < s.len() {
            super::lexer::lemma_span_bounds(s, m + 1, |c: char| super::lexer::is_digit(c));
            if m + 2 <= s.len() {
                super::lexer::lemma_span_bounds(s, m + 2, |c: char| super::lexer::is_digit(c));
            }
        }
    }
}

} // verus!
