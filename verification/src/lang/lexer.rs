//! Lexical layer of the FieldCalc surface syntax: whitespace and comments,
//! identifiers, number literals, unsigned integers and type names.
//!
//! Every scanner works on the input as a sequence of characters and a
//! character position, and is specified by a spec function of the same name
//! prefixed with `spec_`.
use vstd::prelude::*;
use vstd::string::*;
use super::types::{Type, TypeModel, type_text};

verus! {

// ===== Character classes =====

/// Whether `c` has the Unicode `Alphabetic` property (as `char::is_alphabetic`).
pub uninterp spec fn char_is_alphabetic(c: char) -> bool;

/// Whether `c` is alphabetic or numeric in Unicode (as `char::is_alphanumeric`).
pub uninterp spec fn char_is_alphanumeric(c: char) -> bool;

/// Calls `char::is_alphabetic`; its result is named by [`char_is_alphabetic`].
#[verifier::external_body]
fn is_alphabetic(c: char) -> (r: bool)
    ensures
        r == char_is_alphabetic(c),
{
    c.is_alphabetic()
}

/// Calls `char::is_alphanumeric`; its result is named by [`char_is_alphanumeric`].
#[verifier::external_body]
fn is_alphanumeric(c: char) -> (r: bool)
    ensures
        r == char_is_alphanumeric(c),
{
    c.is_alphanumeric()
}

/// Whitespace characters: space, tab, carriage return, line feed.
pub open spec fn is_space(c: char) -> bool {
    c == ' ' || c == '\t' || c == '\r' || c == '\n'
}

pub open spec fn is_digit(c: char) -> bool {
    '0' <= c <= '9'
}

/// One-character operator names.
pub open spec fn is_operator(c: char) -> bool {
    c == '+' || c == '-' || c == '*' || c == '/' || c == '<' || c == '>'
}

pub open spec fn is_ident_start(c: char) -> bool {
    char_is_alphabetic(c) || c == '_'
}

pub open spec fn is_ident_rest(c: char) -> bool {
    char_is_alphanumeric(c) || c == '_' || c == '-'
}

/// A word ends at `e`: no character there could continue an identifier.
pub open spec fn ends_word(s: Seq<char>, e: int) -> bool {
    !(0 <= e < s.len() && is_ident_rest(s[e]))
}

/// [`ends_word`].
pub fn word_ends_at(s: &Vec<char>, e: usize) -> (r: bool)
    ensures
        r == ends_word(s@, e as int),
{
    if e < s.len() {
        let c = s[e];
        !(is_alphanumeric(c) || c == '_' || c == '-')
    } else {
        true
    }
}

// ===== Whitespace and comments =====

/// End of the run of whitespace and `;` comments that starts at `p`.
/// A comment runs from `;` up to (not including) the next line feed.
pub open spec fn spec_ws(s: Seq<char>, p: int) -> int
    decreases s.len() - p, 0int,
{
    if 0 <= p < s.len() && is_space(s[p]) {
        spec_ws(s, p + 1)
    } else if 0 <= p < s.len() && s[p] == ';' {
        spec_comment(s, p + 1)
    } else {
        p
    }
}

/// Inside a comment at `p`: skip to the line feed, then continue with whitespace.
pub open spec fn spec_comment(s: Seq<char>, p: int) -> int
    decreases s.len() - p, 1int,
{
    if 0 <= p < s.len() && s[p] != '\n' {
        spec_comment(s, p + 1)
    } else if 0 <= p < s.len() {
        spec_ws(s, p)
    } else {
        p
    }
}

/// End of the run of characters satisfying `f` that starts at `p`.
pub open spec fn spec_span(s: Seq<char>, p: int, f: spec_fn(char) -> bool) -> int
    decreases s.len() - p,
{
    if 0 <= p < s.len() && f(s[p]) {
        spec_span(s, p + 1, f)
    } else {
        p
    }
}

pub open spec fn spec_digits_end(s: Seq<char>, p: int) -> int {
    spec_span(s, p, |c: char| is_digit(c))
}

pub open spec fn spec_spaces_end(s: Seq<char>, p: int) -> int {
    spec_span(s, p, |c: char| is_space(c))
}

/// Whether the text `t` occurs at `p`.
pub open spec fn has_tag(s: Seq<char>, p: int, t: Seq<char>) -> bool {
    0 <= p && p + t.len() <= s.len() && s.subrange(p, p + t.len()) =~= t
}

// ===== Scan results =====

/// The outcome of a scanner: success with the position after it and a value,
/// a recoverable rejection (another alternative may be tried), or an
/// unrecoverable failure at a position, which ends the whole parse.
pub enum Scan<T> {
    Done(int, T),
    Error,
    Failure(int),
}

/// Executable outcome of a scanner that did not succeed.
#[derive(Debug, Clone, Copy, PartialEq, Eq)]
pub enum Fail {
    /// Recoverable: the alternative does not apply here.
    Error,
    /// Unrecoverable, at this character position.
    Failure(usize),
}

/// The executable result `r` is the scan outcome `sc` (values by their view).
pub open spec fn agrees<T: View>(r: Result<(usize, T), Fail>, sc: Scan<T::V>) -> bool {
    match (r, sc) {
        (Ok((p, v)), Scan::Done(q, w)) => p == q && v@ == w,
        (Err(Fail::Error), Scan::Error) => true,
        (Err(Fail::Failure(p)), Scan::Failure(q)) => p == q,
        _ => false,
    }
}

// ===== Numbers =====

pub open spec fn is_sign(c: char) -> bool {
    c == '+' || c == '-'
}

/// End of the mantissa `digits ['.' [digits]] | '.' digits` at `p`, if there is one.
pub open spec fn spec_mantissa_end(s: Seq<char>, p: int) -> Option<int> {
    let d = spec_digits_end(s, p);
    if d > p {
        if d < s.len() && s[d] == '.' {
            Some(spec_digits_end(s, d + 1))
        } else {
            Some(d)
        }
    } else if 0 <= p < s.len() && s[p] == '.' && spec_digits_end(s, p + 1) > p + 1 {
        Some(spec_digits_end(s, p + 1))
    } else {
        None
    }
}

/// Decimal floating point text at `p`: `[sign] mantissa [(e|E) [sign] digits]`.
/// An exponent marker that is not followed by digits is an unrecoverable
/// failure at `p`.
pub open spec fn spec_float_end(s: Seq<char>, p: int) -> Scan<()> {
    let q = if 0 <= p < s.len() && is_sign(s[p]) {
        p + 1
    } else {
        p
    };
    match spec_mantissa_end(s, q) {
        None => Scan::Error,
        Some(m) => if 0 <= m < s.len() && (s[m] == 'e' || s[m] == 'E') {
            let x = if m + 1 < s.len() && is_sign(s[m + 1]) {
                m + 2
            } else {
                m + 1
            };
            let d = spec_digits_end(s, x);
            if d > x {
                Scan::Done(d, ())
            } else {
                Scan::Failure(p)
            }
        } else {
            Scan::Done(m, ())
        },
    }
}

/// `nan` in any letter case at `p`.
pub open spec fn nan_at(s: Seq<char>, p: int) -> bool {
    0 <= p && p + 3 <= s.len() && (s[p] == 'n' || s[p] == 'N') && (s[p + 1] == 'a' || s[p + 1]
        == 'A') && (s[p + 2] == 'n' || s[p + 2] == 'N')
}

/// `inf` in any letter case at `p`.
pub open spec fn inf_at(s: Seq<char>, p: int) -> bool {
    0 <= p && p + 3 <= s.len() && (s[p] == 'i' || s[p] == 'I') && (s[p + 1] == 'n' || s[p + 1]
        == 'N') && (s[p + 2] == 'f' || s[p + 2] == 'F')
}

/// A number literal at `p`, as its text: a decimal float, or else `nan` or
/// `inf` in any letter case (`infinity` is read as `inf` followed by `inity`).
pub open spec fn spec_number(s: Seq<char>, p: int) -> Scan<Seq<char>> {
    match spec_float_end(s, p) {
        Scan::Done(e, _) => Scan::Done(e, s.subrange(p, e)),
        Scan::Failure(f) => Scan::Failure(f),
        Scan::Error => if nan_at(s, p) || inf_at(s, p) {
            Scan::Done(p + 3, s.subrange(p, p + 3))
        } else {
            Scan::Error
        },
    }
}

/// Decimal value of a digit sequence.
pub open spec fn decimal_value(d: Seq<char>) -> nat
    decreases d.len(),
{
    if d.len() == 0 {
        0
    } else {
        decimal_value(d.drop_last()) * 10 + (d.last() as nat - '0' as nat) as nat
    }
}

/// An unsigned 64-bit decimal integer at `p`: the maximal run of digits,
/// rejected if it is empty or its value exceeds `u64::MAX`.
pub open spec fn spec_u64(s: Seq<char>, p: int) -> Option<(int, u64)> {
    let d = spec_digits_end(s, p);
    if d > p && decimal_value(s.subrange(p, d)) <= u64::MAX {
        Some((d, decimal_value(s.subrange(p, d)) as u64))
    } else {
        None
    }
}

// ===== Identifiers and types =====

/// The words reserved for the forms and literals of the language: no name
/// may be one of them.
pub open spec fn is_reserved(w: Seq<char>) -> bool {
    ||| w == "fn"@
    ||| w == "let"@
    ||| w == "field"@
    ||| w == "if"@
    ||| w == "fold"@
    ||| w == "cons"@
    ||| w == "vec"@
    ||| w == "rgb"@
    ||| w == "rgba"@
    ||| w == "true"@
    ||| w == "false"@
}

/// An identifier at `p`: `==`, a one-character operator, or a letter or `_`
/// followed by letters, digits, `_` and `-`, which is not a reserved word.
pub open spec fn spec_identifier(s: Seq<char>, p: int) -> Option<(int, Seq<char>)> {
    if has_tag(s, p, "=="@) {
        Some((p + 2, s.subrange(p, p + 2)))
    } else if 0 <= p < s.len() && is_operator(s[p]) {
        Some((p + 1, s.subrange(p, p + 1)))
    } else if 0 <= p < s.len() && is_ident_start(s[p]) {
        let e = spec_span(s, p + 1, |c: char| is_ident_rest(c));
        if is_reserved(s.subrange(p, e)) {
            None
        } else {
            Some((e, s.subrange(p, e)))
        }
    } else {
        None
    }
}

/// A type name at `p`: `Scalar`, `Color`, `Bool`, or `Vec` followed by
/// whitespace and a dimension.
pub open spec fn spec_type(s: Seq<char>, p: int) -> Option<(int, TypeModel)> {
    if has_tag(s, p, "Scalar"@) {
        Some((p + 6, TypeModel::Scalar))
    } else if has_tag(s, p, "Color"@) {
        Some((p + 5, TypeModel::Color))
    } else if has_tag(s, p, "Bool"@) {
        Some((p + 4, TypeModel::Bool))
    } else if has_tag(s, p, "Vec"@) && spec_spaces_end(s, p + 3) > p + 3 {
        match spec_u64(s, spec_spaces_end(s, p + 3)) {
            Some((e, n)) => Some((e, TypeModel::Vec(n as usize))),
            None => None,
        }
    } else {
        None
    }
}

/// A type name reads as the type it names: where `Scalar`, `Color` or `Bool`
/// is read, the text read is how the resulting type is displayed, and each
/// of those words at `p` reads as its type; `Vec` followed by blanks and
/// digits reads as the vector type of the dimension the digits write.
pub proof fn lemma_type_names(s: Seq<char>, p: int)
    requires
        0 <= p <= s.len(),
    ensures
        spec_type(s, p) matches Some((e, t)) ==> (if t is Vec {
            &&& has_tag(s, p, "Vec"@)
            &&& p + 3 <= spec_spaces_end(s, p + 3) <= e
            &&& decimal_value(s.subrange(spec_spaces_end(s, p + 3), e)) <= usize::MAX
                ==> t->Vec_0 == decimal_value(s.subrange(spec_spaces_end(s, p + 3), e))
        } else {
            s.subrange(p, e) == type_text(t)
        }),
        has_tag(s, p, "Scalar"@) ==> spec_type(s, p) == Some((p + 6, TypeModel::Scalar)),
        has_tag(s, p, "Color"@) ==> spec_type(s, p) == Some((p + 5, TypeModel::Color)),
        has_tag(s, p, "Bool"@) ==> spec_type(s, p) == Some((p + 4, TypeModel::Bool)),
{
    reveal_strlit("Scalar");
    reveal_strlit("Color");
    reveal_strlit("Bool");
    reveal_strlit("Vec");
    lemma_tag_first(s, p, "Scalar"@);
    lemma_tag_first(s, p, "Color"@);
    lemma_tag_first(s, p, "Bool"@);
}

proof fn lemma_tag_first(s: Seq<char>, p: int, t: Seq<char>)
    requires
        t.len() > 0,
    ensures
        has_tag(s, p, t) ==> s[p] == t[0],
{
    if has_tag(s, p, t) {
        assert(s.subrange(p, p + t.len())[0] == t[0]);
    }
}

// ===== Lemmas =====

pub proof fn lemma_span_bounds(s: Seq<char>, p: int, f: spec_fn(char) -> bool)
    requires
        0 <= p <= s.len(),
    ensures
        p <= spec_span(s, p, f) <= s.len(),
        forall|i: int| p <= i < spec_span(s, p, f) ==> f(#[trigger] s[i]),
        spec_span(s, p, f) < s.len() ==> !f(s[spec_span(s, p, f)]),
    decreases s.len() - p,
{
    if p < s.len() && f(s[p]) {
        lemma_span_bounds(s, p + 1, f);
    }
}

pub proof fn lemma_ws_bounds(s: Seq<char>, p: int)
    requires
        0 <= p <= s.len(),
    ensures
        p <= spec_ws(s, p) <= s.len(),
    decreases s.len() - p, 0int,
{
    if p < s.len() && is_space(s[p]) {
        lemma_ws_bounds(s, p + 1);
    } else if p < s.len() && s[p] == ';' {
        lemma_comment_bounds(s, p + 1);
    }
}

pub proof fn lemma_comment_bounds(s: Seq<char>, p: int)
    requires
        0 <= p <= s.len(),
    ensures
        p <= spec_comment(s, p) <= s.len(),
    decreases s.len() - p, 1int,
{
    if p < s.len() && s[p] != '\n' {
        lemma_comment_bounds(s, p + 1);
    } else if p < s.len() {
        lemma_ws_bounds(s, p);
    }
}

proof fn lemma_decimal_prefix_monotone(d: Seq<char>, i: int)
    requires
        0 <= i <= d.len(),
        forall|k: int| 0 <= k < d.len() ==> is_digit(#[trigger] d[k]),
    ensures
        decimal_value(d.subrange(0, i)) <= decimal_value(d),
    decreases d.len() - i,
{
    if i < d.len() {
        lemma_decimal_prefix_monotone(d, i + 1);
        let a = d.subrange(0, i + 1);
        assert(a.drop_last() =~= d.subrange(0, i));
        assert(is_digit(a.last()));
    } else {
        assert(d.subrange(0, i) =~= d);
    }
}

// ===== Executable scanners =====

/// `spec_ws`: skip whitespace and comments.
pub fn ws(s: &Vec<char>, p: usize) -> (r: usize)
    requires
        p <= s@.len(),
    ensures
        r == spec_ws(s@, p as int),
{
    let mut i = p;
    while i < s.len()
        invariant
            p <= i <= s@.len(),
            spec_ws(s@, i as int) == spec_ws(s@, p as int),
        decreases s@.len() - i,
    {
        let c = s[i];
        if c == ' ' || c == '\t' || c == '\r' || c == '\n' {
            i = i + 1;
        } else if c == ';' {
            let mut j = i + 1;
            while j < s.len() && s[j] != '\n'
                invariant
                    i < j <= s@.len(),
                    spec_comment(s@, j as int) == spec_ws(s@, p as int),
                decreases s@.len() - j,
            {
                j = j + 1;
            }
            i = j;
            if i == s.len() {
                return i;
            }
        } else {
            return i;
        }
    }
    i
}

/// `spec_digits_end`.
fn digits_end(s: &Vec<char>, p: usize) -> (r: usize)
    requires
        p <= s@.len(),
    ensures
        r == spec_digits_end(s@, p as int),
{
    let mut i = p;
    while i < s.len() && '0' <= s[i] && s[i] <= '9'
        invariant
            p <= i <= s@.len(),
            spec_digits_end(s@, i as int) == spec_digits_end(s@, p as int),
        decreases s@.len() - i,
    {
        i = i + 1;
    }
    i
}

/// `spec_spaces_end`.
fn spaces_end(s: &Vec<char>, p: usize) -> (r: usize)
    requires
        p <= s@.len(),
    ensures
        r == spec_spaces_end(s@, p as int),
{
    let mut i = p;
    while i < s.len() && (s[i] == ' ' || s[i] == '\t' || s[i] == '\r' || s[i] == '\n')
        invariant
            p <= i <= s@.len(),
            spec_spaces_end(s@, i as int) == spec_spaces_end(s@, p as int),
        decreases s@.len() - i,
    {
        i = i + 1;
    }
    i
}

/// `has_tag`.
pub fn at_tag(s: &Vec<char>, p: usize, t: &str) -> (r: bool)
    requires
        p <= s@.len(),
    ensures
        r == has_tag(s@, p as int, t@),
        r ==> p + t@.len() <= s.len(),
{
    let n = t.unicode_len();
    if n > s.len() - p {
        return false;
    }
    let mut k: usize = 0;
    while k < n
        invariant
            n == t@.len(),
            s.len() == s@.len(),
            p + n <= s@.len(),
            k <= n,
            forall|j: int| 0 <= j < k ==> s@[p + j] == t@[j],
        decreases n - k,
    {
        if s[p + k] != t.get_char(k) {
            assert(s@.subrange(p as int, p + n)[k as int] != t@[k as int]);
            return false;
        }
        k = k + 1;
    }
    assert(s@.subrange(p as int, p + n) =~= t@);
    true
}

/// `spec_number`: the end of a number literal at `p`.
pub fn number_end(s: &Vec<char>, p: usize) -> (r: Result<usize, Fail>)
    requires
        p <= s@.len(),
    ensures
        match (r, spec_number(s@, p as int)) {
            (Ok(e), Scan::Done(q, t)) => e == q && t == s@.subrange(p as int, q),
            (Err(Fail::Error), Scan::Error) => true,
            (Err(Fail::Failure(f)), Scan::Failure(g)) => f == g,
            _ => false,
        },
{
    let q = if p < s.len() && (s[p] == '+' || s[p] == '-') {
        p + 1
    } else {
        p
    };
    let d = digits_end(s, q);
    let mantissa: Option<usize> = if d > q {
        if d < s.len() && s[d] == '.' {
            Some(digits_end(s, d + 1))
        } else {
            Some(d)
        }
    } else if q < s.len() && s[q] == '.' {
        let e = digits_end(s, q + 1);
        if e > q + 1 {
            Some(e)
        } else {
            None
        }
    } else {
        None
    };
    proof {
        lemma_span_bounds(s@, q as int, |c: char| is_digit(c));
        if d < s@.len() {
            lemma_span_bounds(s@, d + 1, |c: char| is_digit(c));
        }
        if q < s@.len() {
            lemma_span_bounds(s@, q + 1, |c: char| is_digit(c));
        }
        assert(match (mantissa, spec_mantissa_end(s@, q as int)) {
            (Some(a), Some(b)) => a == b,
            (None, None) => true,
            _ => false,
        });
    }
    match mantissa {
        Some(m) => {
            if m < s.len() && (s[m] == 'e' || s[m] == 'E') {
                let x = if m + 1 < s.len() && (s[m + 1] == '+' || s[m + 1] == '-') {
                    m + 2
                } else {
                    m + 1
                };
                let e = digits_end(s, x);
                if e > x {
                    Ok(e)
                } else {
                    Err(Fail::Failure(p))
                }
            } else {
                Ok(m)
            }
        },
        None => {
            if p < s.len() && s.len() - p >= 3 && (s[p] == 'n' || s[p] == 'N') && (s[p + 1] == 'a' || s[p + 1]
                == 'A') && (s[p + 2] == 'n' || s[p + 2] == 'N') {
                Ok(p + 3)
            } else if p < s.len() && s.len() - p >= 3 && (s[p] == 'i' || s[p] == 'I') && (s[p + 1] == 'n'
                || s[p + 1] == 'N') && (s[p + 2] == 'f' || s[p + 2] == 'F') {
                Ok(p + 3)
            } else {
                Err(Fail::Error)
            }
        },
    }
}

/// `spec_u64`.
pub fn scan_u64(s: &Vec<char>, p: usize) -> (r: Option<(usize, u64)>)
    requires
        p <= s@.len(),
    ensures
        match (r, spec_u64(s@, p as int)) {
            (Some((e, v)), Some((f, w))) => e == f && v == w,
            (None, None) => true,
            _ => false,
        },
{
    let d = digits_end(s, p);
    proof {
        lemma_span_bounds(s@, p as int, |c: char| is_digit(c));
    }
    if d == p {
        return None;
    }
    let ghost full = s@.subrange(p as int, d as int);
    let mut value: u64 = 0;
    let mut i = p;
    while i < d
        invariant
            p <= i <= d <= s@.len(),
            d == spec_digits_end(s@, p as int),
            full == s@.subrange(p as int, d as int),
            forall|k: int| 0 <= k < full.len() ==> is_digit(#[trigger] full[k]),
            value == decimal_value(full.subrange(0, i - p)),
        decreases d - i,
    {
        let c = s[i];
        proof {
            assert(is_digit(full[i - p]));
            assert(full[i - p] == c);
        }
        let digit: u64 = (c as u64) - ('0' as u64);
        proof {
            let a = full.subrange(0, i + 1 - p);
            assert(a.drop_last() =~= full.subrange(0, i - p));
            assert(a.last() == s@[i as int]);
            assert(decimal_value(a) == value * 10 + digit);
        }
        match value.checked_mul(10) {
            Some(v10) => match v10.checked_add(digit) {
                Some(v) => {
                    value = v;
                },
                None => {
                    proof {
                        lemma_decimal_prefix_monotone(full, i + 1 - p);
                    }
                    return None;
                },
            },
            None => {
                proof {
                    lemma_decimal_prefix_monotone(full, i + 1 - p);
                }
                return None;
            },
        }
        i = i + 1;
    }
    assert(full.subrange(0, d - p) =~= full);
    Some((d, value))
}

/// The characters of `text`.
pub fn chars_of(text: &str) -> (v: Vec<char>)
    ensures
        v@ == text@,
{
    let mut v: Vec<char> = Vec::new();
    for c in it: text.chars()
        invariant
            it.seq() == text@,
            v@ == it.seq().take(it.index() as int),
    {
        v.push(c);
        proof {
            assert(it.seq().take(it.index() + 1) =~= it.seq().take(it.index() as int).push(c));
        }
    }
    assert(v@ =~= text@);
    v
}

/// `spec_identifier`: the end of an identifier at `p`.
pub fn identifier_end(s: &Vec<char>, p: usize) -> (r: Option<usize>)
    requires
        p <= s@.len(),
    ensures
        match (r, spec_identifier(s@, p as int)) {
            (Some(e), Some((q, name))) => e == q && name == s@.subrange(p as int, q),
            (None, None) => true,
            _ => false,
        },
{
    proof {
        reveal_strlit("==");
    }
    if at_tag(s, p, "==") {
        return Some(p + 2);
    }
    if p < s.len() {
        let c = s[p];
        if c == '+' || c == '-' || c == '*' || c == '/' || c == '<' || c == '>' {
            return Some(p + 1);
        }
        if is_alphabetic(c) || c == '_' {
            let mut i = p + 1;
            while i < s.len() && (is_alphanumeric(s[i]) || s[i] == '_' || s[i] == '-')
                invariant
                    p < i <= s@.len(),
                    spec_span(s@, i as int, |c: char| is_ident_rest(c)) == spec_span(
                        s@,
                        p + 1,
                        |c: char| is_ident_rest(c),
                    ),
                decreases s@.len() - i,
            {
                i = i + 1;
            }
            proof {
                lemma_span_bounds(s@, p + 1, |c: char| is_ident_rest(c));
            }
            if reserved_at(s, p, i) {
                return None;
            }
            return Some(i);
        }
    }
    None
}

proof fn lemma_tag_spells(s: Seq<char>, p: int, e: int, t: Seq<char>)
    requires
        0 <= p <= e <= s.len(),
    ensures
        (e - p == t.len() && has_tag(s, p, t)) <==> s.subrange(p, e) == t,
{
    if s.subrange(p, e) == t {
        assert(s.subrange(p, p + t.len()) =~= t);
    }
}

/// Whether the characters from `p` to `e` spell a reserved word.
fn reserved_at(s: &Vec<char>, p: usize, e: usize) -> (r: bool)
    requires
        p <= e <= s@.len(),
    ensures
        r == is_reserved(s@.subrange(p as int, e as int)),
{
    proof {
        reveal_strlit("fn");
        reveal_strlit("let");
        reveal_strlit("field");
        reveal_strlit("if");
        reveal_strlit("fold");
        reveal_strlit("cons");
        reveal_strlit("vec");
        reveal_strlit("rgb");
        reveal_strlit("rgba");
        reveal_strlit("true");
        reveal_strlit("false");
    }
    proof {
        let kws = seq!["fn"@, "let"@, "field"@, "if"@, "fold"@, "cons"@, "vec"@, "rgb"@, "rgba"@, "true"@, "false"@];
        assert forall|i: int| 0 <= i < kws.len() implies ((e - p == kws[i].len() && has_tag(
            s@,
            p as int,
            kws[i],
        )) <==> s@.subrange(p as int, e as int) == kws[i]) by {
            lemma_tag_spells(s@, p as int, e as int, kws[i]);
        }
        assert(kws[0] == "fn"@ && kws[1] == "let"@ && kws[2] == "field"@ && kws[3] == "if"@);
        assert(kws[4] == "fold"@ && kws[5] == "cons"@ && kws[6] == "vec"@ && kws[7] == "rgb"@);
        assert(kws[8] == "rgba"@ && kws[9] == "true"@ && kws[10] == "false"@);
    }
    let n = e - p;
    let r = (n == 2 && (at_tag(s, p, "fn") || at_tag(s, p, "if")))
        || (n == 3 && (at_tag(s, p, "let") || at_tag(s, p, "vec") || at_tag(s, p, "rgb")))
        || (n == 4 && (at_tag(s, p, "fold") || at_tag(s, p, "cons") || at_tag(s, p, "rgba")
        || at_tag(s, p, "true")))
        || (n == 5 && (at_tag(s, p, "field") || at_tag(s, p, "false")));
    r
}

/// `spec_type`: a type name at `p`.
pub fn scan_type(s: &Vec<char>, p: usize) -> (r: Option<(usize, Type)>)
    requires
        p <= s@.len(),
    ensures
        match (r, spec_type(s@, p as int)) {
            (Some((e, t)), Some((q, m))) => e == q && t@ == m,
            (None, None) => true,
            _ => false,
        },
{
    proof {
        reveal_strlit("Scalar");
        reveal_strlit("Color");
        reveal_strlit("Bool");
        reveal_strlit("Vec");
    }
    if at_tag(s, p, "Scalar") {
        Some((p + 6, Type::Scalar))
    } else if at_tag(s, p, "Color") {
        Some((p + 5, Type::Color))
    } else if at_tag(s, p, "Bool") {
        Some((p + 4, Type::Bool))
    } else if at_tag(s, p, "Vec") {
        let q = spaces_end(s, p + 3);
        if q > p + 3 {
            proof {
                lemma_span_bounds(s@, p + 3, |c: char| is_space(c));
            }
            match scan_u64(s, q) {
                Some((e, n)) => Some((e, Type::Vec(#[verifier::truncate] (n as usize)))),
                None => None,
            }
        } else {
            None
        }
    } else {
        None
    }
}

} // verus!
