//! The literal grammars of the primitive kinds.
use vstd::prelude::*;
use crate::text::str_eq;

verus! {

pub open spec fn is_digit(c: char) -> bool {
    '0' <= c && c <= '9'
}

pub open spec fn all_digits(s: Seq<char>) -> bool {
    forall|i: int| 0 <= i < s.len() ==> is_digit(#[trigger] s[i])
}

/// The number that a string of decimal digits denotes.
pub open spec fn digits_value(s: Seq<char>) -> int
    decreases s.len(),
{
    if s.len() == 0 {
        0
    } else {
        digits_value(s.drop_last()) * 10 + (s.last() as u32 - '0' as u32)
    }
}

pub open spec fn is_sign(c: char) -> bool {
    c == '+' || c == '-'
}

/// `s` without a leading sign.
pub open spec fn unsigned_part(s: Seq<char>) -> Seq<char> {
    if s.len() > 0 && is_sign(s[0]) {
        s.drop_first()
    } else {
        s
    }
}

/// The integer literal grammar: an optional `+` or `-`, then one or more
/// decimal digits, denoting a value that fits in 64 signed bits.
pub open spec fn int_literal(s: Seq<char>) -> Option<i64> {
    let body = unsigned_part(s);
    let magnitude = digits_value(body);
    let v = if s.len() > 0 && s[0] == '-' {
        -magnitude
    } else {
        magnitude
    };
    if body.len() > 0 && all_digits(body) && i64::MIN <= v <= i64::MAX {
        Some(v as i64)
    } else {
        None
    }
}

/// The boolean literal grammar: exactly `true` or `false`.
pub open spec fn bool_literal(s: Seq<char>) -> Option<bool> {
    if s == "true"@ {
        Some(true)
    } else if s == "false"@ {
        Some(false)
    } else {
        None
    }
}

/// `c` equals the lower-case ASCII letter or other character `t`, ignoring case.
pub open spec fn char_eq_ignore_case(c: char, t: char) -> bool {
    c == t || ('a' <= t && t <= 'z' && c as u32 + 32 == t as u32)
}

pub open spec fn eq_ignore_case(s: Seq<char>, t: Seq<char>) -> bool {
    s.len() == t.len() && forall|i: int| 0 <= i < s.len() ==> char_eq_ignore_case(#[trigger] s[i], t[i])
}

/// A mantissa: digits with at most one `.`, and at least one digit.
pub open spec fn mantissa_ok(m: Seq<char>) -> bool {
    &&& forall|i: int| 0 <= i < m.len() ==> is_digit(#[trigger] m[i]) || m[i] == '.'
    &&& forall|i: int, j: int| 0 <= i < m.len() && 0 <= j < m.len() && #[trigger] m[i] == '.' && #[trigger] m[j] == '.' ==> i == j
    &&& exists|i: int| 0 <= i < m.len() && is_digit(#[trigger] m[i])
}

pub open spec fn is_exp_mark(c: char) -> bool {
    c == 'e' || c == 'E'
}

/// An exponent after its mark: an optional sign, then one or more digits.
pub open spec fn exponent_ok(x: Seq<char>) -> bool {
    unsigned_part(x).len() > 0 && all_digits(unsigned_part(x))
}

/// The position of the first exponent mark of `s`, or its length if none.
pub open spec fn exp_mark_at(s: Seq<char>) -> int
    decreases s.len(),
{
    if s.len() == 0 {
        0
    } else if is_exp_mark(s[0]) {
        0
    } else {
        1 + exp_mark_at(s.drop_first())
    }
}

pub open spec fn number_ok(s: Seq<char>) -> bool {
    let p = exp_mark_at(s);
    mantissa_ok(s.subrange(0, p)) && (p == s.len() || exponent_ok(s.subrange(p + 1, s.len() as int)))
}

/// The decimal literal grammar: an optional sign, then `inf`, `infinity` or
/// `nan` in any case, or digits with at most one `.` and an optional exponent
/// (`e` or `E`, an optional sign, digits).
pub open spec fn decimal_literal_ok(s: Seq<char>) -> bool {
    let u = unsigned_part(s);
    eq_ignore_case(u, "inf"@) || eq_ignore_case(u, "infinity"@) || eq_ignore_case(u, "nan"@)
        || number_ok(u)
}

proof fn lemma_digits_prefix_grows(s: Seq<char>, k: int)
    requires
        0 <= k <= s.len(),
        all_digits(s),
    ensures
        digits_value(s) >= digits_value(s.subrange(0, k)),
        digits_value(s.subrange(0, k)) >= 0,
    decreases s.len(),
{
    if k == s.len() {
        assert(s.subrange(0, k) =~= s);
        lemma_digits_nonneg(s);
    } else {
        let p = s.drop_last();
        assert forall|i: int| 0 <= i < p.len() implies is_digit(#[trigger] p[i]) by {
            assert(p[i] == s[i]);
        }
        lemma_digits_prefix_grows(p, k);
        assert(p.subrange(0, k) =~= s.subrange(0, k));
        assert(is_digit(s[s.len() - 1]));
        lemma_digits_nonneg(p);
        assert(digits_value(s) == digits_value(p) * 10 + (s.last() as u32 - '0' as u32));
        assert(digits_value(p) * 10 >= digits_value(p)) by (nonlinear_arith)
            requires
                digits_value(p) >= 0,
        ;
    }
}

proof fn lemma_digits_nonneg(s: Seq<char>)
    requires
        all_digits(s),
    ensures
        digits_value(s) >= 0,
    decreases s.len(),
{
    if s.len() > 0 {
        let p = s.drop_last();
        assert forall|i: int| 0 <= i < p.len() implies is_digit(#[trigger] p[i]) by {
            assert(p[i] == s[i]);
        }
        lemma_digits_nonneg(p);
        assert(is_digit(s[s.len() - 1]));
        assert(digits_value(p) * 10 >= 0) by (nonlinear_arith)
            requires
                digits_value(p) >= 0,
        ;
    }
}

/// Parses an integer literal.
pub fn parse_integer(s: &str) -> (r: Option<i64>)
    ensures
        r == int_literal(s@),
{
    let n = s.unicode_len();
    let mut start: usize = 0;
    let mut negative = false;
    if n > 0 {
        let c = s.get_char(0);
        if c == '+' {
            start = 1;
        } else if c == '-' {
            start = 1;
            negative = true;
        }
    }
    let ghost body = unsigned_part(s@);
    proof {
        assert(body =~= s@.subrange(start as int, n as int));
        assert(negative == (s@.len() > 0 && s@[0] == '-'));
    }
    if start == n {
        return None;
    }
    let limit: u64 = 9223372036854775808;
    let mut acc: u64 = 0;
    let mut i: usize = start;
    proof {
        assert(body.subrange(0, 0) =~= Seq::<char>::empty());
    }
    while i < n
        invariant
            start <= i <= n,
            n == s@.len(),
            body == s@.subrange(start as int, n as int),
            body == unsigned_part(s@),
            negative == (s@.len() > 0 && s@[0] == '-'),
            acc <= limit,
            limit == 9223372036854775808u64,
            acc as int == digits_value(body.subrange(0, i - start)),
            forall|j: int| 0 <= j < i - start ==> is_digit(#[trigger] body[j]),
        decreases n - i,
    {
        let c = s.get_char(i);
        assert(body[i - start] == c);
        if !('0' <= c && c <= '9') {
            assert(!all_digits(body));
            return None;
        }
        let d: u64 = (c as u32 - '0' as u32) as u64;
        let ghost prefix = body.subrange(0, i + 1 - start);
        proof {
            assert(prefix.drop_last() =~= body.subrange(0, i - start));
            assert(prefix.last() == c);
        }
        if acc > 922337203685477580 || (acc == 922337203685477580 && d > 8) {
            proof {
                assert(digits_value(prefix) > 9223372036854775808) by (nonlinear_arith)
                    requires
                        digits_value(prefix) == acc as int * 10 + d as int,
                        acc > 922337203685477580 || (acc == 922337203685477580 && d > 8),
                        0 <= d <= 9,
                ;
                if all_digits(body) {
                    lemma_digits_prefix_grows(body, i + 1 - start);
                }
            }
            return None;
        }
        proof {
            assert(acc as int * 10 + d as int <= 9223372036854775808) by (nonlinear_arith)
                requires
                    !(acc > 922337203685477580 || (acc == 922337203685477580 && d > 8)),
                    0 <= d <= 9,
            ;
        }
        acc = acc * 10 + d;
        i = i + 1;
    }
    proof {
        assert(body.subrange(0, n - start) =~= body);
        assert(all_digits(body));
    }
    if negative {
        if acc == limit {
            Some(i64::MIN)
        } else {
            Some(-(acc as i64))
        }
    } else if acc > 9223372036854775807 {
        None
    } else {
        Some(acc as i64)
    }
}

/// Parses a boolean literal.
pub fn parse_boolean(s: &str) -> (r: Option<bool>)
    ensures
        r == bool_literal(s@),
{
    if str_eq(s, "true") {
        Some(true)
    } else if str_eq(s, "false") {
        Some(false)
    } else {
        None
    }
}

fn ascii_eq_ignore_case(s: &str, from: usize, t: &str) -> (r: bool)
    requires
        from <= s@.len(),
    ensures
        r == eq_ignore_case(s@.subrange(from as int, s@.len() as int), t@),
{
    let n = s.unicode_len();
    let m = t.unicode_len();
    if n - from != m {
        return false;
    }
    let ghost u = s@.subrange(from as int, n as int);
    let mut i: usize = 0;
    while i < m
        invariant
            n == s@.len(),
            m == t@.len(),
            from + m == n,
            u == s@.subrange(from as int, n as int),
            0 <= i <= m,
            forall|j: int| 0 <= j < i ==> char_eq_ignore_case(#[trigger] u[j], t@[j]),
        decreases m - i,
    {
        let c = s.get_char(from + i);
        let d = t.get_char(i);
        let ok = c == d || ('a' <= d && d <= 'z' && (c as u32) + 32 == d as u32);
        if !ok {
            assert(!char_eq_ignore_case(u[i as int], t@[i as int]));
            return false;
        }
        i = i + 1;
    }
    true
}

proof fn lemma_exp_mark_at(s: Seq<char>, p: int)
    requires
        0 <= p <= s.len(),
        forall|j: int| 0 <= j < p ==> !is_exp_mark(#[trigger] s[j]),
        p == s.len() || is_exp_mark(s[p]),
    ensures
        exp_mark_at(s) == p,
    decreases p,
{
    if p > 0 {
        assert(!is_exp_mark(s[0]));
        assert forall|j: int| 0 <= j < p - 1 implies !is_exp_mark(#[trigger] s.drop_first()[j]) by {
            assert(s.drop_first()[j] == s[j + 1]);
        }
        lemma_exp_mark_at(s.drop_first(), p - 1);
    }
}

/// Whether `s[from..to]` is a mantissa.
fn check_mantissa(s: &str, from: usize, to: usize) -> (r: bool)
    requires
        from <= to <= s@.len(),
    ensures
        r == mantissa_ok(s@.subrange(from as int, to as int)),
{
    let ghost m = s@.subrange(from as int, to as int);
    let mut i: usize = from;
    let mut dot: Option<usize> = None;
    let mut digit: Option<usize> = None;
    while i < to
        invariant
            from <= i <= to <= s@.len(),
            m == s@.subrange(from as int, to as int),
            forall|j: int| 0 <= j < i - from ==> is_digit(#[trigger] m[j]) || m[j] == '.',
            match dot {
                None => forall|j: int| 0 <= j < i - from ==> #[trigger] m[j] != '.',
                Some(d) => from <= d < i && m[d - from] == '.' && forall|j: int|
                    0 <= j < i - from && #[trigger] m[j] == '.' ==> j == d - from,
            },
            match digit {
                None => forall|j: int| 0 <= j < i - from ==> !is_digit(#[trigger] m[j]),
                Some(d) => from <= d < i && is_digit(m[d - from]),
            },
        decreases to - i,
    {
        let c = s.get_char(i);
        assert(m[i - from] == c);
        if c == '.' {
            if dot.is_some() {
                let d = dot.unwrap();
                assert(m[d - from] == '.' && m[i - from] == '.');
                return false;
            }
            dot = Some(i);
        } else if '0' <= c && c <= '9' {
            digit = Some(i);
        } else {
            assert(!(is_digit(m[i - from]) || m[i - from] == '.'));
            return false;
        }
        i = i + 1;
    }
    match digit {
        Some(d) => {
            assert(is_digit(m[d - from]));
            true
        },
        None => false,
    }
}

/// Whether `s[from..]` is an exponent after its mark.
fn check_exponent(s: &str, from: usize) -> (r: bool)
    requires
        from <= s@.len(),
    ensures
        r == exponent_ok(s@.subrange(from as int, s@.len() as int)),
{
    let n = s.unicode_len();
    let ghost x = s@.subrange(from as int, n as int);
    assert(x == s@.subrange(from as int, s@.len() as int));
    let mut start = from;
    if from < n {
        let c = s.get_char(from);
        if c == '+' || c == '-' {
            start = from + 1;
        }
    }
    proof {
        assert(unsigned_part(x) =~= s@.subrange(start as int, n as int));
    }
    if start == n {
        return false;
    }
    let mut i: usize = start;
    while i < n
        invariant
            start <= i <= n,
            n == s@.len(),
            unsigned_part(s@.subrange(from as int, n as int)) == s@.subrange(start as int, n as int),
            forall|j: int| start <= j < i ==> is_digit(#[trigger] s@[j]),
        decreases n - i,
    {
        let c = s.get_char(i);
        if !('0' <= c && c <= '9') {
            assert(!is_digit(s@.subrange(start as int, n as int)[i - start]));
            return false;
        }
        i = i + 1;
    }
    assert(all_digits(s@.subrange(start as int, n as int)));
    true
}

/// Whether `s` belongs to the decimal literal grammar.
pub fn is_decimal_literal(s: &str) -> (r: bool)
    ensures
        r == decimal_literal_ok(s@),
{
    let n = s.unicode_len();
    let mut from: usize = 0;
    if n > 0 {
        let c = s.get_char(0);
        if c == '+' || c == '-' {
            from = 1;
        }
    }
    let ghost u = unsigned_part(s@);
    proof {
        assert(u =~= s@.subrange(from as int, n as int));
    }
    if ascii_eq_ignore_case(s, from, "inf") || ascii_eq_ignore_case(s, from, "infinity")
        || ascii_eq_ignore_case(s, from, "nan") {
        return true;
    }
    let mut p: usize = from;
    while p < n && !(s.get_char(p) == 'e' || s.get_char(p) == 'E')
        invariant
            from <= p <= n,
            n == s@.len(),
            forall|j: int| from <= j < p ==> !is_exp_mark(#[trigger] s@[j]),
        decreases n - p,
    {
        p = p + 1;
    }
    proof {
        assert forall|j: int| 0 <= j < p - from implies !is_exp_mark(#[trigger] u[j]) by {
            assert(u[j] == s@[j + from]);
        }
        if p < n {
            assert(u[p - from] == s@[p as int]);
        }
        lemma_exp_mark_at(u, p - from);
        assert(u.subrange(0, p - from) =~= s@.subrange(from as int, p as int));
        if p < n {
            assert(u.subrange(p - from + 1, u.len() as int) =~= s@.subrange(p + 1, n as int));
        }
    }
    if !check_mantissa(s, from, p) {
        return false;
    }
    if p == n {
        true
    } else {
        check_exponent(s, p + 1)
    }
}

} // verus!
