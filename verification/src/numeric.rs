//! Which strings `str::parse` accepts as a `usize` or as an `f32`.

use vstd::prelude::*;
use vstd::string::*;

verus! {

/// An ASCII decimal digit.
pub open spec fn is_ascii_digit(c: char) -> bool {
    '0' <= c && c <= '9'
}

/// Every character of `s` is an ASCII decimal digit.
pub open spec fn all_ascii_digits(s: Seq<char>) -> bool {
    forall|i: int| 0 <= i < s.len() ==> is_ascii_digit(#[trigger] s[i])
}

/// The value of a string of decimal digits.
pub open spec fn decimal_value(s: Seq<char>) -> nat
    decreases s.len(),
{
    if s.len() == 0 {
        0
    } else {
        decimal_value(s.drop_last()) * 10 + (s.last() as int - '0' as int) as nat
    }
}

/// The digits that `usize::from_str` reads: `s` without one leading `+`.
pub open spec fn unsigned_digits(s: Seq<char>) -> Seq<char> {
    if s.len() > 0 && s[0] == '+' {
        s.drop_first()
    } else {
        s
    }
}

/// Whether `str::parse::<usize>` succeeds on `s`: an optional `+`, then at least one
/// decimal digit and nothing else, with a value that fits in a `usize`.
pub open spec fn parses_as_usize(s: Seq<char>) -> bool {
    let d = unsigned_digits(s);
    &&& d.len() > 0
    &&& all_ascii_digits(d)
    &&& decimal_value(d) <= usize::MAX
}

/// A longer run of digits never has a smaller value than its prefix.
pub proof fn lemma_decimal_value_prefix(d: Seq<char>, k: int)
    requires
        0 <= k <= d.len(),
        all_ascii_digits(d),
    ensures
        decimal_value(d.take(k)) <= decimal_value(d),
    decreases d.len(),
{
    if k < d.len() {
        assert(all_ascii_digits(d.drop_last()));
        assert(d.drop_last().take(k) =~= d.take(k));
        lemma_decimal_value_prefix(d.drop_last(), k);
    } else {
        assert(d.take(k) =~= d);
    }
}

/// Whether `s` is accepted by `str::parse::<usize>`.
pub fn is_usize_literal(s: &str) -> (r: bool)
    ensures
        r == parses_as_usize(s@),
{
    let n = s.unicode_len();
    let mut i: usize = 0;
    if n > 0 && s.get_char(0) == '+' {
        i = 1;
    }
    let ghost d = unsigned_digits(s@);
    assert(d =~= s@.subrange(i as int, n as int));
    if i == n {
        return false;
    }
    let mut acc: usize = 0;
    let start = i;
    assert(d.take(0) =~= Seq::<char>::empty());
    while i < n
        invariant
            n == s@.len(),
            start <= i <= n,
            start < n,
            d == unsigned_digits(s@),
            d =~= s@.subrange(start as int, n as int),
            all_ascii_digits(d.take(i - start)),
            acc as nat == decimal_value(d.take(i - start)),
        decreases n - i,
    {
        let c = s.get_char(i);
        assert(d[i - start] == c);
        if !('0' <= c && c <= '9') {
            assert(!all_ascii_digits(d));
            return false;
        }
        let digit = (c as u32 - '0' as u32) as usize;
        let ghost next = d.take(i - start + 1);
        assert(next.drop_last() =~= d.take(i - start));
        assert(all_ascii_digits(next));
        assert(decimal_value(next) == decimal_value(d.take(i - start)) * 10 + digit);
        match acc.checked_mul(10) {
            Some(m) => match m.checked_add(digit) {
                Some(v) => {
                    acc = v;
                },
                None => {
                    proof {
                        lemma_rest_digits_or_not(d, i - start + 1);
                    }
                    return false;
                },
            },
            None => {
                proof {
                    lemma_rest_digits_or_not(d, i - start + 1);
                }
                return false;
            },
        }
        i = i + 1;
    }
    assert(d.take(n - start) =~= d);
    acc <= usize::MAX
}

/// Where a prefix of `d` is all digits and its value overflows a `usize`, `d` does not
/// parse: either a later character is not a digit, or the whole value overflows too.
proof fn lemma_rest_digits_or_not(d: Seq<char>, k: int)
    requires
        0 < k <= d.len(),
        all_ascii_digits(d.take(k)),
        decimal_value(d.take(k)) > usize::MAX,
    ensures
        !(all_ascii_digits(d) && decimal_value(d) <= usize::MAX),
{
    if all_ascii_digits(d) {
        lemma_decimal_value_prefix(d, k);
    }
}

/// `c` is `w`, or `w` is a lower-case ASCII letter and `c` the same letter in upper case.
pub open spec fn same_letter_ignoring_ascii_case(c: char, w: char) -> bool {
    c == w || ('A' <= c && c <= 'Z' && c as int + 32 == w as int)
}

/// Whether `s` spells the lower-case ASCII word `word` in any ASCII case.
pub open spec fn eq_ignore_ascii_case(s: Seq<char>, word: Seq<char>) -> bool {
    &&& s.len() == word.len()
    &&& forall|i: int| 0 <= i < s.len() ==> same_letter_ignoring_ascii_case(#[trigger] s[i], word[i])
}

/// `s` without one leading sign.
pub open spec fn strip_sign(s: Seq<char>) -> Seq<char> {
    if s.len() > 0 && (s[0] == '+' || s[0] == '-') {
        s.drop_first()
    } else {
        s
    }
}

/// The letter that starts an exponent.
pub open spec fn is_exponent_marker(c: char) -> bool {
    c == 'e' || c == 'E'
}

/// `Digit+ | Digit+ '.' Digit* | Digit* '.' Digit+`: digits with at most one point and at
/// least one digit.
pub open spec fn is_mantissa(m: Seq<char>) -> bool {
    &&& forall|i: int| 0 <= i < m.len() ==> is_ascii_digit(#[trigger] m[i]) || m[i] == '.'
    &&& forall|i: int, j: int| 0 <= i < j < m.len() && #[trigger] m[i] == '.' ==> #[trigger] m[j] != '.'
    &&& exists|i: int| 0 <= i < m.len() && is_ascii_digit(#[trigger] m[i])
}

/// `Sign? Digit+`: what follows the exponent marker.
pub open spec fn is_exponent_digits(x: Seq<char>) -> bool {
    let d = strip_sign(x);
    d.len() > 0 && all_ascii_digits(d)
}

/// `Number ::= Mantissa Exp?`, split at the first exponent marker `e` (the mantissa holds
/// none).
pub open spec fn is_decimal_number(b: Seq<char>) -> bool {
    exists|e: int|
        0 <= e <= b.len() && (forall|i: int| 0 <= i < e ==> !is_exponent_marker(#[trigger] b[i]))
            && #[trigger] is_mantissa(b.take(e)) && (e == b.len() || (is_exponent_marker(b[e])
            && is_exponent_digits(b.skip(e + 1))))
}

/// Whether `str::parse::<f32>` succeeds on `s`, by the grammar that `f32::from_str`
/// documents: `Sign? ( 'inf' | 'infinity' | 'nan' | Number )`, the words in any ASCII case.
pub open spec fn parses_as_float(s: Seq<char>) -> bool {
    let b = strip_sign(s);
    ||| eq_ignore_ascii_case(b, seq!['i', 'n', 'f'])
    ||| eq_ignore_ascii_case(b, seq!['i', 'n', 'f', 'i', 'n', 'i', 't', 'y'])
    ||| eq_ignore_ascii_case(b, seq!['n', 'a', 'n'])
    ||| is_decimal_number(b)
}

/// Whether the characters of `s` from `from` on spell `word` in any ASCII case.
fn matches_word(s: &str, from: usize, word: &str) -> (r: bool)
    requires
        from <= s@.len(),
    ensures
        r == eq_ignore_ascii_case(s@.subrange(from as int, s@.len() as int), word@),
{
    let n = s.unicode_len();
    let ghost b = s@.subrange(from as int, n as int);
    let len = word.unicode_len();
    if n - from != len {
        return false;
    }
    let mut k: usize = 0;
    while k < len
        invariant
            n == s@.len(),
            from <= n,
            b == s@.subrange(from as int, n as int),
            b.len() == word@.len(),
            len == word@.len(),
            k <= len,
            forall|j: int| 0 <= j < k ==> same_letter_ignoring_ascii_case(#[trigger] b[j], word@[j]),
        decreases len - k,
    {
        let c = s.get_char(from + k);
        let w = word.get_char(k);
        assert(b[k as int] == c);
        let cu = c as u32;
        let wu = w as u32;
        assert(cu as int == c as int);
        assert(wu as int == w as int);
        let same = c == w || ('A' <= c && c <= 'Z' && cu + 32 == wu);
        if !same {
            return false;
        }
        k = k + 1;
    }
    true
}

/// Whether `s[from..to]` is a mantissa: digits with at most one point, at least one digit.
fn check_mantissa(s: &str, from: usize, to: usize) -> (r: bool)
    requires
        from <= to <= s@.len(),
    ensures
        r == is_mantissa(s@.subrange(from as int, to as int)),
{
    let ghost m = s@.subrange(from as int, to as int);
    let mut i: usize = from;
    let mut seen_dot = false;
    let mut seen_digit = false;
    while i < to
        invariant
            from <= i <= to <= s@.len(),
            m == s@.subrange(from as int, to as int),
            forall|j: int| 0 <= j < i - from ==> is_ascii_digit(#[trigger] m[j]) || m[j] == '.',
            forall|j: int, l: int| 0 <= j < l < i - from && #[trigger] m[j] == '.' ==> #[trigger] m[l] != '.',
            seen_dot <==> exists|j: int| 0 <= j < i - from && #[trigger] m[j] == '.',
            seen_digit <==> exists|j: int| 0 <= j < i - from && is_ascii_digit(#[trigger] m[j]),
        decreases to - i,
    {
        let c = s.get_char(i);
        assert(m[i - from] == c);
        if c == '.' {
            if seen_dot {
                let ghost j = choose|j: int| 0 <= j < i - from && #[trigger] m[j] == '.';
                assert(m[j] == '.' && m[i - from] == '.');
                return false;
            }
            seen_dot = true;
        } else if '0' <= c && c <= '9' {
            seen_digit = true;
        } else {
            assert(!(is_ascii_digit(m[i - from]) || m[i - from] == '.'));
            return false;
        }
        i = i + 1;
    }
    seen_digit
}

/// Whether `s[from..]` is an optional sign followed by at least one digit.
fn check_exponent_digits(s: &str, from: usize) -> (r: bool)
    requires
        from <= s@.len(),
    ensures
        r == is_exponent_digits(s@.subrange(from as int, s@.len() as int)),
{
    let n = s.unicode_len();
    let ghost x = s@.subrange(from as int, n as int);
    let mut i = from;
    if i < n && (s.get_char(i) == '+' || s.get_char(i) == '-') {
        i = i + 1;
    }
    assert(strip_sign(x) =~= s@.subrange(i as int, n as int));
    if i == n {
        return false;
    }
    let start = i;
    while i < n
        invariant
            n == s@.len(),
            start <= i <= n,
            x == s@.subrange(from as int, n as int),
            strip_sign(x) =~= s@.subrange(start as int, n as int),
            forall|j: int| 0 <= j < i - start ==> is_ascii_digit(#[trigger] strip_sign(x)[j]),
        decreases n - i,
    {
        let c = s.get_char(i);
        assert(strip_sign(x)[i - start] == c);
        if !('0' <= c && c <= '9') {
            return false;
        }
        i = i + 1;
    }
    true
}

/// With `e` the first exponent marker of `b` (or its length), `b` is a number exactly when
/// the part before `e` is a mantissa and the part after it is an exponent.
proof fn lemma_decimal_number_at(b: Seq<char>, e: int)
    requires
        0 <= e <= b.len(),
        forall|i: int| 0 <= i < e ==> !is_exponent_marker(#[trigger] b[i]),
        e == b.len() || is_exponent_marker(b[e]),
    ensures
        is_decimal_number(b) == (is_mantissa(b.take(e)) && (e == b.len() || is_exponent_digits(
            b.skip(e + 1),
        ))),
{
    if is_decimal_number(b) {
        let e2 = choose|e2: int|
            0 <= e2 <= b.len() && (forall|i: int| 0 <= i < e2 ==> !is_exponent_marker(#[trigger] b[i]))
                && #[trigger] is_mantissa(b.take(e2)) && (e2 == b.len() || (is_exponent_marker(b[e2])
                && is_exponent_digits(b.skip(e2 + 1))));
        if e2 < e {
            assert(!is_exponent_marker(b[e2]));
        } else if e < e2 {
            assert(!is_exponent_marker(b[e]));
        }
    }
}

/// Whether `s` is accepted by `str::parse::<f32>`.
pub fn is_float_literal(s: &str) -> (r: bool)
    ensures
        r == parses_as_float(s@),
{
    let n = s.unicode_len();
    let mut from: usize = 0;
    if n > 0 && (s.get_char(0) == '+' || s.get_char(0) == '-') {
        from = 1;
    }
    let ghost b = strip_sign(s@);
    assert(b =~= s@.subrange(from as int, n as int));
    proof {
        reveal_strlit("inf");
        reveal_strlit("infinity");
        reveal_strlit("nan");
        assert("inf"@ =~= seq!['i', 'n', 'f']);
        assert("infinity"@ =~= seq!['i', 'n', 'f', 'i', 'n', 'i', 't', 'y']);
        assert("nan"@ =~= seq!['n', 'a', 'n']);
    }
    if matches_word(s, from, "inf") || matches_word(s, from, "infinity") || matches_word(
        s,
        from,
        "nan",
    ) {
        return true;
    }
    let mut e: usize = from;
    while e < n && !(s.get_char(e) == 'e' || s.get_char(e) == 'E')
        invariant
            n == s@.len(),
            from <= e <= n,
            b =~= s@.subrange(from as int, n as int),
            forall|i: int| 0 <= i < e - from ==> !is_exponent_marker(#[trigger] b[i]),
        decreases n - e,
    {
        assert(b[e - from] == s@[e as int]);
        e = e + 1;
    }
    proof {
        if e < n {
            assert(b[e - from] == s@[e as int]);
            assert(b.skip(e - from + 1) =~= s@.subrange(e as int + 1, n as int));
        }
        lemma_decimal_number_at(b, e - from);
        assert(b.take(e - from) =~= s@.subrange(from as int, e as int));
    }
    if !check_mantissa(s, from, e) {
        return false;
    }
    if e == n {
        return true;
    }
    check_exponent_digits(s, e + 1)
}

/// `s` is empty or a single sign.
pub open spec fn optional_sign(s: Seq<char>) -> bool {
    s.len() == 0 || (s.len() == 1 && (s[0] == '+' || s[0] == '-'))
}

/// The text of a decimal number: an optional sign, digits, optionally a point and more
/// digits (at least one digit in all), optionally an exponent `e`/`E`, sign and digits.
pub open spec fn decimal_text(
    sign: Seq<char>,
    int_part: Seq<char>,
    frac: Option<Seq<char>>,
    exp: Option<(char, Seq<char>, Seq<char>)>,
) -> Seq<char> {
    sign + int_part + match frac {
        Some(f) => seq!['.'] + f,
        None => Seq::empty(),
    } + match exp {
        Some((m, es, ed)) => seq![m] + es + ed,
        None => Seq::empty(),
    }
}

/// Every decimal number of the documented `f32` grammar parses as a float, whatever its
/// length: `Sign? (Digit+ | Digit+ '.' Digit* | Digit* '.' Digit+) (('e'|'E') Sign? Digit+)?`.
pub proof fn law_decimal_numbers_parse_as_float(
    sign: Seq<char>,
    int_part: Seq<char>,
    frac: Option<Seq<char>>,
    exp: Option<(char, Seq<char>, Seq<char>)>,
)
    requires
        optional_sign(sign),
        all_ascii_digits(int_part),
        frac matches Some(f) ==> all_ascii_digits(f),
        int_part.len() > 0 || (frac matches Some(f) && f.len() > 0),
        exp matches Some((m, es, ed)) ==> is_exponent_marker(m) && optional_sign(es) && ed.len()
            > 0 && all_ascii_digits(ed),
    ensures
        parses_as_float(decimal_text(sign, int_part, frac, exp)),
{
    let mant = int_part + match frac {
        Some(f) => seq!['.'] + f,
        None => Seq::<char>::empty(),
    };
    let expo = match exp {
        Some((m, es, ed)) => seq![m] + es + ed,
        None => Seq::<char>::empty(),
    };
    let rest = mant + expo;
    let s = decimal_text(sign, int_part, frac, exp);
    assert(s =~= sign + rest);
    let k = int_part.len() as int;
    assert forall|i: int| 0 <= i < mant.len() implies is_ascii_digit(#[trigger] mant[i]) || mant[i]
        == '.' by {
        if i < k {
            assert(mant[i] == int_part[i]);
        } else if i == k {
        } else {
            let f = frac->Some_0;
            assert(mant[i] == f[i - k - 1]);
        }
    }
    assert forall|i: int, j: int| 0 <= i < j < mant.len() && #[trigger] mant[i] == '.' implies #[trigger] mant[j]
        != '.' by {
        if i < k {
            assert(mant[i] == int_part[i]);
        }
        if j > k {
            let f = frac->Some_0;
            assert(mant[j] == f[j - k - 1]);
        } else {
            assert(mant[j] == int_part[j]);
        }
    }
    if int_part.len() > 0 {
        assert(is_ascii_digit(mant[0]));
    } else {
        let f = frac->Some_0;
        assert(mant[k + 1] == f[0]);
        assert(is_ascii_digit(mant[k + 1]));
    }
    assert(is_mantissa(mant));
    assert(mant.len() > 0);
    assert(rest[0] == mant[0]);
    let b = strip_sign(s);
    assert(b =~= rest);
    let e = mant.len() as int;
    assert(rest.take(e) =~= mant);
    assert forall|i: int| 0 <= i < e implies !is_exponent_marker(#[trigger] rest[i]) by {
        assert(rest[i] == mant[i]);
    }
    match exp {
        Some((m, es, ed)) => {
            assert(rest[e] == m);
            let x = rest.skip(e + 1);
            assert(x =~= es + ed);
            assert(strip_sign(x) =~= ed);
            assert(is_exponent_digits(x));
        },
        None => {
            assert(rest.len() == e);
        },
    }
    assert(is_decimal_number(b));
}

/// Every run of decimal digits, with or without a leading `+`, whose value fits in a
/// `usize` parses as one, whatever its length.
pub proof fn law_digit_runs_parse_as_usize(plus: bool, d: Seq<char>)
    requires
        d.len() > 0,
        all_ascii_digits(d),
        decimal_value(d) <= usize::MAX,
    ensures
        parses_as_usize(if plus { seq!['+'] + d } else { d }),
{
    if plus {
        assert((seq!['+'] + d).drop_first() =~= d);
    }
}

/// A negative number never parses as a `usize`.
pub proof fn law_negative_numbers_do_not_parse_as_usize(d: Seq<char>)
    ensures
        !parses_as_usize(seq!['-'] + d),
{
    let s = seq!['-'] + d;
    assert(s[0] == '-');
    assert(unsigned_digits(s) == s);
    assert(!is_ascii_digit(s[0]));
}

/// A number written with whitespace in it parses neither as a float nor as a `usize`.
pub proof fn law_whitespace_is_never_a_number(s: Seq<char>, k: int)
    requires
        0 <= k < s.len(),
        crate::text::is_white_space(s[k]),
    ensures
        !parses_as_float(s),
        !parses_as_usize(s),
{
    let d = unsigned_digits(s);
    if d.len() > 0 && all_ascii_digits(d) {
        if s.len() > 0 && s[0] == '+' {
            assert(k > 0);
            assert(d[k - 1] == s[k]);
            assert(is_ascii_digit(d[k - 1]));
        } else {
            assert(is_ascii_digit(d[k]));
        }
    }
    let b = strip_sign(s);
    let off: int = if s.len() > 0 && (s[0] == '+' || s[0] == '-') {
        1
    } else {
        0
    };
    assert(k >= off);
    let kb = k - off;
    assert(b[kb] == s[k]);
    assert(!same_letter_ignoring_ascii_case(b[kb], 'i'));
    assert(!same_letter_ignoring_ascii_case(b[kb], 'n'));
    assert(!same_letter_ignoring_ascii_case(b[kb], 'f'));
    assert(!same_letter_ignoring_ascii_case(b[kb], 't'));
    assert(!same_letter_ignoring_ascii_case(b[kb], 'y'));
    assert(!same_letter_ignoring_ascii_case(b[kb], 'a'));
    if is_decimal_number(b) {
        let e = choose|e: int|
            0 <= e <= b.len() && (forall|i: int| 0 <= i < e ==> !is_exponent_marker(#[trigger] b[i]))
                && #[trigger] is_mantissa(b.take(e)) && (e == b.len() || (is_exponent_marker(b[e])
                && is_exponent_digits(b.skip(e + 1))));
        if kb < e {
            assert(b.take(e)[kb] == b[kb]);
        } else if kb > e {
            let x = b.skip(e + 1);
            assert(x[kb - e - 1] == b[kb]);
            let xs = strip_sign(x);
            if x.len() > 0 && (x[0] == '+' || x[0] == '-') {
                assert(kb - e - 1 > 0);
                assert(xs[kb - e - 2] == x[kb - e - 1]);
            } else {
                assert(xs[kb - e - 1] == x[kb - e - 1]);
            }
        }
    }
}

} // verus!
