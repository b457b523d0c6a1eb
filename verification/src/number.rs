use vstd::prelude::*;

use crate::text::{is_digit, is_digit_spec};

verus! {

/// `+` or `-`.
pub open spec fn is_sign_spec(c: char) -> bool {
    c == '+' || c == '-'
}

/// `e` or `E`, the letter that starts an exponent.
pub open spec fn is_exp_letter_spec(c: char) -> bool {
    c == 'e' || c == 'E'
}

/// Every character of `d` is a decimal digit.
pub open spec fn all_digits(d: Seq<char>) -> bool {
    forall|i: int| 0 <= i < d.len() ==> is_digit_spec(#[trigger] d[i])
}

/// `a` equals the lower-case word `word` when ASCII upper-case letters of `a`
/// are read as lower case.
pub open spec fn eq_ignore_ascii_case(a: Seq<char>, word: Seq<char>) -> bool {
    &&& a.len() == word.len()
    &&& forall|i: int|
        0 <= i < a.len() ==> (#[trigger] a[i] == word[i] || ('A' <= a[i] <= 'Z' && a[i] as u32
            + 32 == word[i] as u32))
}

/// The mantissa of a decimal float literal: digits with at most one `.`, and
/// at least one digit (`Digit+ | Digit+ '.' Digit* | Digit* '.' Digit+`).
pub open spec fn is_mantissa(m: Seq<char>) -> bool {
    &&& forall|i: int| 0 <= i < m.len() ==> is_digit_spec(#[trigger] m[i]) || m[i] == '.'
    &&& forall|i: int, j: int| 0 <= i < j < m.len() && #[trigger] m[i] == '.' ==> #[trigger] m[j] != '.'
    &&& exists|i: int| 0 <= i < m.len() && is_digit_spec(#[trigger] m[i])
}

/// An exponent: `e` or `E`, an optional sign, then one or more digits.
pub open spec fn is_exponent(x: Seq<char>) -> bool {
    &&& x.len() >= 2
    &&& is_exp_letter_spec(x[0])
    &&& {
        let d = if is_sign_spec(x[1]) {
            x.skip(2)
        } else {
            x.skip(1)
        };
        d.len() > 0 && all_digits(d)
    }
}

/// A decimal float literal without sign: a mantissa, optionally followed by an exponent.
pub open spec fn is_decimal(t: Seq<char>) -> bool {
    ||| is_mantissa(t)
    ||| exists|k: int| 0 <= k < t.len() && is_mantissa(#[trigger] t.take(k)) && is_exponent(t.skip(k))
}

/// `s` without its leading sign, if it has one.
pub open spec fn strip_sign(s: Seq<char>) -> Seq<char> {
    if s.len() > 0 && is_sign_spec(s[0]) {
        s.skip(1)
    } else {
        s
    }
}

/// The strings that `f64::from_str` accepts, by the grammar its documentation
/// gives (letters compared without regard to ASCII case):
/// `Sign? ( 'inf' | 'infinity' | 'nan' | Number )`.
pub open spec fn is_float_literal(s: Seq<char>) -> bool {
    let t = strip_sign(s);
    ||| eq_ignore_ascii_case(t, "inf"@)
    ||| eq_ignore_ascii_case(t, "infinity"@)
    ||| eq_ignore_ascii_case(t, "nan"@)
    ||| is_decimal(t)
}

/// The value of a string of decimal digits.
pub open spec fn digits_value(d: Seq<char>) -> int
    decreases d.len(),
{
    if d.len() == 0 {
        0
    } else {
        digits_value(d.drop_last()) * 10 + (d.last() as int - '0' as int)
    }
}

/// The integer that `s` writes: an optional `+` or `-`, then one or more digits.
pub open spec fn parse_int_spec(s: Seq<char>) -> Option<int> {
    let neg = s.len() > 0 && s[0] == '-';
    let d = strip_sign(s);
    if d.len() > 0 && all_digits(d) {
        Some(
            if neg {
                -digits_value(d)
            } else {
                digits_value(d)
            },
        )
    } else {
        None
    }
}

/// What `i32::from_str` gives: the integer that `s` writes, if it fits in an `i32`.
pub open spec fn parse_i32_spec(s: Seq<char>) -> Option<i32> {
    match parse_int_spec(s) {
        Some(v) => if i32::MIN <= v <= i32::MAX {
            Some(v as i32)
        } else {
            None
        },
        None => None,
    }
}

proof fn lemma_digits_value_nonneg(d: Seq<char>)
    requires
        all_digits(d),
    ensures
        digits_value(d) >= 0,
    decreases d.len(),
{
    if d.len() > 0 {
        assert(is_digit_spec(d[d.len() - 1]));
        lemma_digits_value_nonneg(d.drop_last());
    }
}

fn is_sign(c: char) -> (r: bool)
    ensures
        r == is_sign_spec(c),
{
    c == '+' || c == '-'
}

fn is_exp_letter(c: char) -> (r: bool)
    ensures
        r == is_exp_letter_spec(c),
{
    c == 'e' || c == 'E'
}

/// Whether `s` from index `from` on equals `word`, ASCII case ignored on the side of `s`.
fn rest_eq_ignore_ascii_case(s: &str, from: usize, word: &str) -> (r: bool)
    requires
        from <= s@.len(),
    ensures
        r == eq_ignore_ascii_case(s@.skip(from as int), word@),
{
    let n = s.unicode_len();
    let m = word.unicode_len();
    let ghost t = s@.skip(from as int);
    if n - from != m {
        return false;
    }
    let mut k: usize = 0;
    while k < m
        invariant
            n == s@.len(),
            m == word@.len(),
            from + m == n,
            t == s@.skip(from as int),
            k <= m,
            forall|i: int|
                0 <= i < k ==> (#[trigger] t[i] == word@[i] || ('A' <= t[i] <= 'Z' && t[i] as u32
                    + 32 == word@[i] as u32)),
        decreases m - k,
    {
        let a = s.get_char(from + k);
        let b = word.get_char(k);
        assert(t[k as int] == a);
        let upper = 'A' <= a && a <= 'Z';
        if !(a == b || (upper && (a as u32) + 32 == b as u32)) {
            return false;
        }
        k = k + 1;
    }
    true
}

/// Whether `s` from index `j` on is an exponent.
fn rest_is_exponent(s: &str, j: usize) -> (r: bool)
    requires
        j < s@.len(),
        is_exp_letter_spec(s@[j as int]),
    ensures
        r == is_exponent(s@.skip(j as int)),
{
    let n = s.unicode_len();
    let ghost x = s@.skip(j as int);
    if n - j < 2 {
        return false;
    }
    let mut p = j + 1;
    if is_sign(s.get_char(p)) {
        p = p + 1;
    }
    let ghost d = s@.skip(p as int);
    assert(d =~= if is_sign_spec(x[1]) {
        x.skip(2)
    } else {
        x.skip(1)
    });
    if p >= n {
        return false;
    }
    let mut q = p;
    while q < n
        invariant
            n == s@.len(),
            p <= q <= n,
            d == s@.skip(p as int),
            x == s@.skip(j as int),
            x.len() >= 2,
            is_exp_letter_spec(x[0]),
            d == if is_sign_spec(x[1]) {
                x.skip(2)
            } else {
                x.skip(1)
            },
            forall|i: int| p <= i < q ==> is_digit_spec(#[trigger] s@[i]),
        decreases n - q,
    {
        if !is_digit(s.get_char(q)) {
            assert(d[q - p] == s@[q as int]);
            assert(!is_digit_spec(d[q - p]));
            return false;
        }
        q = q + 1;
    }
    assert forall|i: int| 0 <= i < d.len() implies is_digit_spec(#[trigger] d[i]) by {
        assert(d[i] == s@[p + i]);
    }
    true
}

fn is_digit_or_dot_at(s: &str, j: usize) -> (r: bool)
    requires
        j < s@.len(),
    ensures
        r == (is_digit_spec(s@[j as int]) || s@[j as int] == '.'),
{
    let c = s.get_char(j);
    is_digit(c) || c == '.'
}

/// Whether `s` from index `from` on is a decimal float literal without sign.
fn rest_is_decimal(s: &str, from: usize) -> (r: bool)
    requires
        from <= s@.len(),
    ensures
        r == is_decimal(s@.skip(from as int)),
{
    let n = s.unicode_len();
    let ghost t = s@.skip(from as int);
    let mut j = from;
    let mut seen_dot = false;
    let mut one_dot = true;
    let mut has_digit = false;
    let ghost mut dot_at: int = 0;
    let ghost mut digit_at: int = 0;
    while j < n && is_digit_or_dot_at(s, j)
        invariant
            n == s@.len(),
            t == s@.skip(from as int),
            from <= j <= n,
            forall|i: int| from <= i < j ==> is_digit_spec(#[trigger] s@[i]) || s@[i] == '.',
            seen_dot ==> from <= dot_at < j && s@[dot_at] == '.',
            !seen_dot ==> forall|i: int| from <= i < j ==> #[trigger] s@[i] != '.',
            one_dot == forall|a: int, b: int|
                from <= a < b < j && #[trigger] s@[a] == '.' ==> #[trigger] s@[b] != '.',
            has_digit ==> from <= digit_at < j && is_digit_spec(s@[digit_at]),
            !has_digit ==> forall|i: int| from <= i < j ==> !is_digit_spec(#[trigger] s@[i]),
        decreases n - j,
    {
        let c = s.get_char(j);
        if is_digit(c) {
            has_digit = true;
            proof {
                digit_at = j as int;
            }
        } else if c == '.' {
            if seen_dot {
                one_dot = false;
                assert(s@[dot_at] == '.' && s@[j as int] == '.');
            } else {
                proof {
                    dot_at = j as int;
                }
            }
            seen_dot = true;
        }
        j = j + 1;
    }
    let k = j - from;
    let ghost m = t.take(k as int);
    assert forall|i: int| 0 <= i < m.len() implies is_digit_spec(#[trigger] m[i]) || m[i] == '.' by {
        assert(m[i] == s@[from + i]);
    }
    let mantissa_ok = one_dot && has_digit;
    assert(mantissa_ok == is_mantissa(m)) by {
        if has_digit {
            assert(m[digit_at - from] == s@[digit_at]);
        } else {
            assert forall|i: int| 0 <= i < m.len() implies !is_digit_spec(#[trigger] m[i]) by {
                assert(m[i] == s@[from + i]);
            }
        }
        if !one_dot {
            let (a, b) = choose|a: int, b: int|
                from <= a < b < j && #[trigger] s@[a] == '.' && #[trigger] s@[b] == '.';
            assert(m[a - from] == s@[a] && m[b - from] == s@[b]);
        } else {
            assert forall|a: int, b: int|
                0 <= a < b < m.len() && #[trigger] m[a] == '.' implies #[trigger] m[b] != '.' by {
                assert(m[a] == s@[from + a] && m[b] == s@[from + b]);
            }
        }
    }
    if j == n {
        assert(m =~= t);
        assert forall|q: int| 0 <= q < t.len() implies !(is_mantissa(#[trigger] t.take(q)) && is_exponent(t.skip(q))) by {
            assert(t.skip(q)[0] == s@[from + q]);
        }
        return mantissa_ok;
    }
    let c = s.get_char(j);
    assert(t[k as int] == c);
    assert(!is_mantissa(t)) by {
        if is_mantissa(t) {
            assert(is_digit_spec(t[k as int]) || t[k as int] == '.');
        }
    }
    assert forall|q: int| 0 <= q < t.len() && q != k implies !(is_mantissa(#[trigger] t.take(q)) && is_exponent(t.skip(q))) by {
        if q < k {
            assert(t.skip(q)[0] == s@[from + q]);
        } else {
            assert(t.take(q)[k as int] == c);
        }
    }
    if is_exp_letter(c) {
        let exp_ok = rest_is_exponent(s, j);
        assert(t.skip(k as int) =~= s@.skip(j as int));
        mantissa_ok && exp_ok
    } else {
        assert(!is_exponent(t.skip(k as int)));
        false
    }
}

/// Whether `s` is accepted by `f64::from_str`: an optional sign, then `inf`,
/// `infinity`, `nan` (in any ASCII case), or a decimal number with an optional exponent.
pub fn is_float_literal_str(s: &str) -> (r: bool)
    ensures
        r == is_float_literal(s@),
{
    let n = s.unicode_len();
    let mut from: usize = 0;
    if n > 0 && is_sign(s.get_char(0)) {
        from = 1;
    }
    assert(s@.skip(from as int) =~= strip_sign(s@));
    rest_eq_ignore_ascii_case(s, from, "inf") || rest_eq_ignore_ascii_case(s, from, "infinity")
        || rest_eq_ignore_ascii_case(s, from, "nan") || rest_is_decimal(s, from)
}

/// Parses `s` as `i32::from_str` does: an optional `+` or `-`, then one or more
/// digits, whose value must fit in an `i32`.
pub fn parse_i32(s: &str) -> (r: Option<i32>)
    ensures
        r == parse_i32_spec(s@),
{
    let n = s.unicode_len();
    let mut from: usize = 0;
    let mut neg = false;
    if n > 0 {
        let c = s.get_char(0);
        if c == '-' {
            neg = true;
        }
        if is_sign(c) {
            from = 1;
        }
    }
    let ghost d = strip_sign(s@);
    assert(s@.skip(from as int) =~= d);
    if from >= n {
        return None;
    }
    let bound: u64 = 0x8000_0000;
    let mut acc: u64 = 0;
    let mut i = from;
    assert(d.take(0) =~= Seq::<char>::empty());
    while i < n
        invariant
            n == s@.len(),
            from <= i <= n,
            d == s@.skip(from as int),
            d == strip_sign(s@),
            neg == (s@.len() > 0 && s@[0] == '-'),
            bound == 0x8000_0000,
            all_digits(d.take(i - from)),
            digits_value(d.take(i - from)) <= bound ==> acc == digits_value(d.take(i - from)),
            digits_value(d.take(i - from)) > bound ==> acc > bound,
            acc <= bound * 10 + 9,
        decreases n - i,
    {
        let c = s.get_char(i);
        assert(d[i - from] == c);
        if !is_digit(c) {
            assert(!all_digits(d)) by {
                assert(!is_digit_spec(d[i - from]));
            }
            return None;
        }
        let ghost pre = d.take(i - from);
        let ghost post = d.take(i - from + 1);
        assert(post.drop_last() =~= pre);
        assert(post.last() == c);
        proof {
            lemma_digits_value_nonneg(pre);
        }
        let digit = (c as u32 - '0' as u32) as u64;
        if acc <= bound {
            acc = acc * 10 + digit;
        }
        i = i + 1;
    }
    assert(d.take(n - from) =~= d);
    if neg {
        if acc <= bound {
            Some((0 - (acc as i64)) as i32)
        } else {
            None
        }
    } else {
        if acc < bound {
            Some(acc as i32)
        } else {
            None
        }
    }
}

} // verus!

verus! {

/// The decimal digit of `d` (below ten).
pub open spec fn digit_char(d: int) -> char {
    ('0' as int + d) as char
}

/// The decimal numeral of a natural number, without leading zeros.
pub open spec fn nat_decimal(n: nat) -> Seq<char>
    decreases n,
{
    if n < 10 {
        seq![digit_char(n as int)]
    } else {
        nat_decimal(n / 10) + seq![digit_char((n % 10) as int)]
    }
}

/// The decimal numeral of an integer, as `Display` writes it: a `-` before negative ones.
pub open spec fn int_decimal(v: int) -> Seq<char> {
    if v < 0 {
        seq!['-'] + nat_decimal((-v) as nat)
    } else {
        nat_decimal(v as nat)
    }
}

fn digit_str(d: u64) -> (r: &'static str)
    requires
        d < 10,
    ensures
        r@ == seq![digit_char(d as int)],
{
    proof {
        reveal_strlit("0");
        reveal_strlit("1");
        reveal_strlit("2");
        reveal_strlit("3");
        reveal_strlit("4");
        reveal_strlit("5");
        reveal_strlit("6");
        reveal_strlit("7");
        reveal_strlit("8");
        reveal_strlit("9");
    }
    let r = match d {
        0 => "0",
        1 => "1",
        2 => "2",
        3 => "3",
        4 => "4",
        5 => "5",
        6 => "6",
        7 => "7",
        8 => "8",
        _ => "9",
    };
    assert(r@ =~= seq![digit_char(d as int)]);
    r
}

/// Appends the decimal numeral of `n` to `s`.
pub fn push_nat_decimal(s: &mut String, n: u64)
    ensures
        final(s)@ == old(s)@ + nat_decimal(n as nat),
    decreases n,
{
    if n < 10 {
        s.append(digit_str(n));
    } else {
        push_nat_decimal(s, n / 10);
        s.append(digit_str(n % 10));
        assert(old(s)@ + nat_decimal(n as nat) =~= old(s)@ + nat_decimal((n / 10) as nat) + seq![
            digit_char((n % 10) as int),
        ]);
    }
}

/// Appends the decimal numeral of `v` to `s`, as `Display` writes it.
pub fn push_i32_decimal(s: &mut String, v: i32)
    ensures
        final(s)@ == old(s)@ + int_decimal(v as int),
{
    if v < 0 {
        s.append("-");
        proof {
            reveal_strlit("-");
        }
        let magnitude: u64 = (0 - (v as i64)) as u64;
        push_nat_decimal(s, magnitude);
        assert(old(s)@ + int_decimal(v as int) =~= old(s)@ + seq!['-'] + nat_decimal(
            magnitude as nat,
        ));
    } else {
        push_nat_decimal(s, v as u64);
    }
}

} // verus!

verus! {

proof fn lemma_nat_decimal_digits(n: nat)
    ensures
        nat_decimal(n).len() > 0,
        all_digits(nat_decimal(n)),
        digits_value(nat_decimal(n)) == n,
    decreases n,
{
    if n >= 10 {
        lemma_nat_decimal_digits(n / 10);
        let p = nat_decimal(n / 10);
        let s = p + seq![digit_char((n % 10) as int)];
        assert(s.drop_last() =~= p);
        assert(s.last() as int - '0' as int == n % 10);
        assert(n == (n / 10) * 10 + n % 10);
        assert(nat_decimal(n) == s);
        assert(digits_value(s) == digits_value(p) * 10 + (s.last() as int - '0' as int));
        assert(digits_value(p) == n / 10);
        assert(digits_value(s) == n);
        assert forall|i: int| 0 <= i < s.len() implies is_digit_spec(#[trigger] s[i]) by {
            if i < p.len() {
                assert(s[i] == p[i]);
            }
        }
    } else {
        let s = nat_decimal(n);
        assert(s.drop_last() =~= Seq::<char>::empty());
        assert(digits_value(s.drop_last()) == 0);
        assert(s.last() as int - '0' as int == n);
        assert(digits_value(s) == n);
    }
}

/// The numeral that `push_i32_decimal` writes reads back, by `parse_i32`, as the same number.
pub proof fn lemma_decimal_round_trip(v: i32)
    ensures
        parse_i32_spec(int_decimal(v as int)) == Some(v),
{
    let s = int_decimal(v as int);
    if v < 0 {
        let m = nat_decimal((-v) as nat);
        lemma_nat_decimal_digits((-v) as nat);
        assert(s.skip(1) =~= m);
        assert(s[0] == '-');
    } else {
        lemma_nat_decimal_digits(v as nat);
        assert(is_digit_spec(s[0]));
    }
}

/// Every string that reads as an integer reads as a float too: integers are numbers.
pub proof fn lemma_integer_is_number(s: Seq<char>)
    requires
        parse_int_spec(s) is Some,
    ensures
        is_float_literal(s),
{
    let d = strip_sign(s);
    assert(is_digit_spec(d[0]));
    assert(is_mantissa(d));
}

} // verus!
