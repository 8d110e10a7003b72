//! Decimal rendering of numbers, as derivation paths and error details use it.

use vstd::prelude::*;

verus! {

/// `String::push` appends one character to the end of the string and leaves
/// what was there untouched, as the standard library documents it.
pub assume_specification[ String::push ](s: &mut String, ch: char)
    ensures
        final(s)@ == old(s)@.push(ch),
;

/// The character that stands for the digit `d`.
pub open spec fn digit_char(d: int) -> char {
    if d == 0 {
        '0'
    } else if d == 1 {
        '1'
    } else if d == 2 {
        '2'
    } else if d == 3 {
        '3'
    } else if d == 4 {
        '4'
    } else if d == 5 {
        '5'
    } else if d == 6 {
        '6'
    } else if d == 7 {
        '7'
    } else if d == 8 {
        '8'
    } else {
        '9'
    }
}

/// Whether `c` is one of the ten decimal digits.
pub open spec fn is_digit(c: char) -> bool {
    '0' <= c <= '9'
}

/// Whether `s` holds decimal digits only.
pub open spec fn all_digits(s: Seq<char>) -> bool {
    forall|i: int| 0 <= i < s.len() ==> is_digit(#[trigger] s[i])
}

/// The decimal numeral of `n`: no sign, no leading zero, `"0"` for zero.
pub open spec fn decimal(n: nat) -> Seq<char>
    decreases n,
{
    if n < 10 {
        seq![digit_char(n as int)]
    } else {
        decimal(n / 10).push(digit_char((n % 10) as int))
    }
}

/// Different digits have different characters, and each is a digit.
pub proof fn lemma_digit_char(d: int, e: int)
    requires
        0 <= d < 10,
        0 <= e < 10,
    ensures
        is_digit(digit_char(d)),
        digit_char(d) == digit_char(e) ==> d == e,
{
}

/// A numeral is never empty and holds digits only.
pub proof fn lemma_decimal_shape(n: nat)
    ensures
        decimal(n).len() >= 1,
        all_digits(decimal(n)),
        n >= 10 ==> decimal(n).len() >= 2,
    decreases n,
{
    if n >= 10 {
        lemma_decimal_shape(n / 10);
        lemma_digit_char((n % 10) as int, 0);
    } else {
        lemma_digit_char(n as int, 0);
    }
}

/// Different numbers have different numerals.
pub proof fn lemma_decimal_injective(a: nat, b: nat)
    requires
        decimal(a) == decimal(b),
    ensures
        a == b,
    decreases a,
{
    lemma_decimal_shape(a);
    lemma_decimal_shape(b);
    if a < 10 || b < 10 {
        assert(decimal(a).len() == 1 && decimal(b).len() == 1);
        assert(decimal(a)[0] == digit_char(a as int));
        assert(decimal(b)[0] == digit_char(b as int));
        lemma_digit_char(a as int, b as int);
    } else {
        let x = decimal(a / 10);
        let y = decimal(b / 10);
        let p = digit_char((a % 10) as int);
        let q = digit_char((b % 10) as int);
        assert(x.push(p).drop_last() =~= x);
        assert(y.push(q).drop_last() =~= y);
        assert(x.push(p).last() == p);
        assert(y.push(q).last() == q);
        lemma_decimal_injective(a / 10, b / 10);
        lemma_digit_char((a % 10) as int, (b % 10) as int);
        assert(p == q);
    }
}

/// Concatenation may be bracketed either way.
pub proof fn lemma_concat_assoc<T>(a: Seq<T>, b: Seq<T>, c: Seq<T>)
    ensures
        (a + b) + c == a + (b + c),
{
    assert((a + b) + c =~= a + (b + c));
}

/// Equal sequences with an equal beginning have an equal rest.
pub proof fn lemma_strip_prefix<T>(prefix: Seq<T>, a: Seq<T>, b: Seq<T>)
    requires
        prefix + a == prefix + b,
    ensures
        a == b,
{
    let n = prefix.len() as int;
    assert((prefix + a).len() == n + a.len());
    assert((prefix + b).len() == n + b.len());
    assert forall|i: int| 0 <= i < a.len() implies a[i] == b[i] by {
        assert((prefix + a)[n + i] == a[i]);
        assert((prefix + b)[n + i] == b[i]);
    }
    assert(a =~= b);
}

/// A run of digits is ended by the first character that is no digit: where
/// two texts made of such a run and a rest are equal, so are the runs and
/// the rests.
pub proof fn lemma_digit_run_split(
    run1: Seq<char>,
    rest1: Seq<char>,
    run2: Seq<char>,
    rest2: Seq<char>,
)
    requires
        all_digits(run1),
        all_digits(run2),
        rest1.len() > 0 && !is_digit(rest1[0]),
        rest2.len() > 0 && !is_digit(rest2[0]),
        run1 + rest1 == run2 + rest2,
    ensures
        run1 == run2,
        rest1 == rest2,
{
    let a = run1 + rest1;
    let b = run2 + rest2;
    if run1.len() < run2.len() {
        assert(a[run1.len() as int] == rest1[0]);
        assert(b[run1.len() as int] == run2[run1.len() as int]);
        assert(false);
    }
    if run2.len() < run1.len() {
        assert(b[run2.len() as int] == rest2[0]);
        assert(a[run2.len() as int] == run1[run2.len() as int]);
        assert(false);
    }
    let n = run1.len() as int;
    assert(run1 =~= a.subrange(0, n));
    assert(run2 =~= b.subrange(0, n));
    lemma_strip_prefix(run1, rest1, rest2);
}

/// A numeral is ended by the first character that is no digit: where two
/// texts made of a numeral and a rest are equal, so are the numbers and the
/// rests.
pub proof fn lemma_numeral_split(n1: nat, rest1: Seq<char>, n2: nat, rest2: Seq<char>)
    requires
        rest1.len() > 0 && !is_digit(rest1[0]),
        rest2.len() > 0 && !is_digit(rest2[0]),
        decimal(n1) + rest1 == decimal(n2) + rest2,
    ensures
        n1 == n2,
        rest1 == rest2,
{
    lemma_decimal_shape(n1);
    lemma_decimal_shape(n2);
    lemma_digit_run_split(decimal(n1), rest1, decimal(n2), rest2);
    lemma_decimal_injective(n1, n2);
}

/// The character of one digit.
fn digit(d: u64) -> (c: char)
    requires
        d < 10,
    ensures
        c == digit_char(d as int),
{
    if d == 0 {
        '0'
    } else if d == 1 {
        '1'
    } else if d == 2 {
        '2'
    } else if d == 3 {
        '3'
    } else if d == 4 {
        '4'
    } else if d == 5 {
        '5'
    } else if d == 6 {
        '6'
    } else if d == 7 {
        '7'
    } else if d == 8 {
        '8'
    } else {
        '9'
    }
}

/// Appends the decimal numeral of `n` to `s`.
pub fn push_decimal(s: &mut String, n: u64)
    ensures
        final(s)@ == old(s)@ + decimal(n as nat),
    decreases n,
{
    if n >= 10 {
        push_decimal(s, n / 10);
    }
    s.push(digit(n % 10));
}

} // verus!
