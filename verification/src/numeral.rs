//! Decimal numerals as sequences of characters: what they are worth, how they
//! are read and how they are written.

use vstd::prelude::*;

verus! {

/// `c` is one of the ten ASCII digits.
pub open spec fn is_digit(c: char) -> bool {
    48 <= c as u32 <= 57
}

/// The number a digit stands for.
pub open spec fn digit_value(c: char) -> nat
    recommends
        is_digit(c),
{
    (c as u32 - 48) as nat
}

/// The digit that stands for `d`.
pub open spec fn digit_char(d: nat) -> char
    recommends
        d < 10,
{
    (d + 48) as char
}

/// Every character of `s` is a digit.
pub open spec fn all_digits(s: Seq<char>) -> bool {
    forall|i: int| 0 <= i < s.len() ==> is_digit(#[trigger] s[i])
}

/// The number written by a string of digits, most significant first. The
/// empty string is worth nothing.
pub open spec fn decimal_value(digits: Seq<char>) -> nat
    decreases digits.len(),
{
    if digits.len() == 0 {
        0
    } else {
        10 * decimal_value(digits.drop_last()) + digit_value(digits.last())
    }
}

/// A numeral without the plus sign it may start with.
pub open spec fn numeral_digits(s: Seq<char>) -> Seq<char> {
    if s.len() > 0 && s[0] == '+' {
        s.subrange(1, s.len() as int)
    } else {
        s
    }
}

/// `s` is a numeral: an optional plus sign, then at least one digit and
/// nothing but digits.
pub open spec fn is_numeral(s: Seq<char>) -> bool {
    numeral_digits(s).len() > 0 && all_digits(numeral_digits(s))
}

/// What `s` is worth when read leniently: its value where it is a numeral,
/// and zero where it is not.
pub open spec fn numeral_value(s: Seq<char>) -> nat {
    if is_numeral(s) {
        decimal_value(numeral_digits(s))
    } else {
        0
    }
}

/// Ten to the power `e`.
pub open spec fn pow10(e: nat) -> nat
    decreases e,
{
    if e == 0 {
        1
    } else {
        10 * pow10((e - 1) as nat)
    }
}

/// The shortest string of digits that writes `n`.
pub open spec fn decimal_digits(n: nat) -> Seq<char>
    decreases n,
{
    if n < 10 {
        seq![digit_char(n)]
    } else {
        decimal_digits(n / 10).push(digit_char(n % 10))
    }
}

/// The last `width` digits of `n`, with leading zeros where `n` is short.
pub open spec fn fixed_digits(n: nat, width: nat) -> Seq<char>
    decreases width,
{
    if width == 0 {
        Seq::empty()
    } else {
        fixed_digits(n / 10, (width - 1) as nat).push(digit_char(n % 10))
    }
}

/// A digit character and its value determine each other.
pub proof fn lemma_digit_char(d: nat)
    requires
        d < 10,
    ensures
        is_digit(digit_char(d)),
        digit_value(digit_char(d)) == d,
        digit_char(d) != '.',
        digit_char(d) != '+',
{
}

/// Appending one digit multiplies the value by ten and adds the digit.
pub proof fn lemma_decimal_value_push(digits: Seq<char>, c: char)
    ensures
        decimal_value(digits.push(c)) == 10 * decimal_value(digits) + digit_value(c),
{
    assert(digits.push(c).drop_last() =~= digits);
}

/// A string of digits is worth at least as much as any of its prefixes.
pub proof fn lemma_decimal_value_prefix(digits: Seq<char>, k: int)
    requires
        0 <= k <= digits.len(),
    ensures
        decimal_value(digits.take(k)) <= decimal_value(digits),
    decreases digits.len(),
{
    if k == digits.len() {
        assert(digits.take(k) =~= digits);
    } else {
        assert(digits.drop_last().take(k) =~= digits.take(k));
        lemma_decimal_value_prefix(digits.drop_last(), k);
    }
}

/// A string of `n` digits is worth less than ten to the `n`.
pub proof fn lemma_decimal_value_bound(digits: Seq<char>)
    requires
        all_digits(digits),
    ensures
        decimal_value(digits) < pow10(digits.len()),
    decreases digits.len(),
{
    if digits.len() > 0 {
        assert(is_digit(digits[digits.len() - 1]));
        lemma_decimal_value_bound(digits.drop_last());
    }
}

/// Writing a number and reading it back gives the number.
pub proof fn lemma_decimal_digits_value(n: nat)
    ensures
        decimal_digits(n).len() >= 1,
        all_digits(decimal_digits(n)),
        decimal_value(decimal_digits(n)) == n,
    decreases n,
{
    lemma_digit_char(n % 10);
    if n < 10 {
        let s = seq![digit_char(n)];
        assert(s.drop_last() =~= Seq::<char>::empty());
        assert(decimal_value(s.drop_last()) == 0);
    } else {
        lemma_decimal_digits_value(n / 10);
        lemma_decimal_value_push(decimal_digits(n / 10), digit_char(n % 10));
    }
}

/// Writing a number in a fixed width and reading it back gives the number,
/// where the width is enough for it.
pub proof fn lemma_fixed_digits_value(n: nat, width: nat)
    requires
        n < pow10(width),
    ensures
        fixed_digits(n, width).len() == width,
        all_digits(fixed_digits(n, width)),
        decimal_value(fixed_digits(n, width)) == n,
    decreases width,
{
    if width > 0 {
        lemma_digit_char(n % 10);
        lemma_fixed_digits_value(n / 10, (width - 1) as nat);
        lemma_decimal_value_push(fixed_digits(n / 10, (width - 1) as nat), digit_char(n % 10));
    }
}

/// A string of digits with no plus sign in front is a numeral worth its
/// decimal value.
pub proof fn lemma_digits_are_numeral(digits: Seq<char>)
    requires
        digits.len() > 0,
        all_digits(digits),
    ensures
        is_numeral(digits),
        numeral_value(digits) == decimal_value(digits),
{
    assert(is_digit(digits[0]));
}

/// Tells whether `c` is one of the ten ASCII digits.
pub fn is_digit_char(c: char) -> (b: bool)
    ensures
        b == is_digit(c),
{
    let code: u32 = c as u32;
    48 <= code && code <= 57
}

/// Reads `chars[from..to]` leniently. `None` says that the numeral is worth
/// more than a `u64` can hold.
#[verifier::loop_isolation(false)]
pub(crate) fn read_numeral(chars: &Vec<char>, from: usize, to: usize) -> (r: Option<u64>)
    requires
        from <= to <= chars.len(),
    ensures
        match r {
            Some(v) => v == numeral_value(chars@.subrange(from as int, to as int)),
            None => numeral_value(chars@.subrange(from as int, to as int)) > u64::MAX,
        },
{
    let ghost text = chars@.subrange(from as int, to as int);
    let start: usize = if from < to && chars[from] == '+' {
        from + 1
    } else {
        from
    };
    let ghost digits = chars@.subrange(start as int, to as int);
    assert(numeral_digits(text) =~= digits);
    if start == to {
        return Some(0);
    }
    let mut i: usize = start;
    while i < to
        invariant
            start <= i <= to,
            forall|k: int| 0 <= k < i - start ==> is_digit(#[trigger] digits[k]),
        decreases to - i,
    {
        if !is_digit_char(chars[i]) {
            assert(!is_digit(digits[i - start]));
            return Some(0);
        }
        i += 1;
    }
    assert(all_digits(digits));
    let mut value: u64 = 0;
    let mut j: usize = start;
    while j < to
        invariant
            start <= j <= to,
            value == decimal_value(digits.take(j - start)),
        decreases to - j,
    {
        proof {
            assert(is_digit(digits[j - start]));
            assert(digits.take(j - start + 1) =~= digits.take(j - start).push(digits[j - start]));
            lemma_decimal_value_push(digits.take(j - start), digits[j - start]);
            lemma_decimal_value_prefix(digits, j - start + 1);
        }
        let digit: u64 = (chars[j] as u32 - 48) as u64;
        let tens = match value.checked_mul(10) {
            Some(tens) => tens,
            None => {
                return None;
            },
        };
        value = match tens.checked_add(digit) {
            Some(next) => next,
            None => {
                return None;
            },
        };
        j += 1;
    }
    assert(digits.take(to - start) =~= digits);
    Some(value)
}

} // verus!
