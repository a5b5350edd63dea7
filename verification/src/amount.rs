//! Amounts of SOL as people type them, and the lamports they stand for.
//!
//! An amount is a whole part, optionally followed by one decimal point and a
//! fractional part. The fractional part counts to nine places: shorter ones
//! are filled up with zeros, longer ones are cut. Either part is read
//! leniently, so that a part that is no numeral counts as zero.

use vstd::prelude::*;
use crate::errors::Error;
use crate::numeral::{
    all_digits, decimal_digits, decimal_value, digit_char, digit_value, fixed_digits, is_digit,
    is_numeral, lemma_decimal_digits_value, lemma_decimal_value_bound, lemma_decimal_value_push,
    lemma_digits_are_numeral, lemma_fixed_digits_value, numeral_digits, numeral_value, pow10,
    read_numeral,
};
use crate::text::chars_of;

verus! {

/// How many lamports make one SOL.
pub const LAMPORTS_PER_SOL: u64 = 1_000_000_000;

/// How many decimal places of a SOL a lamport is.
pub const FRACTION_DIGITS: usize = 9;

/// The nine places that a fractional part is read as: its own characters as
/// far as they go, then zeros.
pub open spec fn fraction_field(fraction: Seq<char>) -> Seq<char> {
    Seq::new(
        FRACTION_DIGITS as nat,
        |i: int|
            if i < fraction.len() {
                fraction[i]
            } else {
                '0'
            },
    )
}

/// What comes before the first decimal point: all of `text` where it has none.
pub open spec fn whole_part(text: Seq<char>) -> Seq<char> {
    match text.index_of_first('.') {
        Some(dot) => text.subrange(0, dot),
        None => text,
    }
}

/// The lamports that `text` stands for, however many they are. `None` where
/// `text` has more than one decimal point.
pub open spec fn amount_value(text: Seq<char>) -> Option<nat> {
    match text.index_of_first('.') {
        None => Some(numeral_value(text) * LAMPORTS_PER_SOL as nat),
        Some(dot) => {
            let fraction = text.subrange(dot + 1, text.len() as int);
            if fraction.contains('.') {
                None
            } else {
                Some(
                    numeral_value(text.subrange(0, dot)) * LAMPORTS_PER_SOL as nat + numeral_value(
                        fraction_field(fraction),
                    ),
                )
            }
        },
    }
}

/// What reading `text` as an amount gives: its lamports where they fit in 64
/// bits, and `InvalidAmount` in every other case.
pub open spec fn parsed_amount(text: Seq<char>) -> Result<u64, Error> {
    match amount_value(text) {
        Some(lamports) if lamports <= u64::MAX => Ok(lamports as u64),
        _ => Err(Error::InvalidAmount),
    }
}

/// An amount of lamports written out in SOL: the whole part, a decimal point
/// and all nine places.
pub open spec fn amount_text(lamports: nat) -> Seq<char> {
    decimal_digits(lamports / LAMPORTS_PER_SOL as nat) + seq!['.'] + fixed_digits(
        lamports % LAMPORTS_PER_SOL as nat,
        FRACTION_DIGITS as nat,
    )
}

/// A string of `count` zeros.
pub open spec fn zeros(count: nat) -> Seq<char> {
    Seq::new(count, |i: int| '0')
}

/// The place where a scan for the first decimal point stops tells what
/// `index_of_first` is.
proof fn lemma_first_dot(text: Seq<char>, at: int)
    requires
        0 <= at <= text.len(),
        forall|k: int| 0 <= k < at ==> text[k] != '.',
        at < text.len() ==> text[at] == '.',
    ensures
        text.index_of_first('.') == (if at < text.len() {
            Some(at)
        } else {
            None
        }),
{
    text.index_of_first_ensures('.');
    match text.index_of_first('.') {
        Some(index) => {
            assert(text[index] == '.');
            if at < text.len() && at < index {
                assert(text[at] != '.');
            }
        },
        None => {
            if at < text.len() {
                assert(text.contains('.'));
            }
        },
    }
}

/// The index of the first decimal point at or after `from`, or the length of
/// `chars` where there is none.
fn find_dot(chars: &Vec<char>, from: usize) -> (at: usize)
    requires
        from <= chars.len(),
    ensures
        from <= at <= chars.len(),
        forall|k: int| from <= k < at ==> chars@[k] != '.',
        at < chars.len() ==> chars@[at as int] == '.',
{
    let mut at: usize = from;
    while at < chars.len()
        invariant
            from <= at <= chars.len(),
            forall|k: int| from <= k < at ==> chars@[k] != '.',
        decreases chars.len() - at,
    {
        if chars[at] == '.' {
            return at;
        }
        at += 1;
    }
    at
}

/// The nine places of the fractional part `chars[from..]`.
fn fraction_field_of(chars: &Vec<char>, from: usize) -> (field: Vec<char>)
    requires
        from <= chars.len(),
    ensures
        field@ == fraction_field(chars@.subrange(from as int, chars.len() as int)),
{
    let ghost fraction = chars@.subrange(from as int, chars.len() as int);
    let mut field: Vec<char> = Vec::new();
    let mut i: usize = 0;
    while i < FRACTION_DIGITS
        invariant
            i <= FRACTION_DIGITS,
            from <= chars.len(),
            fraction == chars@.subrange(from as int, chars.len() as int),
            field@ == fraction_field(fraction).take(i as int),
        decreases FRACTION_DIGITS - i,
    {
        let c = if i < chars.len() - from {
            chars[from + i]
        } else {
            '0'
        };
        field.push(c);
        assert(field@ =~= fraction_field(fraction).take(i + 1));
        i += 1;
    }
    assert(field@ =~= fraction_field(fraction));
    field
}

/// Puts a whole part and a fractional part together, where either may have
/// come out beyond 64 bits.
fn combine(whole: Option<u64>, fraction: Option<u64>) -> (r: Result<u64, Error>)
    ensures
        r == match (whole, fraction) {
            (Some(w), Some(f)) if w * LAMPORTS_PER_SOL + f <= u64::MAX => Ok::<u64, Error>(
                (w * LAMPORTS_PER_SOL + f) as u64,
            ),
            _ => Err(Error::InvalidAmount),
        },
{
    let (w, f) = match (whole, fraction) {
        (Some(w), Some(f)) => (w, f),
        _ => {
            return Err(Error::InvalidAmount);
        },
    };
    match w.checked_mul(LAMPORTS_PER_SOL) {
        Some(scaled) => match scaled.checked_add(f) {
            Some(lamports) => Ok(lamports),
            None => Err(Error::InvalidAmount),
        },
        None => Err(Error::InvalidAmount),
    }
}

/// Reads an amount of SOL and gives it in lamports.
///
/// Fails with `InvalidAmount` where the text has more than one decimal point
/// or stands for more lamports than 64 bits hold. A whole or fractional part
/// that is no numeral counts as zero, and places after the ninth are dropped.
pub fn parse_amount(amount_str: &str) -> (r: Result<u64, Error>)
    ensures
        r == parsed_amount(amount_str@),
{
    let chars = chars_of(amount_str);
    let n = chars.len();
    let dot = find_dot(&chars, 0);
    proof {
        lemma_first_dot(chars@, dot as int);
    }
    if dot == n {
        let whole = read_numeral(&chars, 0, n);
        assert(chars@.subrange(0, n as int) =~= chars@);
        assert(forall|w: nat| #[trigger] (w * LAMPORTS_PER_SOL as nat) >= w) by (nonlinear_arith);
        return combine(whole, Some(0));
    }
    let ghost fraction = chars@.subrange(dot + 1, n as int);
    let second = find_dot(&chars, dot + 1);
    if second < n {
        assert(fraction[second - dot - 1] == '.');
        return Err(Error::InvalidAmount);
    }
    assert(!fraction.contains('.')) by {
        if fraction.contains('.') {
            let i = choose|i: int| 0 <= i < fraction.len() && fraction[i] == '.';
            assert(chars@[dot + 1 + i] == '.');
        }
    }
    let whole = read_numeral(&chars, 0, dot);
    let field = fraction_field_of(&chars, dot + 1);
    let places = read_numeral(&field, 0, FRACTION_DIGITS);
    assert(field@.subrange(0, FRACTION_DIGITS as int) =~= field@);
    assert(forall|w: nat| #[trigger] (w * LAMPORTS_PER_SOL as nat) >= w) by (nonlinear_arith);
    combine(whole, places)
}

/// The one-character string that writes the digit `d`.
fn digit_str(d: u64) -> (s: &'static str)
    requires
        d < 10,
    ensures
        s@ == seq![digit_char(d as nat)],
{
    proof {
        reveal_strlit("0");
        reveal_strlit("1");
        reveal_strlit("2");
        reveal_strlit("3");
        reveal_strlit("4");
        reveal_strlit("5");
        reveal_strlit("6");
        reveal_strlit("7");
        reveal_strlit("8");
        reveal_strlit("9");
    }
    let s = match d {
        0 => "0",
        1 => "1",
        2 => "2",
        3 => "3",
        4 => "4",
        5 => "5",
        6 => "6",
        7 => "7",
        8 => "8",
        _ => "9",
    };
    assert(s@ =~= seq![digit_char(d as nat)]);
    s
}

/// Appends the shortest decimal writing of `n`.
fn push_decimal(out: &mut String, n: u64)
    ensures
        final(out)@ == old(out)@ + decimal_digits(n as nat),
    decreases n,
{
    if n >= 10 {
        push_decimal(out, n / 10);
    }
    out.append(digit_str(n % 10));
    assert(out@ =~= old(out)@ + decimal_digits(n as nat));
}

/// Appends the last `width` digits of `n`.
fn push_fixed(out: &mut String, n: u64, width: usize)
    ensures
        final(out)@ == old(out)@ + fixed_digits(n as nat, width as nat),
    decreases width,
{
    if width > 0 {
        push_fixed(out, n / 10, width - 1);
        out.append(digit_str(n % 10));
    }
    assert(out@ =~= old(out)@ + fixed_digits(n as nat, width as nat));
}

/// Writes an amount of lamports in SOL, with a decimal point and all nine
/// places, so that `parse_amount` reads the same amount back.
pub fn format_amount(lamports: u64) -> (text: String)
    ensures
        text@ == amount_text(lamports as nat),
        parsed_amount(text@) == Ok::<u64, Error>(lamports),
{
    let mut text = String::new();
    push_decimal(&mut text, lamports / LAMPORTS_PER_SOL);
    proof {
        reveal_strlit(".");
    }
    text.append(".");
    push_fixed(&mut text, lamports % LAMPORTS_PER_SOL, FRACTION_DIGITS);
    proof {
        assert(".".view() =~= seq!['.']);
        assert(text@ =~= amount_text(lamports as nat));
        lemma_amount_text_parses_back(lamports as nat);
    }
    text
}

/// Ten to the ninth is the number of lamports in a SOL.
proof fn lemma_scale_is_pow10()
    ensures
        pow10(FRACTION_DIGITS as nat) == LAMPORTS_PER_SOL,
{
    reveal_with_fuel(pow10, 10);
}

/// Zeros at the end of a string of digits multiply its value by a power of
/// ten.
pub proof fn lemma_trailing_zeros(digits: Seq<char>, count: nat)
    ensures
        decimal_value(digits + zeros(count)) == decimal_value(digits) * pow10(count),
    decreases count,
{
    if count == 0 {
        assert(digits + zeros(0) =~= digits);
        assert(pow10(0) == 1);
        assert(decimal_value(digits) * 1 == decimal_value(digits));
    } else {
        let shorter = digits + zeros((count - 1) as nat);
        assert(digits + zeros(count) =~= shorter.push('0'));
        lemma_decimal_value_push(shorter, '0');
        lemma_trailing_zeros(digits, (count - 1) as nat);
        assert(digit_value('0') == 0);
        assert(pow10(count) == 10 * pow10((count - 1) as nat));
        assert(10 * (decimal_value(digits) * pow10((count - 1) as nat)) == decimal_value(digits)
            * (10 * pow10((count - 1) as nat))) by (nonlinear_arith);
    }
}

/// A decimal number is read as what it says: where the whole part is a
/// string of digits and the fractional part a string of at most nine, the
/// amount is the whole part in SOL and the fractional part in its decimal
/// places, each place a tenth of the one before, down to the single lamport.
pub proof fn lemma_decimal_amount(whole: Seq<char>, places: Seq<char>)
    requires
        whole.len() > 0,
        all_digits(whole),
        all_digits(places),
        places.len() <= FRACTION_DIGITS,
    ensures
        amount_value(whole + seq!['.'] + places) == Some(
            decimal_value(whole) * LAMPORTS_PER_SOL as nat + decimal_value(places) * pow10(
                (FRACTION_DIGITS - places.len()) as nat,
            ),
        ),
{
    let text = whole + seq!['.'] + places;
    let dot = whole.len() as int;
    assert forall|k: int| 0 <= k < dot implies text[k] != '.' by {
        assert(is_digit(whole[k]));
    }
    assert(text[dot] == '.');
    lemma_first_dot(text, dot);
    assert(text.subrange(0, dot) =~= whole);
    assert(text.subrange(dot + 1, text.len() as int) =~= places);
    assert(!places.contains('.')) by {
        if places.contains('.') {
            let i = choose|i: int| 0 <= i < places.len() && places[i] == '.';
            assert(is_digit(places[i]));
        }
    }
    let field = fraction_field(places);
    assert(field =~= places + zeros((FRACTION_DIGITS - places.len()) as nat));
    assert forall|k: int| 0 <= k < field.len() implies is_digit(#[trigger] field[k]) by {
        if k < places.len() {
            assert(is_digit(places[k]));
        }
    }
    lemma_digits_are_numeral(whole);
    lemma_digits_are_numeral(field);
    lemma_trailing_zeros(places, (FRACTION_DIGITS - places.len()) as nat);
}

/// A whole number of SOL is read as that many times the lamports in one.
pub proof fn lemma_whole_amount(whole: Seq<char>)
    requires
        whole.len() > 0,
        all_digits(whole),
    ensures
        amount_value(whole) == Some(decimal_value(whole) * LAMPORTS_PER_SOL as nat),
{
    assert forall|k: int| 0 <= k < whole.len() implies whole[k] != '.' by {
        assert(is_digit(whole[k]));
    }
    lemma_first_dot(whole, whole.len() as int);
    lemma_digits_are_numeral(whole);
}

/// Reading a written amount gives back the lamports that were written,
/// whatever their number.
pub proof fn lemma_amount_text_parses_back(lamports: nat)
    ensures
        amount_value(amount_text(lamports)) == Some(lamports),
{
    let whole = decimal_digits(lamports / LAMPORTS_PER_SOL as nat);
    let places = fixed_digits(lamports % LAMPORTS_PER_SOL as nat, FRACTION_DIGITS as nat);
    lemma_scale_is_pow10();
    lemma_decimal_digits_value(lamports / LAMPORTS_PER_SOL as nat);
    lemma_fixed_digits_value(lamports % LAMPORTS_PER_SOL as nat, FRACTION_DIGITS as nat);
    lemma_decimal_amount(whole, places);
    assert(pow10(0) == 1);
    assert(decimal_value(places) * 1 == decimal_value(places));
    assert(amount_text(lamports) == whole + seq!['.'] + places);
    assert(lamports == (lamports / LAMPORTS_PER_SOL as nat) * LAMPORTS_PER_SOL as nat + lamports
        % LAMPORTS_PER_SOL as nat) by (nonlinear_arith);
}

/// Reading is stable under writing: where a text is read as an amount, the
/// amount written out and read again is that same amount.
pub proof fn lemma_reparse_is_stable(text: Seq<char>)
    requires
        parsed_amount(text) is Ok,
    ensures
        parsed_amount(amount_text(parsed_amount(text)->Ok_0 as nat)) == parsed_amount(text),
{
    lemma_amount_text_parses_back(parsed_amount(text)->Ok_0 as nat);
}

/// A whole part worth more SOL than 64 bits of lamports hold is refused,
/// whatever follows the decimal point.
pub proof fn lemma_oversized_whole_part_rejected(text: Seq<char>)
    requires
        numeral_value(whole_part(text)) * LAMPORTS_PER_SOL > u64::MAX,
    ensures
        parsed_amount(text) == Err::<u64, Error>(Error::InvalidAmount),
{
}

/// A text with two decimal points is refused.
pub proof fn lemma_second_point_rejected(text: Seq<char>, i: int, j: int)
    requires
        0 <= i < j < text.len(),
        text[i] == '.',
        text[j] == '.',
    ensures
        parsed_amount(text) == Err::<u64, Error>(Error::InvalidAmount),
{
    text.index_of_first_ensures('.');
    assert(text.contains('.'));
    let dot = text.index_of_first('.')->0;
    assert(dot <= i) by {
        if i < dot {
            assert(text[i] != '.');
        }
    }
    let fraction = text.subrange(dot + 1, text.len() as int);
    assert(fraction[j - dot - 1] == '.');
}

/// The fractional part never reaches a whole SOL, whatever it holds.
pub proof fn lemma_fraction_below_one_sol(fraction: Seq<char>)
    ensures
        numeral_value(fraction_field(fraction)) < LAMPORTS_PER_SOL,
{
    let field = fraction_field(fraction);
    if is_numeral(field) {
        let digits = numeral_digits(field);
        lemma_decimal_value_bound(digits);
        reveal_with_fuel(pow10, 10);
    }
}

/// Places after the ninth do not count: cutting the fractional part to nine
/// places changes nothing.
pub proof fn lemma_extra_places_dropped(fraction: Seq<char>)
    requires
        fraction.len() >= FRACTION_DIGITS,
    ensures
        fraction_field(fraction) == fraction.take(FRACTION_DIGITS as int),
        fraction_field(fraction.take(FRACTION_DIGITS as int)) == fraction_field(fraction),
{
    assert(fraction_field(fraction) =~= fraction.take(FRACTION_DIGITS as int));
    assert(fraction_field(fraction.take(FRACTION_DIGITS as int)) =~= fraction_field(fraction));
}

/// A short fractional part counts as if zeros followed it.
pub proof fn lemma_missing_places_are_zero(fraction: Seq<char>)
    requires
        fraction.len() < FRACTION_DIGITS,
    ensures
        fraction_field(fraction.push('0')) == fraction_field(fraction),
{
    assert(fraction_field(fraction.push('0')) =~= fraction_field(fraction));
}

} // verus!
