use vstd::prelude::*;
use crate::utils::text::{chars_of, ascii_digit, digit_u32, is_ascii_digit, digit_value};

verus! {

/// The weight of each of the first 17 digits of a resident identity number.
pub open spec fn weight(i: int) -> int {
    if i == 0 { 7 } else if i == 1 { 9 } else if i == 2 { 10 } else if i == 3 { 5 }
    else if i == 4 { 8 } else if i == 5 { 4 } else if i == 6 { 2 } else if i == 7 { 1 }
    else if i == 8 { 6 } else if i == 9 { 3 } else if i == 10 { 7 } else if i == 11 { 9 }
    else if i == 12 { 10 } else if i == 13 { 5 } else if i == 14 { 8 } else if i == 15 { 4 }
    else { 2 }
}

/// The check character selected by the weighted sum modulo 11.
pub open spec fn check_code(r: int) -> char {
    if r == 0 { '1' } else if r == 1 { '0' } else if r == 2 { 'X' } else if r == 3 { '9' }
    else if r == 4 { '8' } else if r == 5 { '7' } else if r == 6 { '6' } else if r == 7 { '5' }
    else if r == 8 { '4' } else if r == 9 { '3' } else { '2' }
}

/// The weighted sum of the first `k` digits of `s`.
pub open spec fn weighted_sum(s: Seq<char>, k: int) -> int
    decreases k,
{
    if k <= 0 {
        0
    } else {
        weighted_sum(s, k - 1) + digit_value(s[k - 1]) * weight(k - 1)
    }
}

/// The shape of an 18-character identity number: 17 ASCII digits, then a
/// digit, `X` or `x`.
pub open spec fn id_shape(s: Seq<char>) -> bool {
    &&& s.len() == 18
    &&& forall|i: int| 0 <= i < 17 ==> is_ascii_digit(#[trigger] s[i])
    &&& (is_ascii_digit(s[17]) || s[17] == 'X' || s[17] == 'x')
}

/// An identity number is valid when it has the right shape and its last
/// character is the check code of the weighted sum (a lowercase `x`
/// standing for `X`).
pub open spec fn id_valid(s: Seq<char>) -> bool {
    &&& id_shape(s)
    &&& {
        let expected = check_code(weighted_sum(s, 17) % 11);
        if s[17] == 'x' { expected == 'X' } else { s[17] == expected }
    }
}

/// Leap years of the Gregorian calendar.
pub open spec fn is_leap(year: int) -> bool {
    (year % 4 == 0 && year % 100 != 0) || year % 400 == 0
}

/// The number of days in a month (1 to 12) of a year.
pub open spec fn days_in_month(year: int, month: int) -> int {
    if month == 1 || month == 3 || month == 5 || month == 7 || month == 8 || month == 10 || month == 12 {
        31
    } else if month == 4 || month == 6 || month == 9 || month == 11 {
        30
    } else if is_leap(year) {
        29
    } else {
        28
    }
}

/// A calendar date with a year from 1900 to 2100.
pub open spec fn date_valid(year: int, month: int, day: int) -> bool {
    &&& 1900 <= year <= 2100
    &&& 1 <= month <= 12
    &&& 1 <= day <= days_in_month(year, month)
}

/// The number written by the decimal digits `s[from..to]`.
pub open spec fn digits_number(s: Seq<char>, from: int, to: int) -> int
    decreases to - from,
{
    if to <= from {
        0
    } else {
        digits_number(s, from, to - 1) * 10 + digit_value(s[to - 1])
    }
}

/// A valid identity number whose birth date (characters 6..14, as YYYYMMDD)
/// is a real date.
pub open spec fn id_valid_with_date(s: Seq<char>) -> bool {
    &&& id_valid(s)
    &&& date_valid(digits_number(s, 6, 10), digits_number(s, 10, 12), digits_number(s, 12, 14))
}

fn weight_of(i: usize) -> (w: u32)
    requires
        i < 17,
    ensures
        w == weight(i as int),
{
    if i == 0 { 7 } else if i == 1 { 9 } else if i == 2 { 10 } else if i == 3 { 5 }
    else if i == 4 { 8 } else if i == 5 { 4 } else if i == 6 { 2 } else if i == 7 { 1 }
    else if i == 8 { 6 } else if i == 9 { 3 } else if i == 10 { 7 } else if i == 11 { 9 }
    else if i == 12 { 10 } else if i == 13 { 5 } else if i == 14 { 8 } else if i == 15 { 4 }
    else { 2 }
}

fn check_code_of(r: u32) -> (c: char)
    ensures
        c == check_code(r as int),
{
    if r == 0 { '1' } else if r == 1 { '0' } else if r == 2 { 'X' } else if r == 3 { '9' }
    else if r == 4 { '8' } else if r == 5 { '7' } else if r == 6 { '6' } else if r == 7 { '5' }
    else if r == 8 { '4' } else if r == 9 { '3' } else { '2' }
}

/// Checks an 18-character resident identity number: 17 digits and a check
/// character computed from the weighted digit sum.
pub fn validate(id_number: &str) -> (ok: bool)
    ensures
        ok == id_valid(id_number@),
{
    let chars = chars_of(id_number);
    if chars.len() != 18 {
        return false;
    }
    let mut i: usize = 0;
    while i < 17
        invariant
            i <= 17,
            chars@ == id_number@,
            chars.len() == 18,
            forall|j: int| 0 <= j < i ==> is_ascii_digit(#[trigger] chars@[j]),
        decreases 17 - i,
    {
        if !ascii_digit(chars[i]) {
            return false;
        }
        i = i + 1;
    }
    let last = chars[17];
    if !ascii_digit(last) && last != 'X' && last != 'x' {
        return false;
    }
    let mut sum: u32 = 0;
    let mut k: usize = 0;
    while k < 17
        invariant
            k <= 17,
            chars@ == id_number@,
            chars.len() == 18,
            forall|j: int| 0 <= j < 17 ==> is_ascii_digit(#[trigger] chars@[j]),
            sum == weighted_sum(chars@, k as int),
            sum <= 90 * k,
        decreases 17 - k,
    {
        let d = digit_u32(chars[k]);
        let w = weight_of(k);
        assert(d * w <= 90) by (nonlinear_arith)
            requires
                d <= 9,
                w <= 10,
        ;
        sum = sum + d * w;
        k = k + 1;
    }
    let expected = check_code_of(sum % 11);
    if last == 'x' {
        return expected == 'X';
    }
    last == expected
}

/// Whether `year`-`month`-`day` is a real date with a year from 1900 to 2100.
pub fn is_valid_date(year: u32, month: u32, day: u32) -> (ok: bool)
    ensures
        ok == date_valid(year as int, month as int, day as int),
{
    if year < 1900 || year > 2100 {
        return false;
    }
    if month < 1 || month > 12 {
        return false;
    }
    let max_day: u32 = if month == 1 || month == 3 || month == 5 || month == 7 || month == 8
        || month == 10 || month == 12 {
        31
    } else if month == 4 || month == 6 || month == 9 || month == 11 {
        30
    } else if (year % 4 == 0 && year % 100 != 0) || year % 400 == 0 {
        29
    } else {
        28
    };
    1 <= day && day <= max_day
}

/// The number written by the ASCII digits `chars[from..to]`.
fn parse_digits(chars: &Vec<char>, from: usize, to: usize) -> (n: u32)
    requires
        from <= to <= chars.len(),
        to - from <= 4,
        forall|j: int| from <= j < to ==> is_ascii_digit(#[trigger] chars@[j]),
    ensures
        n == digits_number(chars@, from as int, to as int),
        n < 10000,
{
    let mut n: u32 = 0;
    let mut k: usize = from;
    while k < to
        invariant
            from <= k <= to,
            to <= chars.len(),
            to - from <= 4,
            forall|j: int| from <= j < to ==> is_ascii_digit(#[trigger] chars@[j]),
            n == digits_number(chars@, from as int, k as int),
            k - from == 0 ==> n == 0,
            k - from == 1 ==> n < 10,
            k - from == 2 ==> n < 100,
            k - from == 3 ==> n < 1000,
            k - from == 4 ==> n < 10000,
        decreases to - k,
    {
        let d = digit_u32(chars[k]);
        n = n * 10 + d;
        k = k + 1;
    }
    n
}

/// Checks an identity number and, in addition, that its birth date is a real
/// date.
pub fn validate_with_date(id_number: &str) -> (ok: bool)
    ensures
        ok == id_valid_with_date(id_number@),
{
    if !validate(id_number) {
        return false;
    }
    let chars = chars_of(id_number);
    let year = parse_digits(&chars, 6, 10);
    let month = parse_digits(&chars, 10, 12);
    let day = parse_digits(&chars, 12, 14);
    is_valid_date(year, month, day)
}


/// The check with the birth date is the stricter one: a number that passes
/// it passes the check-digit test too.
pub proof fn lemma_date_check_is_stricter(s: Seq<char>)
    ensures
        id_valid_with_date(s) ==> id_valid(s),
{
}

} // verus!
