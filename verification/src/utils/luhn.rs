use vstd::prelude::*;
use crate::utils::text::{chars_of, ascii_digit, digit_u32, is_ascii_digit, digit_value};

verus! {

/// The ASCII digits of `s`, in order; every other character is dropped.
pub open spec fn ascii_digits(s: Seq<char>) -> Seq<char>
    decreases s.len(),
{
    if s.len() == 0 {
        Seq::empty()
    } else if is_ascii_digit(s.last()) {
        ascii_digits(s.drop_last()).push(s.last())
    } else {
        ascii_digits(s.drop_last())
    }
}

/// What one digit adds to the Luhn sum: its value, or, at every second
/// position counted from the right, its doubled value with 9 taken off
/// when that exceeds 9.
pub open spec fn luhn_term(d: int, doubled: bool) -> int {
    if doubled {
        if 2 * d > 9 { 2 * d - 9 } else { 2 * d }
    } else {
        d
    }
}

/// The Luhn sum of the last `k` digits of `d` (position 0 is the rightmost).
pub open spec fn luhn_partial(d: Seq<char>, k: int) -> int
    decreases k,
{
    if k <= 0 {
        0
    } else {
        luhn_partial(d, k - 1) + luhn_term(digit_value(d[d.len() - k]), (k - 1) % 2 == 1)
    }
}

/// Every character of `d` is `'0'`.
pub open spec fn all_zero(d: Seq<char>) -> bool {
    forall|i: int| 0 <= i < d.len() ==> d[i] == '0'
}

/// A bank card number passes the check when its ASCII digits number 16 to 19,
/// are not all zero, and their Luhn sum is a multiple of 10.
pub open spec fn luhn_valid(s: Seq<char>) -> bool {
    let d = ascii_digits(s);
    &&& 16 <= d.len() <= 19
    &&& !all_zero(d)
    &&& luhn_partial(d, d.len() as int) % 10 == 0
}

proof fn lemma_ascii_digits_all_digits(s: Seq<char>)
    ensures
        forall|i: int| 0 <= i < ascii_digits(s).len() ==> is_ascii_digit(#[trigger] ascii_digits(s)[i]),
        ascii_digits(s).len() <= s.len(),
    decreases s.len(),
{
    if s.len() > 0 {
        lemma_ascii_digits_all_digits(s.drop_last());
    }
}

/// The ASCII digits of `s`, computed.
fn collect_digits(s: &Vec<char>) -> (d: Vec<char>)
    ensures
        d@ == ascii_digits(s@),
{
    let mut d: Vec<char> = Vec::new();
    let mut i: usize = 0;
    while i < s.len()
        invariant
            i <= s.len(),
            d@ == ascii_digits(s@.subrange(0, i as int)),
        decreases s.len() - i,
    {
        let c = s[i];
        assert(s@.subrange(0, i as int + 1).drop_last() == s@.subrange(0, i as int));
        if ascii_digit(c) {
            d.push(c);
        }
        i = i + 1;
    }
    assert(s@.subrange(0, s@.len() as int) == s@);
    d
}

/// Checks a bank card number with the Luhn algorithm. Characters other than
/// ASCII digits (spaces, dashes) are ignored.
pub fn validate(card_number: &str) -> (ok: bool)
    ensures
        ok == luhn_valid(card_number@),
{
    let chars = chars_of(card_number);
    let digits = collect_digits(&chars);
    proof {
        lemma_ascii_digits_all_digits(card_number@);
    }
    let len = digits.len();
    if len < 16 || len > 19 {
        return false;
    }
    let mut all_zeros = true;
    let mut i: usize = 0;
    while i < len
        invariant
            i <= len,
            len == digits.len(),
            all_zeros == (forall|j: int| 0 <= j < i ==> digits@[j] == '0'),
        decreases len - i,
    {
        if digits[i] != '0' {
            all_zeros = false;
        }
        i = i + 1;
    }
    if all_zeros {
        return false;
    }
    let mut sum: u32 = 0;
    let mut k: usize = 0;
    while k < len
        invariant
            k <= len,
            len == digits.len(),
            16 <= len <= 19,
            forall|j: int| 0 <= j < digits.len() ==> is_ascii_digit(#[trigger] digits@[j]),
            sum == luhn_partial(digits@, k as int),
            sum <= 9 * k,
        decreases len - k,
    {
        let d = digit_u32(digits[len - 1 - k]);
        let term: u32 = if k % 2 == 1 {
            let doubled = d * 2;
            if doubled > 9 { doubled - 9 } else { doubled }
        } else {
            d
        };
        sum = sum + term;
        k = k + 1;
    }
    sum % 10 == 0
}


/// Only the digits of a card number count: two texts with the same ASCII
/// digits in the same order are both valid or both invalid, so spaces or
/// dashes between digit groups change nothing.
pub proof fn lemma_luhn_ignores_separators(a: Seq<char>, b: Seq<char>)
    requires
        ascii_digits(a) == ascii_digits(b),
    ensures
        luhn_valid(a) == luhn_valid(b),
{
}

} // verus!
