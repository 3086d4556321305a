//! Reading the version number that a type model carries as text.

use vstd::prelude::*;
use crate::text::{decimal_text, digit_char};

verus! {

/// Whether the character is one of the ten decimal digits.
pub open spec fn is_digit(c: char) -> bool {
    '0' <= c && c <= '9'
}

/// The number a decimal digit stands for; zero for any other character.
pub open spec fn digit_value(c: char) -> nat {
    if is_digit(c) {
        (c as int - '0' as int) as nat
    } else {
        0
    }
}

/// Whether every character of the text is a decimal digit.
pub open spec fn all_digits(text: Seq<char>) -> bool {
    forall|i: int| 0 <= i < text.len() ==> is_digit(#[trigger] text[i])
}

/// The number that a run of decimal digits stands for, the first digit weighing most.
pub open spec fn decimal_value(digits: Seq<char>) -> nat
    decreases digits.len(),
{
    if digits.len() == 0 {
        0
    } else {
        decimal_value(digits.drop_last()) * 10 + digit_value(digits.last())
    }
}

/// Where the digits of a version text begin: behind a leading plus sign, if there is one.
pub open spec fn digits_start(text: Seq<char>) -> int {
    if text.len() > 0 && text[0] == '+' {
        1
    } else {
        0
    }
}

/// The version number that a text stands for: an optional plus sign, then at least one
/// decimal digit and nothing else, with a value that fits in 32 bits.
pub open spec fn parse_version(text: Seq<char>) -> Option<u32> {
    let digits = text.subrange(digits_start(text), text.len() as int);
    if digits.len() > 0 && all_digits(digits) && decimal_value(digits) <= u32::MAX {
        Some(decimal_value(digits) as u32)
    } else {
        None
    }
}

/// A run of digits is worth at least as much as any of its prefixes.
pub proof fn lemma_decimal_value_prefix(digits: Seq<char>, len: int)
    requires
        0 <= len <= digits.len(),
    ensures
        decimal_value(digits.take(len)) <= decimal_value(digits),
    decreases digits.len(),
{
    if len == digits.len() {
        assert(digits.take(len) =~= digits);
    } else {
        lemma_decimal_value_prefix(digits.drop_last(), len);
        assert(digits.drop_last().take(len) =~= digits.take(len));
    }
}

/// Reads a version number from its text.
pub fn parse_model_version(text: &str) -> (version: Option<u32>)
    ensures
        version == parse_version(text@),
{
    let mut value: u64 = 0;
    let mut first = true;
    let mut any = false;
    let mut failed = false;
    for c in it: text.chars()
        invariant
            it.seq() == text@,
            first == (it.index() == 0),
            failed ==> parse_version(text@) is None,
            !failed ==> {
                let start = if it.index() == 0 { 0 } else { digits_start(text@) };
                let digits = text@.subrange(start, it.index() as int);
                &&& all_digits(digits)
                &&& value == decimal_value(digits)
                &&& value <= u32::MAX
                &&& any == (digits.len() > 0)
            },
    {
        let ghost k = it.index() as int;
        let ghost whole = text@.subrange(digits_start(text@), text@.len() as int);
        if !failed {
            if first && c == '+' {
                assert(text@.subrange(1, k + 1) =~= Seq::<char>::empty());
            } else if '0' <= c && c <= '9' {
                let digit = (c as u32 - '0' as u32) as u64;
                let ghost start = if k == 0 { 0 } else { digits_start(text@) };
                let ghost before = text@.subrange(start, k);
                let ghost after = text@.subrange(digits_start(text@), k + 1);
                proof {
                    assert(after.drop_last() =~= before);
                    assert(after.last() == c);
                    assert(all_digits(after));
                }
                value = value * 10 + digit;
                any = true;
                if value > 0xffff_ffff {
                    failed = true;
                    proof {
                        assert(whole.take(after.len() as int) =~= after);
                        lemma_decimal_value_prefix(whole, after.len() as int);
                    }
                }
            } else {
                failed = true;
                proof {
                    if k >= digits_start(text@) {
                        assert(whole[k - digits_start(text@)] == c);
                    }
                }
            }
        }
        first = false;
    }
    if failed || !any {
        None
    } else {
        Some(value as u32)
    }
}

/// The decimal text of a number is a run of digits that is worth the number.
pub proof fn lemma_decimal_text_value(n: nat)
    ensures
        decimal_text(n).len() > 0,
        all_digits(decimal_text(n)),
        decimal_value(decimal_text(n)) == n,
    decreases n,
{
    if n < 10 {
        let text = seq![digit_char(n)];
        assert(text.drop_last() =~= Seq::<char>::empty());
        assert(decimal_value(text.drop_last()) == 0);
        assert(text.last() == digit_char(n));
    } else {
        lemma_decimal_text_value(n / 10);
        let front = decimal_text(n / 10);
        let text = front.push(digit_char(n % 10));
        assert(text.drop_last() =~= front);
        assert(text.last() == digit_char(n % 10));
        assert forall|i: int| 0 <= i < text.len() implies is_digit(#[trigger] text[i]) by {
            if i < front.len() {
                assert(text[i] == front[i]);
            }
        }
    }
}

/// A version written in decimal reads back as itself.
pub proof fn lemma_written_version_reads_back(version: u32)
    ensures
        parse_version(decimal_text(version as nat)) == Some(version),
{
    let text = decimal_text(version as nat);
    lemma_decimal_text_value(version as nat);
    assert(is_digit(text[0]));
    assert(text.subrange(0, text.len() as int) =~= text);
}

} // verus!
