//! The numeric text fields of the window: what they show and how what the
//! user typed becomes a setting.

use vstd::prelude::*;
use crate::keys::{decimal, digit_char, push_decimal};

verus! {

/// One more than the largest `u32`.
pub open spec fn u32_bound() -> nat {
    0x1_0000_0000
}

pub open spec fn is_digit(c: char) -> bool {
    '0' <= c && c <= '9'
}

pub open spec fn digit_value(c: char) -> nat {
    (c as int - '0' as int) as nat
}

/// The number that a string of decimal digits denotes.
pub open spec fn digits_value(s: Seq<char>) -> nat
    decreases s.len(),
{
    if s.len() == 0 {
        0
    } else {
        digits_value(s.drop_last()) * 10 + digit_value(s.last())
    }
}

/// `s` without the one leading `+` it may have.
pub open spec fn unsigned_digits(s: Seq<char>) -> Seq<char> {
    if s.len() > 0 && s[0] == '+' {
        s.drop_first()
    } else {
        s
    }
}

/// What parsing `s` as a `u32` gives: an optional `+`, then one or more
/// decimal digits whose value fits in a `u32`; anything else is refused.
pub open spec fn parse_u32_spec(s: Seq<char>) -> Option<u32> {
    let d = unsigned_digits(s);
    if d.len() > 0 && (forall|i: int| 0 <= i < d.len() ==> is_digit(#[trigger] d[i]))
        && digits_value(d) < u32_bound() {
        Some(digits_value(d) as u32)
    } else {
        None
    }
}

proof fn lemma_saturated_step(v: nat, acc: nat, d: nat)
    requires
        d < 10,
        acc == (if v < u32_bound() { v } else { u32_bound() }),
    ensures
        (if acc * 10 + d < u32_bound() { acc * 10 + d } else { u32_bound() }) == (if v * 10 + d
            < u32_bound() {
            v * 10 + d
        } else {
            u32_bound()
        }),
{
    if v >= u32_bound() {
        assert(v * 10 + d >= u32_bound()) by (nonlinear_arith)
            requires
                v >= u32_bound(),
        ;
        assert(acc * 10 + d >= u32_bound()) by (nonlinear_arith)
            requires
                acc == u32_bound(),
        ;
    }
}

/// Parses `text` as a `u32` the way `str::parse::<u32>` does.
pub fn parse_u32(text: &str) -> (r: Option<u32>)
    ensures
        r == parse_u32_spec(text@),
{
    let n = text.unicode_len();
    let mut start: usize = 0;
    if n > 0 && text.get_char(0) == '+' {
        start = 1;
    }
    let ghost d = unsigned_digits(text@);
    assert(d =~= text@.subrange(start as int, n as int));
    if start == n {
        return None;
    }
    let mut i = start;
    let mut acc: u64 = 0;
    while i < n
        invariant
            start <= i <= n,
            n == text@.len(),
            d == text@.subrange(start as int, n as int),
            d == unsigned_digits(text@),
            forall|j: int| 0 <= j < i - start ==> is_digit(#[trigger] d[j]),
            acc == (if digits_value(d.subrange(0, i - start)) < u32_bound() {
                digits_value(d.subrange(0, i - start))
            } else {
                u32_bound()
            }),
        decreases n - i,
    {
        let c = text.get_char(i);
        if !('0' <= c && c <= '9') {
            assert(d[i - start] == text@[i as int]);
            assert(!is_digit(d[i - start]));
            return None;
        }
        let digit = (c as u32) - ('0' as u32);
        proof {
            let k = i - start;
            assert(d.subrange(0, k + 1).drop_last() =~= d.subrange(0, k));
            assert(d.subrange(0, k + 1).last() == c);
            lemma_saturated_step(digits_value(d.subrange(0, k)), acc as nat, digit as nat);
        }
        acc = acc * 10 + digit as u64;
        if acc > 0x1_0000_0000 {
            acc = 0x1_0000_0000;
        }
        i = i + 1;
    }
    assert(d.subrange(0, n - start) =~= d);
    if acc > 0xffff_ffff {
        None
    } else {
        Some(acc as u32)
    }
}

/// The interval field: unreadable text counts as 1 ms, and so does 0.
pub open spec fn interval_value(text: Seq<char>) -> u32 {
    match parse_u32_spec(text) {
        Some(v) => if v >= 1 { v } else { 1 },
        None => 1,
    }
}

/// The hold and jitter fields: unreadable text counts as 0.
pub open spec fn amount_value(text: Seq<char>) -> u32 {
    match parse_u32_spec(text) {
        Some(v) => v,
        None => 0,
    }
}

/// Reads the interval field.
pub fn parse_interval(text: &str) -> (ms: u32)
    ensures
        ms == interval_value(text@),
        ms >= 1,
{
    match parse_u32(text) {
        Some(v) => if v >= 1 { v } else { 1 },
        None => 1,
    }
}

/// Reads a hold or jitter field.
pub fn parse_amount(text: &str) -> (ms: u32)
    ensures
        ms == amount_value(text@),
{
    match parse_u32(text) {
        Some(v) => v,
        None => 0,
    }
}

/// The text a field shows for a value.
pub fn field_text(value: u32) -> (text: String)
    ensures
        text@ == decimal(value as nat),
{
    let mut text = String::new();
    push_decimal(&mut text, value);
    proof {
        assert(text@ =~= decimal(value as nat));
    }
    text
}

/// The decimal rendering of `n` is a nonempty string of digits denoting `n`.
pub proof fn lemma_decimal_digits(n: nat)
    ensures
        decimal(n).len() > 0,
        forall|i: int| 0 <= i < decimal(n).len() ==> is_digit(#[trigger] decimal(n)[i]),
        digits_value(decimal(n)) == n,
    decreases n,
{
    let k = n % 10;
    assert(digit_char(k) as int == '0' as int + k);
    assert(digit_value(digit_char(k)) == k);
    assert(n == (n / 10) * 10 + k);
    if n >= 10 {
        lemma_decimal_digits(n / 10);
        assert(decimal(n).drop_last() =~= decimal(n / 10));
        assert(decimal(n).last() == digit_char(k));
        assert(digit_value(digit_char(k)) == k);
        assert(digits_value(decimal(n)) == digits_value(decimal(n / 10)) * 10 + k);
        assert(digits_value(decimal(n)) == n);
    } else {
        assert(decimal(n).drop_last() =~= Seq::<char>::empty());
        assert(decimal(n).last() == digit_char(k));
        assert(digits_value(Seq::<char>::empty()) == 0);
        assert(digits_value(decimal(n)) == n);
    }
}

/// A value written into a field reads back as itself.
pub proof fn lemma_field_roundtrip(value: u32)
    ensures
        parse_u32_spec(decimal(value as nat)) == Some(value),
        amount_value(decimal(value as nat)) == value,
        value >= 1 ==> interval_value(decimal(value as nat)) == value,
{
    lemma_decimal_digits(value as nat);
    let s = decimal(value as nat);
    assert(is_digit(s[0]));
    assert(unsigned_digits(s) == s);
}

} // verus!
