//! Decimal and hexadecimal text of integers.
use vstd::prelude::*;

use crate::text::{is_ascii_digit, lemma_take_push};

verus! {

pub open spec fn digit_char(d: nat) -> char
    recommends
        d < 10,
{
    ((d + 48) as u32) as char
}

pub open spec fn digit_value(c: char) -> nat {
    ((c as u32) - 48) as nat
}

/// Decimal digits of `n`, most significant first, without leading zeros.
pub open spec fn decimal_text(n: nat) -> Seq<char>
    decreases n,
{
    if n < 10 {
        seq![digit_char(n)]
    } else {
        decimal_text(n / 10).push(digit_char(n % 10))
    }
}

/// Decimal text of a signed integer, with a leading `-` when negative.
pub open spec fn signed_decimal_text(n: int) -> Seq<char> {
    if n < 0 {
        seq!['-'] + decimal_text((-n) as nat)
    } else {
        decimal_text(n as nat)
    }
}

pub open spec fn all_digits(s: Seq<char>) -> bool {
    forall|i: int| 0 <= i < s.len() ==> is_ascii_digit(#[trigger] s[i])
}

/// The value of a string of decimal digits.
pub open spec fn digits_value(s: Seq<char>) -> nat
    decreases s.len(),
{
    if s.len() == 0 {
        0
    } else {
        digits_value(s.drop_last()) * 10 + digit_value(s.last())
    }
}

/// The digits of an unsigned integer text: one leading `+` is allowed.
pub open spec fn unsigned_digits(s: Seq<char>) -> Seq<char> {
    if s.len() > 0 && s[0] == '+' {
        s.drop_first()
    } else {
        s
    }
}

/// What `str::parse` gives for an unsigned integer type whose largest value is `max`.
pub open spec fn parse_unsigned(s: Seq<char>, max: nat) -> Option<nat> {
    let d = unsigned_digits(s);
    if d.len() > 0 && all_digits(d) && digits_value(d) <= max {
        Some(digits_value(d))
    } else {
        None
    }
}

proof fn lemma_digits_value_monotone(s: Seq<char>, i: int)
    requires
        0 <= i <= s.len(),
        all_digits(s),
    ensures
        digits_value(s.take(i)) <= digits_value(s),
    decreases s.len() - i,
{
    if i < s.len() {
        lemma_take_push(s, i);
        assert(s.take(i + 1).drop_last() == s.take(i));
        lemma_digits_value_monotone(s, i + 1);
    } else {
        assert(s.take(i) =~= s);
    }
}

/// Parses an unsigned decimal integer no larger than `max`.
pub fn parse_decimal(v: &Vec<char>, max: u64) -> (r: Option<u64>)
    ensures
        r is Some == parse_unsigned(v@, max as nat) is Some,
        r matches Some(n) ==> n == parse_unsigned(v@, max as nat)->0,
{
    let start: usize = if v.len() > 0 && v[0] == '+' {
        1
    } else {
        0
    };
    let ghost d = unsigned_digits(v@);
    assert(d =~= v@.subrange(start as int, v@.len() as int));
    if start >= v.len() {
        return None;
    }
    let mut acc: u64 = 0;
    let mut i: usize = start;
    assert(d.take(0) =~= Seq::<char>::empty());
    while i < v.len()
        invariant
            start <= i <= v.len(),
            start < v.len(),
            d == v@.subrange(start as int, v@.len() as int),
            d == unsigned_digits(v@),
            all_digits(d.take(i - start)),
            acc == digits_value(d.take(i - start)),
            acc <= max,
        decreases v.len() - i,
    {
        let c = v[i];
        let ghost k = (i - start) as int;
        assert(d[k] == c);
        if !('0' <= c && c <= '9') {
            assert(!is_ascii_digit(d[k]));
            assert(!all_digits(d));
            return None;
        }
        let dv = (c as u32 - 48) as u64;
        proof {
            lemma_take_push(d, k);
            assert(all_digits(d.take(k + 1)));
        }
        if dv > max || acc > (max - dv) / 10 {
            proof {
                assert(digits_value(d.take(k + 1)) == acc * 10 + dv);
                if dv <= max {
                    assert(acc * 10 + dv > max) by (nonlinear_arith)
                        requires
                            acc > (max - dv) / 10,
                            dv <= max,
                    ;
                }
                if all_digits(d) {
                    lemma_digits_value_monotone(d, k + 1);
                }
            }
            return None;
        }
        proof {
            assert(acc * 10 + dv <= max) by (nonlinear_arith)
                requires
                    acc <= (max - dv) / 10,
                    dv <= max,
            ;
        }
        acc = acc * 10 + dv;
        i = i + 1;
    }
    assert(d.take(d.len() as int) =~= d);
    Some(acc)
}

/// Decimal text of an unsigned integer.
pub fn decimal_chars(n: u64) -> (r: Vec<char>)
    ensures
        r@ == decimal_text(n as nat),
    decreases n,
{
    let d = (n % 10) as u32 + 48;
    let c = crate::text::ascii_char(d);
    if n < 10 {
        let mut r: Vec<char> = Vec::new();
        r.push(c);
        assert(r@ =~= seq![digit_char(n as nat)]);
        r
    } else {
        let mut r = decimal_chars(n / 10);
        r.push(c);
        r
    }
}

/// Decimal text of a signed integer.
pub fn signed_decimal_chars(n: i64) -> (r: Vec<char>)
    ensures
        r@ == signed_decimal_text(n as int),
{
    if n < 0 {
        let m: u64 = (0i128 - n as i128) as u64;
        let digits = decimal_chars(m);
        let mut r: Vec<char> = Vec::new();
        r.push('-');
        let r = crate::text::concat_chars(&r, &digits);
        assert(r@ =~= seq!['-'] + decimal_text((-n) as nat));
        r
    } else {
        decimal_chars(n as u64)
    }
}

/// Lower-case hexadecimal digit of a value below 16.
pub open spec fn hex_char(d: nat) -> char {
    if d < 10 {
        digit_char(d)
    } else {
        ((d + 87) as u32) as char
    }
}

/// The `k`-th hex digit (most significant first) of a 128-bit value.
pub open spec fn nibble(id: u128, k: int) -> nat {
    ((id as nat) / vstd::arithmetic::power::pow(16, (31 - k) as nat) as nat) % 16
}

/// The 32 lower-case hex digits of a 128-bit value, most significant first.
pub open spec fn hex32(id: u128) -> Seq<char> {
    Seq::new(32, |k: int| hex_char(nibble(id, k)))
}

/// Hyphenated lower-case text of a UUID held as a 128-bit value
/// (`xxxxxxxx-xxxx-xxxx-xxxx-xxxxxxxxxxxx`).
pub open spec fn uuid_text(id: u128) -> Seq<char> {
    let h = hex32(id);
    h.subrange(0, 8) + seq!['-'] + h.subrange(8, 12) + seq!['-'] + h.subrange(12, 16) + seq!['-']
        + h.subrange(16, 20) + seq!['-'] + h.subrange(20, 32)
}

} // verus!
