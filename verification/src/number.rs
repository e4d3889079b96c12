//! Unsigned bytes as text: reading them in base ten and sixteen, and writing
//! them.
//!
//! A number is an optional `+` followed by one or more digits of the base;
//! anything else, and any value above 255, is no byte.

use vstd::prelude::*;

verus! {

/// The value of `c` as a digit, in any base up to thirty-six.
pub open spec fn digit_value(c: char) -> Option<nat> {
    if '0' <= c <= '9' {
        Some((c as nat - '0' as nat) as nat)
    } else if 'a' <= c <= 'z' {
        Some((c as nat - 'a' as nat + 10) as nat)
    } else if 'A' <= c <= 'Z' {
        Some((c as nat - 'A' as nat + 10) as nat)
    } else {
        None
    }
}

/// Whether `c` is a digit of the base `radix`.
pub open spec fn is_digit(c: char, radix: nat) -> bool {
    digit_value(c) matches Some(v) && v < radix
}

/// Whether `s` holds digits of the base `radix` and nothing else.
pub open spec fn all_digits(s: Seq<char>, radix: nat) -> bool {
    forall|i: int| 0 <= i < s.len() ==> is_digit(#[trigger] s[i], radix)
}

/// The number that the digits `s` write in the base `radix`.
pub open spec fn digits_value(s: Seq<char>, radix: nat) -> nat
    decreases s.len(),
{
    if s.len() == 0 {
        0
    } else {
        digits_value(s.drop_last(), radix) * radix + digit_value(s.last()).unwrap_or(0)
    }
}

/// `s` without a leading `+`.
pub open spec fn unsigned_part(s: Seq<char>) -> Seq<char> {
    if s.len() > 0 && s[0] == '+' {
        s.skip(1)
    } else {
        s
    }
}

/// The byte that `s` writes in the base `radix`, if it writes one.
pub open spec fn byte_in_base(s: Seq<char>, radix: nat) -> Option<u8> {
    let digits = unsigned_part(s);
    if digits.len() > 0 && all_digits(digits, radix) && digits_value(digits, radix) <= 255 {
        Some(digits_value(digits, radix) as u8)
    } else {
        None
    }
}

/// The byte that `s` writes in base ten.
pub open spec fn decimal_byte(s: Seq<char>) -> Option<u8> {
    byte_in_base(s, 10)
}

/// The byte that `s` writes in base sixteen.
pub open spec fn hex_byte(s: Seq<char>) -> Option<u8> {
    byte_in_base(s, 16)
}

/// A number is at least as large as what any of its prefixes writes.
pub proof fn lemma_prefix_value(s: Seq<char>, k: int, radix: nat)
    requires
        0 <= k <= s.len(),
        radix >= 1,
    ensures
        digits_value(s.take(k), radix) <= digits_value(s, radix),
    decreases s.len(),
{
    if k == s.len() {
        assert(s.take(k) == s);
    } else {
        lemma_prefix_value(s.drop_last(), k, radix);
        assert(s.drop_last().take(k) == s.take(k));
        assert(digits_value(s.drop_last(), radix) <= digits_value(s.drop_last(), radix) * radix)
            by (nonlinear_arith)
            requires
                radix >= 1,
        ;
    }
}

/// The value of `c` as a digit of the base `radix`.
pub fn digit_in_base(c: char, radix: u32) -> (r: Option<u32>)
    requires
        radix <= 36,
    ensures
        r is Some == is_digit(c, radix as nat),
        r matches Some(v) ==> digit_value(c) == Some(v as nat),
{
    let code: u32 = c as u32;
    let value: u32 = if '0' <= c && c <= '9' {
        code - ('0' as u32)
    } else if 'a' <= c && c <= 'z' {
        code - ('a' as u32) + 10
    } else if 'A' <= c && c <= 'Z' {
        code - ('A' as u32) + 10
    } else {
        return None;
    };
    if value < radix {
        Some(value)
    } else {
        None
    }
}

/// The byte that the characters of `chars` from `from` up to `to` write in
/// the base `radix`.
#[verifier::loop_isolation(false)]
pub fn byte_between(chars: &Vec<char>, from: usize, to: usize, radix: u32) -> (r: Option<u8>)
    requires
        from <= to <= chars@.len(),
        1 <= radix <= 36,
    ensures
        r == byte_in_base(chars@.subrange(from as int, to as int), radix as nat),
{
    let ghost text = chars@.subrange(from as int, to as int);
    let start: usize = if from < to && chars[from] == '+' {
        from + 1
    } else {
        from
    };
    let ghost digits = unsigned_part(text);
    assert(digits == chars@.subrange(start as int, to as int));
    if start == to {
        return None;
    }
    let mut value: u32 = 0;
    let mut i: usize = start;
    while i < to
        invariant
            start <= i <= to <= chars@.len(),
            1 <= radix <= 36,
            digits == chars@.subrange(start as int, to as int),
            all_digits(digits.take(i - start), radix as nat),
            value == digits_value(digits.take(i - start), radix as nat),
            value <= 255,
        decreases to - i,
    {
        let ghost seen = digits.take(i - start);
        let ghost next = digits.take(i - start + 1);
        assert(next.drop_last() == seen);
        assert(next.last() == chars@[i as int]);
        match digit_in_base(chars[i], radix) {
            None => {
                assert(!is_digit(digits[i - start], radix as nat));
                return None;
            },
            Some(digit) => {
                assert(value * radix <= 255 * 36) by (nonlinear_arith)
                    requires
                        value <= 255,
                        radix <= 36,
                ;
                let larger: u32 = value * radix + digit;
                assert(larger == digits_value(next, radix as nat));
                if larger > 255 {
                    proof {
                        lemma_prefix_value(digits, i - start + 1, radix as nat);
                    }
                    return None;
                }
                value = larger;
            },
        }
        i += 1;
    }
    assert(digits.take(to - start) == digits);
    Some(value as u8)
}

} // verus!
