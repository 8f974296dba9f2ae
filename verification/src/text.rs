//! Text helpers: decimal numbers, lowercase, and building strings by character.

use vstd::prelude::*;

verus! {

/// Whether `c` is one of the ten ASCII digits.
pub open spec fn is_digit(c: char) -> bool {
    '0' <= c && c <= '9'
}

/// The value of the ASCII digit `c`.
pub open spec fn digit_value(c: char) -> nat
    recommends
        is_digit(c),
{
    (c as int - '0' as int) as nat
}

/// The ASCII digit that stands for `d`.
pub open spec fn digit_char(d: nat) -> char
    recommends
        d < 10,
{
    (d + 48) as u8 as char
}

/// The decimal numeral of `n`, without sign or leading zeros.
pub open spec fn decimal_digits(n: nat) -> Seq<char>
    decreases n,
{
    if n < 10 {
        seq![digit_char(n)]
    } else {
        decimal_digits(n / 10).push(digit_char(n % 10))
    }
}

/// The number that a non-empty run of ASCII digits denotes; `None` for the
/// empty sequence and for one that holds anything but digits.
pub open spec fn decimal_value(s: Seq<char>) -> Option<nat>
    decreases s.len(),
{
    if s.len() == 0 {
        None
    } else if !is_digit(s.last()) {
        None
    } else if s.len() == 1 {
        Some(digit_value(s.last()))
    } else {
        match decimal_value(s.drop_last()) {
            Some(v) => Some(v * 10 + digit_value(s.last())),
            None => None,
        }
    }
}

/// What parsing `s` as an unsigned 16-bit number gives: an optional `+`, then
/// only digits, denoting a value of at most 65535.
pub open spec fn parse_u16_spec(s: Seq<char>) -> Option<u16> {
    let digits = if s.len() > 0 && s[0] == '+' {
        s.skip(1)
    } else {
        s
    };
    match decimal_value(digits) {
        Some(v) => if v <= 0xffff {
            Some(v as u16)
        } else {
            None
        },
        None => None,
    }
}

/// The numeral of `n` denotes `n`, is not empty and starts with a digit.
pub proof fn lemma_decimal_round_trip(n: nat)
    ensures
        decimal_value(decimal_digits(n)) == Some(n),
        decimal_digits(n).len() >= 1,
        decimal_digits(n)[0] != '+',
    decreases n,
{
    if n < 10 {
        assert(decimal_digits(n) =~= seq![digit_char(n)]);
        assert(digit_char(n) as int == n + 48);
    } else {
        lemma_decimal_round_trip(n / 10);
        let head = decimal_digits(n / 10);
        let all = decimal_digits(n);
        assert(all == head.push(digit_char(n % 10)));
        assert(all.drop_last() =~= head);
        assert(all.last() == digit_char(n % 10));
        assert(digit_char(n % 10) as int == n % 10 + 48);
        assert(all[0] == head[0]);
    }
}

/// Two numbers with the same numeral are the same number.
pub proof fn lemma_decimal_injective(a: nat, b: nat)
    requires
        decimal_digits(a) == decimal_digits(b),
    ensures
        a == b,
{
    lemma_decimal_round_trip(a);
    lemma_decimal_round_trip(b);
}

/// Numerals read back.
///
/// The numeral that is written for a 16-bit number parses back to that
/// number.
pub proof fn law_numeral_reads_back(n: u16)
    ensures
        parse_u16_spec(decimal_digits(n as nat)) == Some(n),
{
    lemma_decimal_round_trip(n as nat);
}

/// Once a prefix denotes `v`, whatever follows can only denote more.
proof fn lemma_decimal_value_grows(s: Seq<char>, i: int)
    requires
        0 < i <= s.len(),
        decimal_value(s.take(i)) is Some,
    ensures
        decimal_value(s) is Some ==> decimal_value(s)->0 >= decimal_value(s.take(i))->0,
    decreases s.len() - i,
{
    if i == s.len() {
        assert(s.take(i) =~= s);
    } else {
        if decimal_value(s) is Some {
            assert(s.len() > 1);
            let front = s.drop_last();
            assert(front.take(i) =~= s.take(i));
            lemma_decimal_value_grows(front, i);
        }
    }
}

/// A sequence with a character that is no digit denotes nothing.
proof fn lemma_decimal_value_rejects(s: Seq<char>, i: int)
    requires
        0 <= i < s.len(),
        !is_digit(s[i]),
    ensures
        decimal_value(s) is None,
    decreases s.len(),
{
    if i < s.len() - 1 {
        lemma_decimal_value_rejects(s.drop_last(), i);
    }
}

/// Appends one character to a string.
///
/// Trusted: stands for `String::push`, which appends `c` at the end and
/// leaves the rest of the string as it was.
#[verifier::external_body]
pub(crate) fn push_char(s: &mut String, c: char)
    ensures
        final(s)@ == old(s)@.push(c),
{
    s.push(c)
}

/// What `str::to_lowercase` returns for a string with these characters.
pub uninterp spec fn lowercase_of(s: Seq<char>) -> Seq<char>;

/// The lowercase form of `s`.
///
/// Trusted: stands for `str::to_lowercase`. The Unicode case mapping is not
/// written out here; the contract only names the result, as a function of the
/// characters of `s`.
#[verifier::external_body]
pub(crate) fn to_lowercase(s: &str) -> (r: String)
    ensures
        r@ == lowercase_of(s@),
{
    s.to_lowercase()
}

/// Appends the decimal numeral of `n` to `s`.
pub fn push_decimal(s: &mut String, n: u16)
    ensures
        final(s)@ == old(s)@ + decimal_digits(n as nat),
    decreases n,
{
    if n >= 10 {
        push_decimal(s, n / 10);
    }
    let d: u8 = (n % 10) as u8;
    let c: char = (48u8 + d) as char;
    push_char(s, c);
    proof {
        assert(c == digit_char((n % 10) as nat));
        assert(s@ =~= old(s)@ + decimal_digits(n as nat));
    }
}

/// Parses an unsigned 16-bit decimal number: an optional `+` and then digits
/// only. Anything else, and any value above 65535, gives `None`.
pub fn parse_u16(s: &str) -> (r: Option<u16>)
    ensures
        r == parse_u16_spec(s@),
{
    let len: usize = s.unicode_len();
    if len == 0 {
        return None;
    }
    let start: usize = if s.get_char(0) == '+' {
        1
    } else {
        0
    };
    let ghost digits: Seq<char> = s@.skip(start as int);
    proof {
        assert(s@.skip(0) =~= s@);
        assert(digits == if s@[0] == '+' {
            s@.skip(1)
        } else {
            s@
        });
    }
    if start == len {
        return None;
    }
    let mut acc: u32 = 0;
    let mut i: usize = start;
    while i < len
        invariant
            start <= i <= len,
            len == s@.len(),
            start < len,
            digits == s@.skip(start as int),
            parse_u16_spec(s@) == match decimal_value(digits) {
                Some(v) => if v <= 0xffff {
                    Some(v as u16)
                } else {
                    None
                },
                None => None,
            },
            acc <= 0xffff,
            i == start ==> acc == 0,
            i > start ==> decimal_value(digits.take(i - start)) == Some(acc as nat),
        decreases len - i,
    {
        let c: char = s.get_char(i);
        proof {
            assert(digits[i - start] == c);
            assert(digits.take(i - start + 1).last() == c);
            assert(digits.take(i - start + 1).drop_last() =~= digits.take(i - start));
        }
        if !('0' <= c && c <= '9') {
            proof {
                lemma_decimal_value_rejects(digits, i - start);
            }
            return None;
        }
        let d: u32 = (c as u32) - ('0' as u32);
        let next: u32 = acc * 10 + d;
        proof {
            assert(decimal_value(digits.take(i - start + 1)) == Some(next as nat));
        }
        if next > 0xffff {
            proof {
                lemma_decimal_value_grows(digits, i - start + 1);
            }
            return None;
        }
        acc = next;
        i = i + 1;
    }
    proof {
        assert(digits.take(len - start) =~= digits);
    }
    Some(acc as u16)
}

} // verus!
