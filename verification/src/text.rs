//! Decimal numerals and the other small pieces of text the bridge writes.

use vstd::prelude::*;
use vstd::utf8::*;

verus! {

/// The character that writes the digit `d`.
pub open spec fn digit_char(d: nat) -> char
    recommends
        d < 10,
{
    if d == 0 {
        '0'
    } else if d == 1 {
        '1'
    } else if d == 2 {
        '2'
    } else if d == 3 {
        '3'
    } else if d == 4 {
        '4'
    } else if d == 5 {
        '5'
    } else if d == 6 {
        '6'
    } else if d == 7 {
        '7'
    } else if d == 8 {
        '8'
    } else {
        '9'
    }
}

/// The decimal numeral of `n`: no sign, no leading zero, `"0"` for zero.
pub open spec fn decimal(n: nat) -> Seq<char>
    decreases n,
{
    if n < 10 {
        seq![digit_char(n)]
    } else {
        decimal(n / 10).push(digit_char(n % 10))
    }
}

fn digit_str(d: u64) -> (r: &'static str)
    requires
        d < 10,
    ensures
        r@ == seq![digit_char(d as nat)],
{
    proof {
        reveal_strlit("0");
        reveal_strlit("1");
        reveal_strlit("2");
        reveal_strlit("3");
        reveal_strlit("4");
        reveal_strlit("5");
        reveal_strlit("6");
        reveal_strlit("7");
        reveal_strlit("8");
        reveal_strlit("9");
    }
    let r = if d == 0 {
        "0"
    } else if d == 1 {
        "1"
    } else if d == 2 {
        "2"
    } else if d == 3 {
        "3"
    } else if d == 4 {
        "4"
    } else if d == 5 {
        "5"
    } else if d == 6 {
        "6"
    } else if d == 7 {
        "7"
    } else if d == 8 {
        "8"
    } else {
        "9"
    };
    assert(r@ =~= seq![digit_char(d as nat)]);
    r
}

/// Writes `n` in decimal.
pub fn decimal_text(n: u64) -> (r: String)
    ensures
        r@ == decimal(n as nat),
    decreases n,
{
    if n < 10 {
        String::from_str(digit_str(n))
    } else {
        let mut s = decimal_text(n / 10);
        s.append(digit_str(n % 10));
        assert(s@ =~= decimal((n / 10) as nat).push(digit_char((n % 10) as nat)));
        s
    }
}

/// The digit that the character `c` writes, for a character that writes one.
pub open spec fn digit_value(c: char) -> nat {
    if c == '1' {
        1
    } else if c == '2' {
        2
    } else if c == '3' {
        3
    } else if c == '4' {
        4
    } else if c == '5' {
        5
    } else if c == '6' {
        6
    } else if c == '7' {
        7
    } else if c == '8' {
        8
    } else if c == '9' {
        9
    } else {
        0
    }
}

/// `c` is one of the ten digits.
pub open spec fn is_digit(c: char) -> bool {
    c == digit_char(digit_value(c))
}

/// The number that a decimal numeral names, or `None` for a text that is
/// not the numeral of any number of 32 bits: the empty text, a text with a
/// sign, a space or a needless leading zero, a number too large.
pub open spec fn numeral_value(text: Seq<char>) -> Option<u32> {
    if exists|n: u32| decimal(n as nat) == text {
        Some(choose|n: u32| decimal(n as nat) == text)
    } else {
        None
    }
}

/// A numeral has at least one character, all of its characters are digits,
/// and it starts with a zero only where it is `"0"`.
pub proof fn lemma_decimal_shape(n: nat)
    ensures
        decimal(n).len() >= 1,
        n >= 10 ==> decimal(n).len() >= 2,
        forall|i: int| 0 <= i < decimal(n).len() ==> is_digit(#[trigger] decimal(n)[i]),
        decimal(n)[0] == '0' ==> n == 0,
    decreases n,
{
    if n >= 10 {
        lemma_decimal_shape(n / 10);
    }
}

/// Different numbers have different numerals.
pub proof fn lemma_decimal_injective(a: nat, b: nat)
    requires
        decimal(a) == decimal(b),
    ensures
        a == b,
    decreases a,
{
    lemma_decimal_shape(a);
    lemma_decimal_shape(b);
    if a >= 10 && b >= 10 {
        let x = decimal(a / 10);
        let y = decimal(b / 10);
        assert(x =~= decimal(a).drop_last());
        assert(y =~= decimal(b).drop_last());
        assert(decimal(a).last() == digit_char(a % 10));
        assert(decimal(b).last() == digit_char(b % 10));
        lemma_decimal_injective(a / 10, b / 10);
    } else {
        assert(decimal(a)[0] == decimal(b)[0]);
    }
}

/// A numeral names the number it was written for.
pub proof fn lemma_numeral_value(n: u32)
    ensures
        numeral_value(decimal(n as nat)) == Some(n),
{
    let m = choose|m: u32| decimal(m as nat) == decimal(n as nat);
    lemma_decimal_injective(m as nat, n as nat);
}

/// Ten to the power of `k`.
pub open spec fn pow10(k: nat) -> nat
    decreases k,
{
    if k == 0 {
        1
    } else {
        10 * pow10((k - 1) as nat)
    }
}

/// A number below ten to the `k` has a numeral of at most `k` characters;
/// from ten to the `k` on the numeral has more.
pub proof fn lemma_decimal_len(n: nat, k: nat)
    requires
        k >= 1,
    ensures
        n < pow10(k) ==> decimal(n).len() <= k,
        n >= pow10(k) ==> decimal(n).len() > k,
    decreases k,
{
    reveal_with_fuel(pow10, 2);
    lemma_decimal_shape(n);
    lemma_decimal_shape(n / 10);
    if k > 1 {
        lemma_decimal_len(n / 10, (k - 1) as nat);
    }
}

proof fn lemma_pow10_bound(k: nat)
    requires
        k <= 10,
    ensures
        pow10(k) <= 10_000_000_000,
        k < 10 ==> pow10(k) <= 1_000_000_000,
{
    reveal_with_fuel(pow10, 12);
}

/// A numeral is made of the characters `0` to `9`, which are ASCII and
/// whose codes run from 48 to 57.
proof fn lemma_digit_codes(c: char)
    ensures
        is_digit(c) ==> '\0' <= c <= '\u{7f}' && 48 <= c as u8 <= 57 && digit_value(c) == c as u8
            - 48,
        '\0' <= c <= '\u{7f}' && 48 <= c as u8 <= 57 ==> is_digit(c),
{
}

/// Reads a decimal numeral, as [`decimal_text`] writes it.
pub fn parse_decimal(text: &str) -> (r: Option<u32>)
    ensures
        r == numeral_value(text@),
{
    let ghost chars = text@;
    proof {
        assert forall|n: u32| decimal(n as nat) == chars implies is_ascii_chars(chars)
            && chars.len() >= 1 && chars.len() <= 10 by {
            lemma_decimal_shape(n as nat);
            lemma_decimal_len(n as nat, 10);
            reveal_with_fuel(pow10, 12);
            assert forall|i: int| 0 <= i < chars.len() implies '\0' <= #[trigger] chars[i]
                <= '\u{7f}' by {
                lemma_digit_codes(chars[i]);
            }
        }
    }
    if !text.is_ascii() {
        return None;
    }
    let bytes = text.as_bytes();
    proof {
        is_ascii_chars_encode_utf8(chars);
    }
    let len: usize = bytes.len();
    if len == 0 || len > 10 {
        return None;
    }
    let mut acc: u64 = 0;
    let mut i: usize = 0;
    while i < len
        invariant
            i <= len,
            chars == text@,
            len == chars.len(),
            len == bytes@.len(),
            len <= 10,
            is_ascii_chars(chars),
            forall|j: int| 0 <= j < len ==> chars[j] as u8 == #[trigger] bytes@[j],
            i == 0 ==> acc == 0,
            i > 0 ==> chars.subrange(0, i as int) == decimal(acc as nat),
            i > 1 ==> acc >= 1,
            acc < pow10(i as nat),
        decreases len - i,
    {
        let b: u8 = bytes[i];
        proof {
            lemma_digit_codes(chars[i as int]);
            lemma_pow10_bound(i as nat);
        }
        if b < 48 || b > 57 {
            proof {
                assert forall|n: u32| decimal(n as nat) != chars by {
                    lemma_decimal_shape(n as nat);
                }
            }
            return None;
        }
        if i == 1 && acc == 0 {
            proof {
                assert(chars.subrange(0, 1)[0] == chars[0]);
                assert forall|n: u32| decimal(n as nat) != chars by {
                    lemma_decimal_shape(n as nat);
                }
            }
            return None;
        }
        let digit: u64 = (b - 48) as u64;
        let ghost front = chars.subrange(0, i as int);
        acc = acc * 10 + digit;
        i += 1;
        proof {
            reveal_with_fuel(pow10, 2);
            assert(chars[i - 1] == digit_char(digit as nat));
            assert(chars.subrange(0, i as int) =~= front.push(chars[i - 1]));
            if i == 1 {
                assert(front =~= Seq::<char>::empty());
                assert(chars.subrange(0, 1) =~= seq![digit_char(digit as nat)]);
            }
        }
    }
    proof {
        assert(chars.subrange(0, len as int) =~= chars);
        assert forall|n: u32| decimal(n as nat) == chars implies n == acc by {
            lemma_decimal_injective(n as nat, acc as nat);
        }
    }
    if acc > u32::MAX as u64 {
        return None;
    }
    proof {
        lemma_numeral_value(acc as u32);
    }
    Some(acc as u32)
}

} // verus!
