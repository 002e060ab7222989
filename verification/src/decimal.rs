//! Decimal text of 16-bit numbers: ports are read from it and status codes
//! are written as it.

use vstd::prelude::*;
use vstd::string::StringSliceAdditionalSpecFns;

verus! {

/// True for the ten decimal digits.
pub open spec fn is_digit(c: char) -> bool {
    '0' <= c && c <= '9'
}

/// The number a digit stands for; zero for any other character.
pub open spec fn digit_value(c: char) -> nat {
    if is_digit(c) {
        (c as int - '0' as int) as nat
    } else {
        0
    }
}

/// The digit that stands for `d`, for `d` below ten.
pub open spec fn digit_char(d: nat) -> char
    recommends
        d < 10,
{
    (d + '0' as nat) as char
}

/// True when every character of `text` is a decimal digit.
pub open spec fn all_digits(text: Seq<char>) -> bool {
    forall|i: int| 0 <= i < text.len() ==> is_digit(#[trigger] text[i])
}

/// The number that `digits` denotes in base ten, most significant digit
/// first. The empty sequence denotes zero.
pub open spec fn decimal_value(digits: Seq<char>) -> nat
    decreases digits.len(),
{
    if digits.len() == 0 {
        0
    } else {
        decimal_value(digits.drop_last()) * 10 + digit_value(digits.last())
    }
}

/// `text` without one leading plus sign, if it has one.
pub open spec fn without_sign(text: Seq<char>) -> Seq<char> {
    if text.len() > 0 && text[0] == '+' {
        text.subrange(1, text.len() as int)
    } else {
        text
    }
}

/// The 16-bit number that `text` denotes: an optional plus sign, then one or
/// more decimal digits whose value is at most 65535. Anything else, be it
/// empty text, a lone sign, a space, a minus sign or a larger number,
/// denotes nothing.
pub open spec fn parsed_u16(text: Seq<char>) -> Option<u16> {
    let digits = without_sign(text);
    if digits.len() > 0 && all_digits(digits) && decimal_value(digits) <= u16::MAX {
        Some(decimal_value(digits) as u16)
    } else {
        None
    }
}

/// The shortest decimal text of `n`: no sign and no leading zero, except for
/// zero itself, which is `0`.
pub open spec fn decimal_text(n: nat) -> Seq<char>
    decreases n,
{
    if n < 10 {
        seq![digit_char(n)]
    } else {
        decimal_text(n / 10).push(digit_char(n % 10))
    }
}

/// A number is never below the number that a prefix of its digits denotes.
pub proof fn lemma_prefix_value_is_smaller(digits: Seq<char>, n: int)
    requires
        0 <= n <= digits.len(),
    ensures
        decimal_value(digits.take(n)) <= decimal_value(digits),
    decreases digits.len() - n,
{
    if n == digits.len() {
        assert(digits.take(n) =~= digits);
    } else {
        lemma_prefix_value_is_smaller(digits, n + 1);
        assert(digits.take(n + 1).drop_last() =~= digits.take(n));
    }
}

/// Reads a 16-bit number from its decimal text.
pub fn parse_u16(text: &str) -> (number: Option<u16>)
    ensures
        number == parsed_u16(text@),
{
    broadcast use vstd::string::is_ascii_spec_bytes;

    if !text.is_ascii() {
        proof {
            let i = choose|i: int|
                0 <= i < text@.len() && !('\0' <= #[trigger] text@[i] && text@[i] <= '\u{7f}');
            if text@[0] == '+' {
                assert(without_sign(text@)[i - 1] == text@[i]);
            }
        }
        return None;
    }
    let bytes = text.as_bytes();
    let length = bytes.len();
    let start: usize = if length > 0 && bytes[0] == 43u8 {
        1
    } else {
        0
    };
    let ghost digits = without_sign(text@);
    assert(digits =~= text@.subrange(start as int, length as int));
    if start == length {
        return None;
    }
    let mut value: u32 = 0;
    let mut i = start;
    while i < length
        invariant
            start <= i <= length,
            length == text@.len(),
            bytes@ == text.spec_bytes(),
            vstd::string::is_ascii(text),
            digits == without_sign(text@),
            digits == text@.subrange(start as int, length as int),
            all_digits(digits.take(i - start)),
            value == decimal_value(digits.take(i - start)),
            value <= u16::MAX,
        decreases length - i,
    {
        let byte = bytes[i];
        assert(byte == text@[i as int] as u8);
        assert(digits[i - start] == text@[i as int]);
        if byte < 48u8 || byte > 57u8 {
            assert(!is_digit(digits[i - start]));
            return None;
        }
        let next = value * 10 + (byte - 48u8) as u32;
        proof {
            let longer = digits.take(i - start + 1);
            assert(longer.drop_last() =~= digits.take(i - start));
            assert(longer.last() == digits[i - start]);
            assert(all_digits(longer));
            assert(next == decimal_value(longer));
            lemma_prefix_value_is_smaller(digits, i - start + 1);
        }
        if next > 65535u32 {
            return None;
        }
        value = next;
        i = i + 1;
    }
    assert(digits.take(i - start) =~= digits);
    Some(value as u16)
}

/// The one-character text of a digit.
fn digit_text(d: u16) -> (text: &'static str)
    requires
        d < 10,
    ensures
        text@ == seq![digit_char(d as nat)],
{
    proof {
        reveal_strlit("0");
        reveal_strlit("1");
        reveal_strlit("2");
        reveal_strlit("3");
        reveal_strlit("4");
        reveal_strlit("5");
        reveal_strlit("6");
        reveal_strlit("7");
        reveal_strlit("8");
        reveal_strlit("9");
    }
    let text = if d == 0 {
        "0"
    } else if d == 1 {
        "1"
    } else if d == 2 {
        "2"
    } else if d == 3 {
        "3"
    } else if d == 4 {
        "4"
    } else if d == 5 {
        "5"
    } else if d == 6 {
        "6"
    } else if d == 7 {
        "7"
    } else if d == 8 {
        "8"
    } else {
        "9"
    };
    assert(text@ =~= seq![digit_char(d as nat)]);
    text
}

/// Writes a 16-bit number as decimal text.
pub fn u16_to_decimal(n: u16) -> (text: String)
    ensures
        text@ == decimal_text(n as nat),
    decreases n,
{
    if n < 10 {
        String::from_str(digit_text(n))
    } else {
        let mut text = u16_to_decimal(n / 10);
        text.append(digit_text(n % 10));
        assert(text@ =~= decimal_text(n as nat));
        text
    }
}

/// The decimal text of a number consists of digits that denote it.
pub proof fn lemma_decimal_text_denotes(n: nat)
    ensures
        decimal_text(n).len() > 0,
        all_digits(decimal_text(n)),
        decimal_value(decimal_text(n)) == n,
    decreases n,
{
    if n < 10 {
        let text = decimal_text(n);
        assert(text.drop_last() =~= Seq::<char>::empty());
        assert(decimal_value(text.drop_last()) == 0);
    } else {
        lemma_decimal_text_denotes(n / 10);
        let text = decimal_text(n);
        assert(text.drop_last() =~= decimal_text(n / 10));
        assert(text.last() == digit_char(n % 10));
    }
}

/// Reading what was written gives the number back.
pub proof fn lemma_parse_inverts_write(n: u16)
    ensures
        parsed_u16(decimal_text(n as nat)) == Some(n),
{
    lemma_decimal_text_denotes(n as nat);
    let text = decimal_text(n as nat);
    assert(is_digit(text[0]));
    assert(without_sign(text) == text);
}

} // verus!
