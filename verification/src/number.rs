//! Numbers in decimal and hexadecimal digits.

use vstd::prelude::*;
use vstd::string::StringExecFns;

verus! {

/// The character of a digit below sixteen: `0` to `9`, then `a` to `f`.
pub open spec fn digit_char(digit: int) -> char {
    if digit < 10 {
        ('0' as u32 + digit) as char
    } else {
        ('a' as u32 + digit - 10) as char
    }
}

/// A number in decimal digits, without a sign or leading zeros.
pub open spec fn decimal(n: nat) -> Seq<char>
    decreases n,
{
    if n < 10 {
        seq![digit_char(n as int)]
    } else {
        decimal(n / 10) + seq![digit_char((n % 10) as int)]
    }
}

/// A byte in two hexadecimal digits, lower case.
pub open spec fn hex_pair(byte: u8) -> Seq<char> {
    seq![digit_char(byte as int / 16), digit_char(byte as int % 16)]
}

/// The value of a decimal digit; no other character has one.
pub open spec fn decimal_value(c: char) -> Option<u8> {
    if '0' <= c <= '9' {
        Some((c as u32 - '0' as u32) as u8)
    } else {
        None
    }
}

/// Whether `digits` are decimal digits, and at least one.
pub open spec fn is_decimal(digits: Seq<char>) -> bool {
    &&& digits.len() > 0
    &&& forall|i: int| 0 <= i < digits.len() ==> (#[trigger] decimal_value(digits[i])) is Some
}

/// The number that decimal digits stand for, the first being the most
/// significant.
pub open spec fn decimal_number(digits: Seq<char>) -> nat
    decreases digits.len(),
{
    if digits.len() == 0 {
        0
    } else {
        10 * decimal_number(digits.drop_last()) + decimal_value(digits.last()).unwrap() as nat
    }
}

/// The number that a text stands for, where it is no more than `max`. The
/// text is made of decimal digits, at least one, which a plus sign may
/// precede; leading zeros do not count.
pub open spec fn spec_parse_decimal(s: Seq<char>, max: nat) -> Option<nat> {
    let digits = if s.len() > 0 && s[0] == '+' {
        s.drop_first()
    } else {
        s
    };
    if is_decimal(digits) && decimal_number(digits) <= max {
        Some(decimal_number(digits))
    } else {
        None
    }
}

/// The value of a hexadecimal digit, in either case; no other character has
/// one.
pub open spec fn hex_value(c: char) -> Option<u8> {
    if '0' <= c <= '9' {
        Some((c as u32 - '0' as u32) as u8)
    } else if 'a' <= c <= 'f' {
        Some((c as u32 - 'a' as u32 + 10) as u8)
    } else if 'A' <= c <= 'F' {
        Some((c as u32 - 'A' as u32 + 10) as u8)
    } else {
        None
    }
}

/// Whether `digits` are hexadecimal digits, and at least one.
pub open spec fn is_hex(digits: Seq<char>) -> bool {
    &&& digits.len() > 0
    &&& forall|i: int| 0 <= i < digits.len() ==> (#[trigger] hex_value(digits[i])) is Some
}

/// The number that hexadecimal digits stand for, the first being the most
/// significant.
pub open spec fn hex_number(digits: Seq<char>) -> nat
    decreases digits.len(),
{
    if digits.len() == 0 {
        0
    } else {
        16 * hex_number(digits.drop_last()) + hex_value(digits.last()).unwrap() as nat
    }
}

/// Sixteen to the power of `exponent`.
pub open spec fn pow16(exponent: nat) -> nat
    decreases exponent,
{
    if exponent == 0 {
        1
    } else {
        16 * pow16((exponent - 1) as nat)
    }
}

/// The text of one digit.
fn digit_text(digit: u8) -> (text: &'static str)
    requires
        digit < 16,
    ensures
        text@ == seq![digit_char(digit as int)],
{
    proof {
        reveal_strlit("0");
        reveal_strlit("1");
        reveal_strlit("2");
        reveal_strlit("3");
        reveal_strlit("4");
        reveal_strlit("5");
        reveal_strlit("6");
        reveal_strlit("7");
        reveal_strlit("8");
        reveal_strlit("9");
        reveal_strlit("a");
        reveal_strlit("b");
        reveal_strlit("c");
        reveal_strlit("d");
        reveal_strlit("e");
        reveal_strlit("f");
    }
    let text = match digit {
        0 => "0",
        1 => "1",
        2 => "2",
        3 => "3",
        4 => "4",
        5 => "5",
        6 => "6",
        7 => "7",
        8 => "8",
        9 => "9",
        10 => "a",
        11 => "b",
        12 => "c",
        13 => "d",
        14 => "e",
        _ => "f",
    };
    assert(text@ =~= seq![digit_char(digit as int)]);
    text
}

/// Appends a number in decimal digits.
pub(crate) fn push_decimal(text: &mut String, n: u16)
    ensures
        final(text)@ == old(text)@ + decimal(n as nat),
    decreases n,
{
    if n >= 10 {
        push_decimal(text, n / 10);
    }
    text.append(digit_text((n % 10) as u8));
}

/// Appends a byte in two hexadecimal digits.
pub(crate) fn push_hex_pair(text: &mut String, byte: u8)
    ensures
        final(text)@ == old(text)@ + hex_pair(byte),
{
    text.append(digit_text(byte / 16));
    text.append(digit_text(byte % 16));
}

/// Reads a number that is no more than `max`.
pub(crate) fn parse_decimal(s: &str, max: u16) -> (number: Option<u16>)
    ensures
        match number {
            Some(n) => spec_parse_decimal(s@, max as nat) == Some(n as nat),
            None => spec_parse_decimal(s@, max as nat) is None,
        },
{
    if !s.is_ascii() {
        proof {
            lemma_decimal_is_ascii(s@, max as nat);
        }
        return None;
    }
    let len = s.unicode_len();
    let first: usize = if len > 0 && s.get_ascii(0) == 0x2b {
        1
    } else {
        0
    };
    let ghost digits = s@.subrange(first as int, len as int);
    assert(s@.len() > 0 ==> s@[0] <= '\u{7f}');
    assert(digits =~= if s@.len() > 0 && s@[0] == '+' {
        s@.drop_first()
    } else {
        s@
    });
    if first == len {
        return None;
    }
    let mut value: u32 = 0;
    let mut i: usize = first;
    while i < len
        invariant
            s.is_ascii(),
            len == s@.len(),
            first <= i <= len,
            digits == s@.subrange(first as int, len as int),
            digits == (if s@.len() > 0 && s@[0] == '+' {
                s@.drop_first()
            } else {
                s@
            }),
            forall|j: int| 0 <= j < i - first ==> (#[trigger] decimal_value(digits[j])) is Some,
            value == decimal_number(digits.subrange(0, i - first)),
            value <= max,
        decreases len - i,
    {
        let byte = s.get_ascii(i);
        assert(s@[i as int] <= '\u{7f}');
        assert(digits[i - first] == s@[i as int]);
        if byte < 0x30 || byte > 0x39 {
            assert(decimal_value(digits[i - first]) is None);
            return None;
        }
        proof {
            let read = digits.subrange(0, i - first + 1);
            assert(read.drop_last() =~= digits.subrange(0, i - first));
            assert(read.last() == s@[i as int]);
        }
        value = value * 10 + (byte - 0x30) as u32;
        if value > max as u32 {
            proof {
                lemma_decimal_number_grows(digits, i - first + 1);
            }
            return None;
        }
        i += 1;
    }
    assert(digits.subrange(0, len - first) =~= digits);
    Some(value as u16)
}

/// The value of a hexadecimal digit.
pub(crate) fn hex_digit(c: char) -> (value: Option<u8>)
    ensures
        value == hex_value(c),
{
    let code = c as u32;
    if '0' as u32 <= code && code <= '9' as u32 {
        Some((code - '0' as u32) as u8)
    } else if 'a' as u32 <= code && code <= 'f' as u32 {
        Some((code - 'a' as u32 + 10) as u8)
    } else if 'A' as u32 <= code && code <= 'F' as u32 {
        Some((code - 'A' as u32 + 10) as u8)
    } else {
        None
    }
}

/// The character of a digit has the value of the digit, and is no sign.
proof fn lemma_digit_char_value(digit: int)
    requires
        0 <= digit < 16,
    ensures
        hex_value(digit_char(digit)) == Some(digit as u8),
        digit < 10 ==> decimal_value(digit_char(digit)) == Some(digit as u8),
        digit_char(digit) != '+',
{
    if digit < 10 {
        assert(digit_char(digit) as u32 == 0x30 + digit);
    } else {
        assert(digit_char(digit) as u32 == 0x61 + digit - 10);
    }
}

/// The digits of a byte have the values of its two halves, and none is a
/// sign.
pub proof fn lemma_hex_pair_value(byte: u8)
    ensures
        hex_pair(byte).len() == 2,
        hex_value(hex_pair(byte)[0]) == Some((byte / 16) as u8),
        hex_value(hex_pair(byte)[1]) == Some((byte % 16) as u8),
        hex_pair(byte)[0] != '+',
{
    lemma_digit_char_value(byte as int / 16);
    lemma_digit_char_value(byte as int % 16);
}

/// Two more digits, those of a byte, shift a number by eight bits and add
/// the byte.
pub proof fn lemma_hex_number_push_pair(digits: Seq<char>, byte: u8)
    requires
        digits.len() == 0 || is_hex(digits),
    ensures
        is_hex(digits + hex_pair(byte)),
        hex_number(digits + hex_pair(byte)) == 0x100 * hex_number(digits) + byte,
{
    lemma_hex_pair_value(byte);
    let pair = hex_pair(byte);
    let longer = digits + pair;
    let middle = digits + seq![pair[0]];
    assert(longer.drop_last() =~= middle);
    assert(middle.drop_last() =~= digits);
    assert(longer.last() == pair[1]);
    assert(middle.last() == pair[0]);
    assert(hex_number(middle) == 16 * hex_number(digits) + byte / 16);
    assert(hex_number(longer) == 16 * hex_number(middle) + byte % 16);
    assert forall|i: int| 0 <= i < longer.len() implies (#[trigger] hex_value(longer[i])) is Some by {
        if i < digits.len() {
            assert(longer[i] == digits[i]);
        } else {
            assert(longer[i] == pair[i - digits.len()]);
        }
    }
}

/// Digits stand for no less than the first few of them do.
proof fn lemma_decimal_number_grows(digits: Seq<char>, count: int)
    requires
        0 <= count <= digits.len(),
    ensures
        decimal_number(digits.subrange(0, count)) <= decimal_number(digits),
    decreases digits.len() - count,
{
    if count == digits.len() {
        assert(digits.subrange(0, count) =~= digits);
    } else {
        lemma_decimal_number_grows(digits.drop_last(), count);
        assert(digits.drop_last().subrange(0, count) =~= digits.subrange(0, count));
    }
}

/// A text that holds a character beyond ASCII stands for no number.
proof fn lemma_decimal_is_ascii(s: Seq<char>, max: nat)
    requires
        !vstd::utf8::is_ascii_chars(s),
    ensures
        spec_parse_decimal(s, max) is None,
{
    let i = choose|i: int| 0 <= i < s.len() && !('\0' <= #[trigger] s[i] <= '\u{7f}');
    if s[0] == '+' {
        assert(decimal_value(s.drop_first()[i - 1]) is None);
    } else {
        assert(decimal_value(s[i]) is None);
    }
}

/// The digits of a number stand for the number.
proof fn lemma_decimal_digits(n: nat)
    ensures
        is_decimal(decimal(n)),
        decimal_number(decimal(n)) == n,
        decimal(n)[0] != '+',
    decreases n,
{
    let last = digit_char((n % 10) as int);
    lemma_digit_char_value((n % 10) as int);
    if n < 10 {
        assert(decimal(n).drop_last() =~= Seq::<char>::empty());
        assert(decimal(n).last() == last);
        assert(decimal_number(decimal(n).drop_last()) == 0);
    } else {
        lemma_decimal_digits(n / 10);
        let front = decimal(n / 10);
        assert(decimal(n).drop_last() =~= front);
        assert(decimal(n).last() == last);
        assert(decimal(n)[0] == front[0]);
        assert forall|i: int| 0 <= i < decimal(n).len() implies (#[trigger] decimal_value(
            decimal(n)[i],
        )) is Some by {
            if i < front.len() {
                assert(decimal(n)[i] == front[i]);
            }
        }
    }
}

/// Reading the text of a number gives the number back, where it is within
/// the limit.
pub proof fn lemma_decimal_round_trip(n: nat, max: nat)
    requires
        n <= max,
    ensures
        spec_parse_decimal(decimal(n), max) == Some(n),
{
    lemma_decimal_digits(n);
}

} // verus!
