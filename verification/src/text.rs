//! Numbers as text: the decimal and hexadecimal digits that requests are
//! typed in and that messages are written with.

use vstd::prelude::*;
use vstd::string::*;
use vstd::utf8::is_ascii_chars;

verus! {

/// The character that stands for the digit `d`, in upper case above nine.
pub open spec fn digit_char(d: nat) -> char {
    if d < 10 {
        ('0' as nat + d) as char
    } else {
        ('A' as nat + d - 10) as char
    }
}

/// Whether `c` is one of `0` to `9`.
pub open spec fn is_decimal_digit(c: char) -> bool {
    '0' <= c <= '9'
}

/// The number that a decimal digit stands for.
pub open spec fn decimal_digit_value(c: char) -> nat {
    (c as nat - '0' as nat) as nat
}

/// The number that a hexadecimal digit of either case stands for, if `c` is
/// one.
pub open spec fn hex_digit_value(c: char) -> Option<nat> {
    if '0' <= c <= '9' {
        Some((c as nat - '0' as nat) as nat)
    } else if 'A' <= c <= 'F' {
        Some((c as nat - 'A' as nat + 10) as nat)
    } else if 'a' <= c <= 'f' {
        Some((c as nat - 'a' as nat + 10) as nat)
    } else {
        None
    }
}

/// The decimal digits of `n`, most significant first, without padding.
pub open spec fn decimal_digits(n: nat) -> Seq<char>
    decreases n,
{
    if n < 10 {
        seq![digit_char(n)]
    } else {
        decimal_digits(n / 10).push(digit_char(n % 10))
    }
}

/// Whether every character of `text` is a decimal digit.
pub open spec fn all_decimal(text: Seq<char>) -> bool {
    forall|i: int| 0 <= i < text.len() ==> is_decimal_digit(#[trigger] text[i])
}

/// The number that a run of decimal digits stands for; leading zeros count
/// for nothing.
pub open spec fn decimal_value(text: Seq<char>) -> nat
    decreases text.len(),
{
    if text.len() == 0 {
        0
    } else {
        10 * decimal_value(text.drop_last()) + decimal_digit_value(text.last())
    }
}

/// What is left of `text` once a plus sign in front is taken off.
pub open spec fn without_sign(text: Seq<char>) -> Seq<char> {
    if text.len() > 0 && text[0] == '+' {
        text.subrange(1, text.len() as int)
    } else {
        text
    }
}

/// Whether `text` writes a number in decimal: one digit or more, with or
/// without a plus sign in front, and nothing else.
pub open spec fn is_number_text(text: Seq<char>) -> bool {
    without_sign(text).len() > 0 && all_decimal(without_sign(text))
}

/// The number from 0 to 255 that `text` writes in decimal, if it writes one.
pub open spec fn byte_of(text: Seq<char>) -> Option<u8> {
    if is_number_text(text) && decimal_value(without_sign(text)) <= 255 {
        Some(decimal_value(without_sign(text)) as u8)
    } else {
        None
    }
}

/// The decimal digits of a number are digits, at least one of them, and
/// stand for that number.
pub proof fn lemma_decimal_digits_value(n: nat)
    ensures
        decimal_digits(n).len() > 0,
        all_decimal(decimal_digits(n)),
        decimal_value(decimal_digits(n)) == n,
    decreases n,
{
    if n >= 10 {
        lemma_decimal_digits_value(n / 10);
        let shorter = decimal_digits(n / 10);
        let digits = decimal_digits(n);
        assert(digits.drop_last() =~= shorter);
        assert(digits.last() == digit_char(n % 10));
    } else {
        let digits = decimal_digits(n);
        assert(digits.drop_last() =~= Seq::<char>::empty());
        assert(decimal_value(digits.drop_last()) == 0);
    }
}

/// A run of digits stands for at least as much as any of its beginnings.
pub proof fn lemma_decimal_value_grows(text: Seq<char>, count: int)
    requires
        0 <= count <= text.len(),
    ensures
        decimal_value(text.subrange(0, count)) <= decimal_value(text),
    decreases text.len() - count,
{
    if count == text.len() {
        assert(text.subrange(0, count) =~= text);
    } else {
        lemma_decimal_value_grows(text.drop_last(), count);
        assert(text.drop_last().subrange(0, count) =~= text.subrange(0, count));
    }
}

/// A text that holds a character that is neither a digit nor a plus sign in
/// front writes no number.
pub proof fn lemma_stray_character_is_not_numeric(text: Seq<char>, at: int)
    requires
        0 <= at < text.len(),
        !is_decimal_digit(text[at]),
        at > 0 || text[0] != '+',
    ensures
        !is_number_text(text),
{
    let digits = without_sign(text);
    if text[0] == '+' {
        assert(digits[at - 1] == text[at]);
    } else {
        assert(digits[at] == text[at]);
    }
}

/// A text with a character outside ASCII writes no number.
proof fn lemma_not_ascii_no_byte(text: Seq<char>)
    requires
        !is_ascii_chars(text),
    ensures
        byte_of(text) is None,
{
    let at = choose|i: int| 0 <= i < text.len() && !('\0' <= #[trigger] text[i] <= '\u{7f}');
    lemma_stray_character_is_not_numeric(text, at);
}

/// One digit as a string slice.
pub fn digit_str(d: u8) -> (s: &'static str)
    requires
        d < 16,
    ensures
        s@ == seq![digit_char(d as nat)],
{
    proof {
        reveal_strlit("0123456789ABCDEF");
    }
    let digits = "0123456789ABCDEF";
    assert(digits.is_ascii());
    let s = digits.substring_ascii(d as usize, d as usize + 1);
    assert(s@ =~= seq![digit_char(d as nat)]);
    s
}

/// Appends the decimal digits of `n` to `out`.
pub fn push_decimal(out: &mut String, n: u64)
    ensures
        final(out)@ == old(out)@ + decimal_digits(n as nat),
    decreases n,
{
    if n >= 10 {
        push_decimal(out, n / 10);
    }
    out.append(digit_str((n % 10) as u8));
    assert(out@ =~= old(out)@ + decimal_digits(n as nat));
}

/// The bytes of `text` where it holds ASCII characters only: one byte for
/// each character, equal to its code.
pub fn ascii_bytes(text: &str) -> (bytes: Option<&[u8]>)
    ensures
        bytes is Some <==> is_ascii_chars(text@),
        bytes matches Some(b) ==> b@.len() == text@.len() && forall|i: int|
            0 <= i < b@.len() ==> text@[i] == #[trigger] b@[i] as char,
{
    broadcast use is_ascii_spec_bytes;

    if text.is_ascii() {
        let b = text.as_bytes();
        assert(b@ =~= Seq::new(text@.len(), |i: int| text@[i] as u8));
        assert forall|i: int| 0 <= i < b@.len() implies text@[i] == #[trigger] b@[i] as char by {
            assert('\0' <= text@[i] <= '\u{7f}');
        }
        Some(b)
    } else {
        None
    }
}

/// Reads a number from 0 to 255 written in decimal: one digit or more, with
/// or without a plus sign in front. Zeros in front are read over. Anything
/// else gives `None`: an empty text, a sign alone, a space, a minus sign, a
/// number above 255.
pub fn parse_byte(text: &str) -> (value: Option<u8>)
    ensures
        value == byte_of(text@),
{
    let bytes = match ascii_bytes(text) {
        Some(bytes) => bytes,
        None => {
            proof {
                lemma_not_ascii_no_byte(text@);
            }
            return None;
        },
    };
    let count = bytes.len();
    let start: usize = if count > 0 && bytes[0] == '+' as u8 {
        1
    } else {
        0
    };
    let ghost digits = without_sign(text@);
    assert(digits =~= text@.subrange(start as int, count as int));
    if start == count {
        return None;
    }
    let mut value: u16 = 0;
    let mut at: usize = start;
    while at < count
        invariant
            start <= at <= count,
            count == bytes@.len(),
            count == text@.len(),
            digits == without_sign(text@),
            digits == text@.subrange(start as int, count as int),
            forall|i: int| 0 <= i < count ==> text@[i] == #[trigger] bytes@[i] as char,
            all_decimal(digits.subrange(0, at - start)),
            value == decimal_value(digits.subrange(0, at - start)),
            value <= 255,
        decreases count - at,
    {
        let byte = bytes[at];
        let ghost seen = digits.subrange(0, at - start + 1);
        assert(seen.drop_last() =~= digits.subrange(0, at - start));
        assert(seen.last() == text@[at as int]);
        if byte < '0' as u8 || byte > '9' as u8 {
            assert(!is_decimal_digit(digits[at - start]));
            return None;
        }
        value = value * 10 + (byte - '0' as u8) as u16;
        if value > 255 {
            proof {
                if all_decimal(digits) {
                    lemma_decimal_value_grows(digits, at - start + 1);
                }
            }
            return None;
        }
        at = at + 1;
    }
    assert(digits.subrange(0, at - start) =~= digits);
    Some(value as u8)
}

} // verus!
