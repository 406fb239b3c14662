//! Memory addresses as they are typed: four hexadecimal digits, no more and
//! no fewer, with no `0x` or `$` in front.

use vstd::prelude::*;
use vstd::string::*;
use vstd::utf8::is_ascii_chars;
use crate::error::{AppError, Failure};
use crate::text::{ascii_bytes, digit_char, digit_str, hex_digit_value};

verus! {

/// The number of digits in an address.
pub const ADDRESS_DIGITS: usize = 4;

/// Whether `text` is four hexadecimal digits, of either case.
pub open spec fn is_address_text(text: Seq<char>) -> bool {
    &&& text.len() == ADDRESS_DIGITS
    &&& forall|i: int| 0 <= i < text.len() ==> hex_digit_value(#[trigger] text[i]) is Some
}

/// The address that `text` writes, if it writes one.
pub open spec fn address_of(text: Seq<char>) -> Option<u16> {
    if is_address_text(text) {
        Some(
            (4096 * hex_digit_value(text[0])->0 + 256 * hex_digit_value(text[1])->0 + 16
                * hex_digit_value(text[2])->0 + hex_digit_value(text[3])->0) as u16,
        )
    } else {
        None
    }
}

/// The four digits that write `address`, in upper case.
pub open spec fn address_text(address: u16) -> Seq<char> {
    seq![
        digit_char((address / 4096) as nat),
        digit_char((address / 256 % 16) as nat),
        digit_char((address / 16 % 16) as nat),
        digit_char((address % 16) as nat),
    ]
}

/// The number that the ASCII code `byte` stands for as a hexadecimal digit.
fn hex_digit(byte: u8) -> (value: Option<u8>)
    ensures
        match hex_digit_value(byte as char) {
            Some(digit) => value == Some(digit as u8) && digit < 16,
            None => value is None,
        },
{
    if '0' as u8 <= byte && byte <= '9' as u8 {
        Some(byte - '0' as u8)
    } else if 'A' as u8 <= byte && byte <= 'F' as u8 {
        Some(byte - 'A' as u8 + 10)
    } else if 'a' as u8 <= byte && byte <= 'f' as u8 {
        Some(byte - 'a' as u8 + 10)
    } else {
        None
    }
}

/// Reads an address. Succeeds on exactly the texts of four hexadecimal
/// digits; any other text is handed back in [`AppError::InvalidAddress`]: one
/// that is shorter or longer, or that holds a sign, a prefix, a space or any
/// other character that is no hexadecimal digit.
pub fn parse_address(text: &str) -> (parsed: Result<u16, AppError>)
    ensures
        match address_of(text@) {
            Some(address) => parsed matches Ok(value) && value == address,
            None => parsed matches Err(error) && error@ == Failure::InvalidAddress(text@),
        },
{
    let bytes = match ascii_bytes(text) {
        Some(bytes) => bytes,
        None => {
            assert(!is_address_text(text@));
            return Err(AppError::InvalidAddress(text.to_owned()));
        },
    };
    if bytes.len() != ADDRESS_DIGITS {
        return Err(AppError::InvalidAddress(text.to_owned()));
    }
    let mut value: u16 = 0;
    let mut at: usize = 0;
    while at < ADDRESS_DIGITS
        invariant
            at <= ADDRESS_DIGITS,
            bytes@.len() == ADDRESS_DIGITS,
            text@.len() == ADDRESS_DIGITS,
            forall|i: int| 0 <= i < ADDRESS_DIGITS ==> text@[i] == #[trigger] bytes@[i] as char,
            forall|i: int| 0 <= i < at ==> hex_digit_value(#[trigger] text@[i]) is Some,
            value == partial_value(text@, at as int),
            value < pow16(at as int),
        decreases ADDRESS_DIGITS - at,
    {
        match hex_digit(bytes[at]) {
            Some(digit) => {
                value = value * 16 + digit as u16;
            },
            None => {
                return Err(AppError::InvalidAddress(text.to_owned()));
            },
        }
        at = at + 1;
    }
    assert(value == 4096 * hex_digit_value(text@[0])->0 + 256 * hex_digit_value(text@[1])->0 + 16
        * hex_digit_value(text@[2])->0 + hex_digit_value(text@[3])->0) by {
        reveal_with_fuel(partial_value, 5);
    }
    Ok(value)
}

/// The number that the first `count` digits of `text` write.
spec fn partial_value(text: Seq<char>, count: int) -> int
    decreases count,
{
    if count <= 0 {
        0
    } else {
        16 * partial_value(text, count - 1) + hex_digit_value(text[count - 1])->0
    }
}

/// Sixteen to the power of `count`, for the `count`s that an address has.
spec fn pow16(count: int) -> int {
    if count <= 0 {
        1
    } else if count == 1 {
        16
    } else if count == 2 {
        256
    } else if count == 3 {
        4096
    } else {
        65536
    }
}

/// Writes an address as four hexadecimal digits, in upper case, with zeros in
/// front where it needs fewer.
pub fn format_hex(address: u16) -> (text: String)
    ensures
        text@ == address_text(address),
{
    let mut text = String::new();
    text.append(digit_str((address / 4096) as u8));
    text.append(digit_str((address / 256 % 16) as u8));
    text.append(digit_str((address / 16 % 16) as u8));
    text.append(digit_str((address % 16) as u8));
    assert(text@ =~= address_text(address));
    text
}

/// A digit that was written is read back as itself.
pub proof fn lemma_digit_round_trip(digit: nat)
    requires
        digit < 16,
    ensures
        hex_digit_value(digit_char(digit)) == Some(digit),
{
}

/// The four digits of an address, each weighted by its place, add up to the
/// address.
proof fn lemma_digits_add_up(address: u16)
    ensures
        address / 4096 < 16,
        4096 * (address / 4096) + 256 * (address / 256 % 16) + 16 * (address / 16 % 16) + address
            % 16 == address,
{
    let sixteens = address / 16;
    let pages = sixteens / 16;
    assert(address / 256 == pages);
    assert(address / 4096 == pages / 16);
    assert(address == 16 * sixteens + address % 16);
    assert(sixteens == 16 * pages + sixteens % 16);
    assert(pages == 16 * (pages / 16) + pages % 16);
}

/// Writing an address and reading the text back gives the address: every
/// address has a text, and [`parse_address`] undoes [`format_hex`].
pub proof fn lemma_address_round_trip(address: u16)
    ensures
        is_address_text(address_text(address)),
        address_of(address_text(address)) == Some(address),
{
    let text = address_text(address);
    lemma_digits_add_up(address);
    lemma_digit_round_trip((address / 4096) as nat);
    lemma_digit_round_trip((address / 256 % 16) as nat);
    lemma_digit_round_trip((address / 16 % 16) as nat);
    lemma_digit_round_trip((address % 16) as nat);
    assert(hex_digit_value(text[0]) == Some((address / 4096) as nat));
    assert(hex_digit_value(text[1]) == Some((address / 256 % 16) as nat));
    assert(hex_digit_value(text[2]) == Some((address / 16 % 16) as nat));
    assert(hex_digit_value(text[3]) == Some((address % 16) as nat));
    assert(is_address_text(text));
}

} // verus!
