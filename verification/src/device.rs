//! The bus address of the machine that is spoken to: a number from 0 to 30.

use vstd::prelude::*;
use vstd::string::*;
use crate::error::{AppError, Failure};
use crate::text::{
    byte_of, decimal_digits, decimal_value, is_decimal_digit, is_number_text,
    lemma_decimal_digits_value, parse_byte, push_decimal, without_sign,
};

verus! {

/// The highest device number on the bus.
pub const MAX_DEVICE: u8 = 30;

/// The device number that is spoken to where none is given.
pub const DEFAULT_DEVICE: u8 = 30;

/// The device number that `text` writes, if it writes one: a number from 0 to
/// 30 in decimal.
pub open spec fn device_of(text: Seq<char>) -> Option<u8> {
    match byte_of(text) {
        Some(id) => if id <= MAX_DEVICE {
            Some(id)
        } else {
            None
        },
        None => None,
    }
}

/// The sentence that tells of a number that is no device number.
pub open spec fn out_of_range_text(id: u8) -> Seq<char> {
    "Device ID must be between 0 and 30, got "@ + decimal_digits(id as nat)
}

/// What is reported of a text that writes no device number: the sentence on
/// the range where the text writes a number up to 255, the text itself where
/// it does not.
pub open spec fn device_fault_text(text: Seq<char>) -> Seq<char> {
    match byte_of(text) {
        Some(id) => out_of_range_text(id),
        None => text,
    }
}

/// A device number that has been checked: it is at most 30.
#[derive(Clone, Copy, Debug, PartialEq, Eq)]
pub struct DeviceAddress {
    id: u8,
}

impl View for DeviceAddress {
    type V = u8;

    closed spec fn view(&self) -> u8 {
        self.id
    }
}

impl DeviceAddress {
    #[verifier::type_invariant]
    spec fn in_range(self) -> bool {
        self.id <= MAX_DEVICE
    }

    /// Checks a device number. Succeeds on 0 to 30; a higher number is
    /// reported in [`AppError::InvalidDevice`], in a sentence that names it.
    pub fn new(id: u8) -> (made: Result<DeviceAddress, AppError>)
        ensures
            match made {
                Ok(device) => id <= MAX_DEVICE && device@ == id,
                Err(error) => id > MAX_DEVICE && error@ == Failure::InvalidDevice(
                    out_of_range_text(id),
                ),
            },
    {
        if id > MAX_DEVICE {
            let mut text = String::from_str("Device ID must be between 0 and 30, got ");
            push_decimal(&mut text, id as u64);
            return Err(AppError::InvalidDevice(text));
        }
        Ok(DeviceAddress { id })
    }

    /// Reads a device number as it is typed: decimal digits, with or without
    /// a plus sign in front. Succeeds on exactly the texts that write a number
    /// from 0 to 30. A text that writes a number from 31 to 255 is reported in
    /// a sentence that names the number; any other text is handed back as it
    /// is. Both come in [`AppError::InvalidDevice`].
    pub fn parse(text: &str) -> (parsed: Result<DeviceAddress, AppError>)
        ensures
            match device_of(text@) {
                Some(id) => parsed matches Ok(device) && device@ == id,
                None => parsed matches Err(error) && error@ == Failure::InvalidDevice(
                    device_fault_text(text@),
                ),
            },
    {
        match parse_byte(text) {
            Some(id) => DeviceAddress::new(id),
            None => Err(AppError::InvalidDevice(text.to_owned())),
        }
    }

    /// The device number: at most 30.
    pub fn id(&self) -> (id: u8)
        ensures
            id == self@,
            id <= MAX_DEVICE,
    {
        proof {
            use_type_invariant(self);
        }
        self.id
    }
}

/// Every device number from 0 to 30, written in decimal, is read as itself.
pub proof fn lemma_device_in_range_accepted(id: u8)
    requires
        id <= MAX_DEVICE,
    ensures
        device_of(decimal_digits(id as nat)) == Some(id),
{
    lemma_decimal_digits_value(id as nat);
    lemma_no_sign_in_digits(id as nat);
}

/// No number above 30, written in decimal, is read as a device number.
pub proof fn lemma_device_above_range_rejected(number: nat)
    requires
        number > MAX_DEVICE,
    ensures
        device_of(decimal_digits(number)) is None,
{
    lemma_decimal_digits_value(number);
    lemma_no_sign_in_digits(number);
}

/// No text that writes a number above 30 is read as a device number, however
/// it writes it: with zeros in front, or with a sign.
pub proof fn lemma_device_value_above_range_rejected(text: Seq<char>)
    requires
        decimal_value(without_sign(text)) > MAX_DEVICE,
    ensures
        device_of(text) is None,
{
}

/// No text that writes no number is read as a device number: not the empty
/// text, not a sign alone, not a text that holds anything but digits after
/// the sign it may start with.
pub proof fn lemma_device_not_numeric_rejected(text: Seq<char>)
    requires
        !is_number_text(text),
    ensures
        device_of(text) is None,
{
}

/// The decimal digits of a number start with a digit, not with a sign.
proof fn lemma_no_sign_in_digits(n: nat)
    ensures
        without_sign(decimal_digits(n)) == decimal_digits(n),
{
    lemma_decimal_digits_value(n);
    assert(is_decimal_digit(decimal_digits(n)[0]));
}

} // verus!
