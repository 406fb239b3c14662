//! The frames of the protocol, byte for byte.
//!
//! | frame                      | bytes                                     |
//! |----------------------------|-------------------------------------------|
//! | execute                    | `0x80`, address low, address high         |
//! | run                        | `0x81`                                    |
//! | load header, address only  | `0x40`, address low, address high         |
//! | load header, with size     | the above, then size low, size high       |
//! | load data                  | the payload, nothing before or after it   |
//!
//! Two builds of the loader are in use: one reads the size of a load from the
//! length of the data frame, the other from two more bytes in the header. The
//! two cannot be told apart on the wire, so the caller names the one it speaks
//! to with a [`HeaderLayout`].

use vstd::prelude::*;
use crate::wire::{high_byte, low_byte, split_word};

verus! {

/// Opcode of the execute frame.
pub const CMD_EXECUTE: u8 = 0x80;

/// Opcode of the run frame.
pub const CMD_RUN: u8 = 0x81;

/// Opcode of the load header.
pub const CMD_LOAD: u8 = 0x40;

/// Which header the loader at the other end expects before the data of a
/// load.
#[derive(Clone, Copy, Debug, PartialEq, Eq, Structural)]
pub enum HeaderLayout {
    /// Opcode and address: three bytes. The loader takes the size from the
    /// data frame that follows.
    AddressOnly,
    /// Opcode, address and size: five bytes.
    AddressAndSize,
}

impl Default for HeaderLayout {
    /// The layout of the loader as it is published: [`HeaderLayout::AddressOnly`].
    fn default() -> (layout: HeaderLayout)
        ensures
            layout == HeaderLayout::AddressOnly,
    {
        HeaderLayout::AddressOnly
    }
}

/// One write to the bus: a sequence of bytes that is sent whole. A frame
/// cannot be changed once it is built.
#[derive(Debug)]
pub struct CommandFrame {
    bytes: Vec<u8>,
}

impl View for CommandFrame {
    type V = Seq<u8>;

    closed spec fn view(&self) -> Seq<u8> {
        self.bytes@
    }
}

/// The bytes of the frame that has the loader call the code at `address`.
pub open spec fn execute_frame(address: u16) -> Seq<u8> {
    seq![CMD_EXECUTE, low_byte(address), high_byte(address)]
}

/// The bytes of the frame that has the loader run the BASIC program in
/// memory.
pub open spec fn run_frame() -> Seq<u8> {
    seq![CMD_RUN]
}

/// The bytes of the header that announces `size` bytes to be stored from
/// `address` on.
pub open spec fn load_header(layout: HeaderLayout, address: u16, size: u16) -> Seq<u8> {
    match layout {
        HeaderLayout::AddressOnly => seq![CMD_LOAD, low_byte(address), high_byte(address)],
        HeaderLayout::AddressAndSize => seq![
            CMD_LOAD,
            low_byte(address),
            high_byte(address),
            low_byte(size),
            high_byte(size),
        ],
    }
}

impl CommandFrame {
    /// The frame that holds `bytes`.
    pub(crate) fn from_bytes(bytes: Vec<u8>) -> (frame: CommandFrame)
        ensures
            frame@ == bytes@,
    {
        CommandFrame { bytes }
    }

    /// The bytes to write, in order.
    pub fn as_bytes(&self) -> (bytes: &[u8])
        ensures
            bytes@ == self@,
    {
        self.bytes.as_slice()
    }

    /// The number of bytes in the frame.
    pub fn len(&self) -> (count: usize)
        ensures
            count == self@.len(),
    {
        self.bytes.len()
    }

    /// Gives up the frame for its bytes.
    pub fn into_bytes(self) -> (bytes: Vec<u8>)
        ensures
            bytes@ == self@,
    {
        self.bytes
    }
}

/// Builds the execute frame for `address`: the opcode, then the address, low
/// byte first.
pub fn execute_command(address: u16) -> (frame: CommandFrame)
    ensures
        frame@ == execute_frame(address),
{
    let (low, high) = split_word(address);
    let bytes = vec![CMD_EXECUTE, low, high];
    assert(bytes@ =~= execute_frame(address));
    CommandFrame::from_bytes(bytes)
}

/// Builds the run frame: the opcode alone.
pub fn run_command() -> (frame: CommandFrame)
    ensures
        frame@ == run_frame(),
{
    let bytes = vec![CMD_RUN];
    assert(bytes@ =~= run_frame());
    CommandFrame::from_bytes(bytes)
}

/// Builds the header of a load of `size` bytes to `address`, in the layout
/// asked for.
pub fn load_header_frame(layout: HeaderLayout, address: u16, size: u16) -> (frame: CommandFrame)
    ensures
        frame@ == load_header(layout, address, size),
{
    let (address_low, address_high) = split_word(address);
    let bytes = match layout {
        HeaderLayout::AddressOnly => vec![CMD_LOAD, address_low, address_high],
        HeaderLayout::AddressAndSize => {
            let (size_low, size_high) = split_word(size);
            vec![CMD_LOAD, address_low, address_high, size_low, size_high]
        },
    };
    assert(bytes@ =~= load_header(layout, address, size));
    CommandFrame::from_bytes(bytes)
}

} // verus!
