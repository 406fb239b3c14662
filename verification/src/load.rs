//! Preparing a load: where the bytes go, which bytes go, and whether they
//! fit.
//!
//! A file is loaded either to an address that the caller names, in which case
//! every byte of the file is payload, or to the address that the file itself
//! starts with, low byte first, as Commodore program files do. In that case
//! the two address bytes are taken off and the rest is payload.
//!
//! The bus driver moves at most 32768 bytes in one transfer. With five bytes
//! set aside for the longest header, a payload is at most 32763 bytes.

use vstd::prelude::*;
use vstd::slice::{slice_subrange, slice_to_vec};
use crate::error::{AppError, CommandFault, Failure};
use crate::frame::{load_header, load_header_frame, CommandFrame, HeaderLayout};
use crate::wire::{high_byte, join_word, low_byte, word_of};

verus! {

/// The most bytes that one load can carry.
pub const MAX_FILE_SIZE: usize = 32763;

/// The number of bytes that a load address takes at the head of a file.
pub const ADDRESS_BYTES: usize = 2;

/// Where the address of a load comes from.
#[derive(Clone, Copy, Debug, PartialEq, Eq, Structural)]
pub enum AddressSource {
    /// The caller names it.
    Explicit(u16),
    /// The first two bytes of the file hold it, low byte first.
    FromFileHeader,
}

/// A load as a mathematical value: the address source and the bytes of the
/// file.
pub ghost struct LoadModel {
    pub source: AddressSource,
    pub file: Seq<u8>,
}

/// Whether a file has the bytes that its address source reads.
pub open spec fn header_fits(source: AddressSource, file: Seq<u8>) -> bool {
    source is FromFileHeader ==> file.len() >= ADDRESS_BYTES
}

/// The address that the payload is stored from.
pub open spec fn load_address(source: AddressSource, file: Seq<u8>) -> u16
    recommends
        header_fits(source, file),
{
    match source {
        AddressSource::Explicit(address) => address,
        AddressSource::FromFileHeader => word_of(file[0], file[1]),
    }
}

/// The bytes that are stored: the file, without its address bytes where it
/// brings them.
pub open spec fn load_payload(source: AddressSource, file: Seq<u8>) -> Seq<u8>
    recommends
        header_fits(source, file),
{
    match source {
        AddressSource::Explicit(_) => file,
        AddressSource::FromFileHeader => file.subrange(ADDRESS_BYTES as int, file.len() as int),
    }
}

/// What a load comes to: the header and the data frame, in the order in which
/// they are written, or the fault that forbids it. A file that is too short
/// is reported before one that is too large; both faults name the size of the
/// file as it was given, address bytes included.
pub open spec fn load_outcome(source: AddressSource, file: Seq<u8>, layout: HeaderLayout) -> Result<
    (Seq<u8>, Seq<u8>),
    CommandFault,
> {
    if !header_fits(source, file) {
        Err(CommandFault::FileTooShort { file_size: file.len() as usize })
    } else if load_payload(source, file).len() > MAX_FILE_SIZE {
        Err(CommandFault::PayloadTooLarge { file_size: file.len() as usize })
    } else {
        Ok(
            (
                load_header(
                    layout,
                    load_address(source, file),
                    load_payload(source, file).len() as u16,
                ),
                load_payload(source, file),
            ),
        )
    }
}

/// A file to load and where its address comes from. Where the address comes
/// from the file, the file has the two bytes that hold it.
#[derive(Debug)]
pub struct LoadSpec {
    address_source: AddressSource,
    file_bytes: Vec<u8>,
}

impl View for LoadSpec {
    type V = LoadModel;

    closed spec fn view(&self) -> LoadModel {
        LoadModel { source: self.address_source, file: self.file_bytes@ }
    }
}

/// The two frames of a load, and the address they load to.
#[derive(Debug)]
pub struct LoadFrames {
    /// The address that the payload is stored from.
    pub address: u16,
    /// The frame to write first.
    pub header: CommandFrame,
    /// The frame to write second: the payload.
    pub data: CommandFrame,
}

impl LoadSpec {
    #[verifier::type_invariant]
    spec fn well_formed(self) -> bool {
        header_fits(self.address_source, self.file_bytes@)
    }

    /// Takes a file and its address source together. Fails with
    /// [`CommandFault::FileTooShort`] where the address is to come from a
    /// file of fewer than two bytes, and on no other input.
    pub fn new(address_source: AddressSource, file_bytes: Vec<u8>) -> (made: Result<
        LoadSpec,
        AppError,
    >)
        ensures
            match made {
                Ok(spec) => header_fits(address_source, file_bytes@) && spec@ == (LoadModel {
                    source: address_source,
                    file: file_bytes@,
                }),
                Err(error) => !header_fits(address_source, file_bytes@) && error@
                    == Failure::CommandError(
                    CommandFault::FileTooShort { file_size: file_bytes@.len() as usize },
                ),
            },
    {
        match address_source {
            AddressSource::Explicit(_) => {},
            AddressSource::FromFileHeader => {
                if file_bytes.len() < ADDRESS_BYTES {
                    return Err(
                        AppError::CommandError(
                            CommandFault::FileTooShort { file_size: file_bytes.len() },
                        ),
                    );
                }
            },
        }
        Ok(LoadSpec { address_source, file_bytes })
    }

    /// Where the address comes from.
    pub fn address_source(&self) -> (source: AddressSource)
        ensures
            source == self@.source,
    {
        self.address_source
    }

    /// The file as it was given.
    pub fn file_bytes(&self) -> (bytes: &[u8])
        ensures
            bytes@ == self@.file,
            header_fits(self@.source, self@.file),
    {
        proof {
            use_type_invariant(self);
        }
        self.file_bytes.as_slice()
    }

    /// The address that the payload is stored from.
    pub fn address(&self) -> (address: u16)
        ensures
            address == load_address(self@.source, self@.file),
    {
        proof {
            use_type_invariant(self);
        }
        match self.address_source {
            AddressSource::Explicit(address) => address,
            AddressSource::FromFileHeader => join_word(self.file_bytes[0], self.file_bytes[1]),
        }
    }

    /// The bytes that are stored.
    pub fn payload(&self) -> (payload: &[u8])
        ensures
            payload@ == load_payload(self@.source, self@.file),
    {
        proof {
            use_type_invariant(self);
        }
        match self.address_source {
            AddressSource::Explicit(_) => self.file_bytes.as_slice(),
            AddressSource::FromFileHeader => slice_subrange(
                self.file_bytes.as_slice(),
                ADDRESS_BYTES,
                self.file_bytes.len(),
            ),
        }
    }

    /// Builds the two frames of this load. Fails with
    /// [`CommandFault::PayloadTooLarge`] where the payload has more than
    /// [`MAX_FILE_SIZE`] bytes, and on no other input.
    pub fn frames(&self, layout: HeaderLayout) -> (built: Result<LoadFrames, AppError>)
        ensures
            header_fits(self@.source, self@.file),
            load_built(built, load_outcome(self@.source, self@.file, layout)),
            built matches Ok(frames) ==> frames.address == load_address(self@.source, self@.file),
    {
        proof {
            use_type_invariant(self);
        }
        let payload = self.payload();
        let size = payload.len();
        if size > MAX_FILE_SIZE {
            return Err(
                AppError::CommandError(
                    CommandFault::PayloadTooLarge { file_size: self.file_bytes.len() },
                ),
            );
        }
        let address = self.address();
        let header = load_header_frame(layout, address, size as u16);
        let data = CommandFrame::from_bytes(slice_to_vec(payload));
        Ok(LoadFrames { address, header, data })
    }
}

/// Whether `built` is what `outcome` asks for: the two frames with the bytes
/// it gives, or the fault it gives as a command error.
pub open spec fn load_built(
    built: Result<LoadFrames, AppError>,
    outcome: Result<(Seq<u8>, Seq<u8>), CommandFault>,
) -> bool {
    match outcome {
        Ok((header, data)) => built matches Ok(frames) && frames.header@ == header && frames.data@
            == data,
        Err(fault) => built matches Err(error) && error@ == Failure::CommandError(fault),
    }
}

/// Prepares the load of a file: to `address` where one is given, to the
/// address in the first two bytes of the file where none is.
///
/// The result is the header frame and the data frame, to be written in that
/// order with nothing between them. It fails, before anything is built, where
/// the address is to come from a file of fewer than two bytes, and where the
/// payload has more than [`MAX_FILE_SIZE`] bytes.
pub fn load_command(address: Option<u16>, data: Vec<u8>, layout: HeaderLayout) -> (built: Result<
    LoadFrames,
    AppError,
>)
    ensures
        load_built(built, load_outcome(source_for(address), data@, layout)),
        built matches Ok(frames) ==> frames.address == load_address(source_for(address), data@),
{
    let source = match address {
        Some(address) => AddressSource::Explicit(address),
        None => AddressSource::FromFileHeader,
    };
    match LoadSpec::new(source, data) {
        Ok(spec) => spec.frames(layout),
        Err(error) => Err(error),
    }
}

/// The address source that an address, given or not, stands for.
pub open spec fn source_for(address: Option<u16>) -> AddressSource {
    match address {
        Some(address) => AddressSource::Explicit(address),
        None => AddressSource::FromFileHeader,
    }
}

/// A file that starts with an address, loaded to the address it starts
/// with, is sent as the rest of it is when loaded to that address by name:
/// the same header and the same data.
pub proof fn lemma_header_load_is_explicit_load(
    address: u16,
    payload: Seq<u8>,
    layout: HeaderLayout,
)
    requires
        payload.len() <= MAX_FILE_SIZE,
    ensures
        load_outcome(
            AddressSource::FromFileHeader,
            seq![low_byte(address), high_byte(address)] + payload,
            layout,
        ) == load_outcome(AddressSource::Explicit(address), payload, layout),
{
    let file = seq![low_byte(address), high_byte(address)] + payload;
    assert(file.subrange(ADDRESS_BYTES as int, file.len() as int) =~= payload);
    assert(word_of(file[0], file[1]) == address);
}

} // verus!
