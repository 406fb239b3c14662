//! The ways a request can fail, and the words each failure is reported in.

use vstd::prelude::*;
use vstd::string::*;
use vstd::std_specs::convert::FromSpecImpl;
use crate::text::{decimal_digits, push_decimal};
use crate::transport::driver_error_text;

verus! {

/// What is wrong with a command: the choice of operation, what was given with
/// it, or the file it is to load.
#[derive(Clone, Copy, Debug, PartialEq, Eq, Structural)]
pub enum CommandFault {
    /// None of execute, run and load was chosen.
    NoOperation,
    /// More than one of execute, run and load was chosen.
    SeveralOperations,
    /// Execute was chosen without an address.
    MissingAddress,
    /// Run was chosen with an address.
    AddressWithRun,
    /// Load was chosen without a file.
    MissingFile,
    /// A file was given, and load was not chosen.
    FileWithoutLoad,
    /// The address was to come from the file, and load was not chosen.
    HeaderAddressWithoutLoad,
    /// Load was given an address and was told to take it from the file.
    TwoAddressSources,
    /// Load was given no address, and was not told to take it from the file,
    /// where one of the two has to be said.
    NoAddressSource,
    /// The address was to come from the file, which has fewer than two bytes.
    FileTooShort { file_size: usize },
    /// The file holds more than one block can carry.
    PayloadTooLarge { file_size: usize },
}

/// Why a request was not carried out.
#[derive(Debug)]
pub enum AppError {
    /// The device number is no number from 0 to 30. Holds the text that was
    /// given, or a sentence that names the number.
    InvalidDevice(String),
    /// The address is not four hexadecimal digits. Holds the text that was
    /// given.
    InvalidAddress(String),
    /// The file to load does not exist.
    FileNotFound(String),
    /// The file to load could not be read.
    FileReadError(String),
    /// The bus driver failed.
    XumError(xum1541::Error),
    /// The command cannot be carried out as given.
    CommandError(CommandFault),
}

/// An [`AppError`] as a mathematical value: each text as the sequence of its
/// characters.
pub ghost enum Failure {
    InvalidDevice(Seq<char>),
    InvalidAddress(Seq<char>),
    FileNotFound(Seq<char>),
    FileReadError(Seq<char>),
    XumError(xum1541::Error),
    CommandError(CommandFault),
}

impl View for AppError {
    type V = Failure;

    open spec fn view(&self) -> Failure {
        match self {
            AppError::InvalidDevice(text) => Failure::InvalidDevice(text@),
            AppError::InvalidAddress(text) => Failure::InvalidAddress(text@),
            AppError::FileNotFound(text) => Failure::FileNotFound(text@),
            AppError::FileReadError(text) => Failure::FileReadError(text@),
            AppError::XumError(error) => Failure::XumError(*error),
            AppError::CommandError(fault) => Failure::CommandError(*fault),
        }
    }
}

/// How reading the file to load went wrong.
#[derive(Clone, Copy, Debug, PartialEq, Eq, Structural)]
pub enum ReadFailure {
    /// There is no such file.
    NotFound,
    /// Anything else.
    Other,
}

/// The sentence that tells of a command fault.
pub open spec fn command_fault_text(fault: CommandFault) -> Seq<char> {
    match fault {
        CommandFault::NoOperation => "One of --execute, --run and --load must be specified"@,
        CommandFault::SeveralOperations => "Only one of --execute, --run and --load can be used"@,
        CommandFault::MissingAddress => "--addr must be specified with --execute"@,
        CommandFault::AddressWithRun => "Cannot use --addr with --run command"@,
        CommandFault::MissingFile => "File path required for load command"@,
        CommandFault::FileWithoutLoad => "File path can only be used with load command"@,
        CommandFault::HeaderAddressWithoutLoad =>
            "The load address can only be taken from a file with load command"@,
        CommandFault::TwoAddressSources =>
            "Cannot use --addr when the load address is taken from the file"@,
        CommandFault::NoAddressSource =>
            "Either --addr or taking the load address from the file must be specified"@,
        CommandFault::FileTooShort { file_size } => "File too short to hold a load address: "@
            + decimal_digits(file_size as nat) + " bytes (minimum is 2)"@,
        CommandFault::PayloadTooLarge { file_size } => "File size too large: "@ + decimal_digits(
            file_size as nat,
        ) + " bytes (maximum is 65535)"@,
    }
}

/// The words that open the report of a failure, by its kind.
pub open spec fn failure_heading(failure: Failure) -> Seq<char> {
    match failure {
        Failure::InvalidDevice(_) => "Invalid device (0-30): "@,
        Failure::InvalidAddress(_) => "Invalid address: "@,
        Failure::FileNotFound(_) => "File not found: "@,
        Failure::FileReadError(_) => "File read error: "@,
        Failure::XumError(_) => "xum1541 error: "@,
        Failure::CommandError(_) => "Command error: "@,
    }
}

/// The report of a failure: its heading, then what the failure holds. For a
/// driver failure that is `driver_text`, the driver's own wording.
pub open spec fn failure_text(failure: Failure, driver_text: Seq<char>) -> Seq<char> {
    failure_heading(failure) + match failure {
        Failure::InvalidDevice(text) => text,
        Failure::InvalidAddress(text) => text,
        Failure::FileNotFound(text) => text,
        Failure::FileReadError(text) => text,
        Failure::XumError(_) => driver_text,
        Failure::CommandError(fault) => command_fault_text(fault),
    }
}

impl CommandFault {
    /// The sentence that tells of this fault.
    pub fn message(&self) -> (text: String)
        ensures
            text@ == command_fault_text(*self),
    {
        match self {
            CommandFault::NoOperation => String::from_str(
                "One of --execute, --run and --load must be specified",
            ),
            CommandFault::SeveralOperations => String::from_str(
                "Only one of --execute, --run and --load can be used",
            ),
            CommandFault::MissingAddress => String::from_str(
                "--addr must be specified with --execute",
            ),
            CommandFault::AddressWithRun => String::from_str(
                "Cannot use --addr with --run command",
            ),
            CommandFault::MissingFile => String::from_str("File path required for load command"),
            CommandFault::FileWithoutLoad => String::from_str(
                "File path can only be used with load command",
            ),
            CommandFault::HeaderAddressWithoutLoad => String::from_str(
                "The load address can only be taken from a file with load command",
            ),
            CommandFault::TwoAddressSources => String::from_str(
                "Cannot use --addr when the load address is taken from the file",
            ),
            CommandFault::NoAddressSource => String::from_str(
                "Either --addr or taking the load address from the file must be specified",
            ),
            CommandFault::FileTooShort { file_size } => {
                let mut text = String::from_str("File too short to hold a load address: ");
                push_decimal(&mut text, *file_size as u64);
                text.append(" bytes (minimum is 2)");
                text
            },
            CommandFault::PayloadTooLarge { file_size } => {
                let mut text = String::from_str("File size too large: ");
                push_decimal(&mut text, *file_size as u64);
                text.append(" bytes (maximum is 65535)");
                text
            },
        }
    }
}

impl AppError {
    /// The failure to report when the file to load could not be read:
    /// [`AppError::FileNotFound`] where there is no such file,
    /// [`AppError::FileReadError`] for anything else, with `detail` as its
    /// text either way.
    pub fn from_read_failure(kind: ReadFailure, detail: String) -> (error: AppError)
        ensures
            error@ == match kind {
                ReadFailure::NotFound => Failure::FileNotFound(detail@),
                ReadFailure::Other => Failure::FileReadError(detail@),
            },
    {
        match kind {
            ReadFailure::NotFound => AppError::FileNotFound(detail),
            ReadFailure::Other => AppError::FileReadError(detail),
        }
    }

    /// The report of this failure, as one line for a person to read: the
    /// heading of its kind, then the text or sentence it holds. A driver
    /// failure is reported in the driver's own words.
    pub fn message(&self) -> (text: String)
        ensures
            exists|driver_text: Seq<char>| text@ == failure_text(self@, driver_text),
            !(self@ is XumError) ==> text@ == failure_text(self@, Seq::empty()),
    {
        match self {
            AppError::InvalidDevice(given) => {
                let mut text = String::from_str("Invalid device (0-30): ");
                text.append(given.as_str());
                assert(text@ == failure_text(self@, Seq::empty()));
                text
            },
            AppError::InvalidAddress(given) => {
                let mut text = String::from_str("Invalid address: ");
                text.append(given.as_str());
                assert(text@ == failure_text(self@, Seq::empty()));
                text
            },
            AppError::FileNotFound(detail) => {
                let mut text = String::from_str("File not found: ");
                text.append(detail.as_str());
                assert(text@ == failure_text(self@, Seq::empty()));
                text
            },
            AppError::FileReadError(detail) => {
                let mut text = String::from_str("File read error: ");
                text.append(detail.as_str());
                assert(text@ == failure_text(self@, Seq::empty()));
                text
            },
            AppError::XumError(error) => {
                let detail = driver_error_text(error);
                let mut text = String::from_str("xum1541 error: ");
                text.append(detail.as_str());
                assert(text@ == failure_text(self@, detail@));
                text
            },
            AppError::CommandError(fault) => {
                let sentence = fault.message();
                let mut text = String::from_str("Command error: ");
                text.append(sentence.as_str());
                assert(text@ == failure_text(self@, Seq::empty()));
                text
            },
        }
    }
}

impl From<xum1541::Error> for AppError {
    fn from(error: xum1541::Error) -> (wrapped: AppError) {
        AppError::XumError(error)
    }
}

impl FromSpecImpl<xum1541::Error> for AppError {
    open spec fn obeys_from_spec() -> bool {
        true
    }

    open spec fn from_spec(error: xum1541::Error) -> AppError {
        AppError::XumError(error)
    }
}

} // verus!
