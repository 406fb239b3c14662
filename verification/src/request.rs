//! From what was typed to what is to be done.
//!
//! A request names a device, chooses one of execute, run and load, and may
//! bring an address and a file. It is checked as a whole before the bus is
//! touched: a request that passes is a plan that can be carried out, and one
//! that does not is reported with the first thing found wrong.
//!
//! How a load without an address is read depends on the loader's front end.
//! One takes the address from the file whenever none is given; the other
//! wants that said. The caller names the one it is with an [`AddressPolicy`].

use vstd::prelude::*;
use vstd::string::*;
use crate::address::{address_of, parse_address};
use crate::device::{device_fault_text, device_of, DeviceAddress};
use crate::error::{AppError, CommandFault, Failure};
use crate::load::{header_fits, AddressSource, LoadModel, LoadSpec};
use crate::operation::{Operation, OperationModel};

verus! {

/// How a load that is given no address is read.
#[derive(Clone, Copy, Debug, PartialEq, Eq, Structural)]
pub enum AddressPolicy {
    /// The address is taken from the file.
    HeaderByDefault,
    /// It is a fault: the address is taken from the file only where that is
    /// asked for.
    SourceRequired,
}

impl Default for AddressPolicy {
    /// The policy of the loader's own front end:
    /// [`AddressPolicy::HeaderByDefault`].
    fn default() -> (policy: AddressPolicy)
        ensures
            policy == AddressPolicy::HeaderByDefault,
    {
        AddressPolicy::HeaderByDefault
    }
}

/// The operation that a request chooses.
#[derive(Clone, Copy, Debug, PartialEq, Eq, Structural)]
pub enum OperationKind {
    Execute,
    Run,
    Load,
}

/// A request as it was typed.
#[derive(Debug)]
pub struct Request {
    /// The device number, in decimal.
    pub device: String,
    /// Whether execute was chosen.
    pub execute: bool,
    /// Whether run was chosen.
    pub run: bool,
    /// Whether load was chosen.
    pub load: bool,
    /// The address, in hexadecimal, where one was given.
    pub addr: Option<String>,
    /// The path of the file, where one was given.
    pub file: Option<String>,
    /// Whether the load address was asked to be taken from the file.
    pub from_header: bool,
}

/// A [`Request`] as a mathematical value.
pub ghost struct RequestModel {
    pub device: Seq<char>,
    pub execute: bool,
    pub run: bool,
    pub load: bool,
    pub addr: Option<Seq<char>>,
    pub file: Option<Seq<char>>,
    pub from_header: bool,
}

/// A text that may be missing, as the sequence of its characters.
pub open spec fn text_of(text: Option<String>) -> Option<Seq<char>> {
    match text {
        Some(text) => Some(text@),
        None => None,
    }
}

impl View for Request {
    type V = RequestModel;

    open spec fn view(&self) -> RequestModel {
        RequestModel {
            device: self.device@,
            execute: self.execute,
            run: self.run,
            load: self.load,
            addr: text_of(self.addr),
            file: text_of(self.file),
            from_header: self.from_header,
        }
    }
}

/// What a request that passed asks for. A load has yet to read its file.
#[derive(Debug)]
pub enum Command {
    /// Call the machine code at an address.
    Execute(u16),
    /// Run the BASIC program in memory.
    Run,
    /// Store the bytes of the file at `path` in memory.
    Load { source: AddressSource, path: String },
}

/// A [`Command`] as a mathematical value.
pub ghost enum CommandModel {
    Execute(u16),
    Run,
    Load { source: AddressSource, path: Seq<char> },
}

impl View for Command {
    type V = CommandModel;

    open spec fn view(&self) -> CommandModel {
        match self {
            Command::Execute(address) => CommandModel::Execute(*address),
            Command::Run => CommandModel::Run,
            Command::Load { source, path } => CommandModel::Load { source: *source, path: path@ },
        }
    }
}

/// A request that passed: the device to speak to and what to ask of it.
#[derive(Debug)]
pub struct Plan {
    pub device: DeviceAddress,
    pub command: Command,
}

/// A [`Plan`] as a mathematical value.
pub ghost struct PlanModel {
    pub device: u8,
    pub command: CommandModel,
}

impl View for Plan {
    type V = PlanModel;

    open spec fn view(&self) -> PlanModel {
        PlanModel { device: self.device@, command: self.command@ }
    }
}

/// The operation that is chosen, where exactly one is.
pub open spec fn chosen_operation(execute: bool, run: bool, load: bool) -> Result<
    OperationKind,
    CommandFault,
> {
    if execute && !run && !load {
        Ok(OperationKind::Execute)
    } else if run && !execute && !load {
        Ok(OperationKind::Run)
    } else if load && !execute && !run {
        Ok(OperationKind::Load)
    } else if !execute && !run && !load {
        Err(CommandFault::NoOperation)
    } else {
        Err(CommandFault::SeveralOperations)
    }
}

/// Where the address of a load comes from: from exactly one of the two
/// sources. With both it is a fault; with neither, the policy decides.
pub open spec fn selected_source(address: Option<u16>, from_header: bool, policy: AddressPolicy)
    -> Result<AddressSource, CommandFault> {
    match address {
        Some(address) => if from_header {
            Err(CommandFault::TwoAddressSources)
        } else {
            Ok(AddressSource::Explicit(address))
        },
        None => if from_header || policy == AddressPolicy::HeaderByDefault {
            Ok(AddressSource::FromFileHeader)
        } else {
            Err(CommandFault::NoAddressSource)
        },
    }
}

/// The command that an operation makes with what was given beside it, or the
/// first fault in this order: for execute, no address, a file, an address
/// from the file; for run, an address, a file, an address from the file; for
/// load, no file, then the faults of [`selected_source`].
pub open spec fn resolved_command(
    kind: OperationKind,
    address: Option<u16>,
    file: Option<Seq<char>>,
    from_header: bool,
    policy: AddressPolicy,
) -> Result<CommandModel, CommandFault> {
    match kind {
        OperationKind::Execute => if address is None {
            Err(CommandFault::MissingAddress)
        } else if file is Some {
            Err(CommandFault::FileWithoutLoad)
        } else if from_header {
            Err(CommandFault::HeaderAddressWithoutLoad)
        } else {
            Ok(CommandModel::Execute(address->0))
        },
        OperationKind::Run => if address is Some {
            Err(CommandFault::AddressWithRun)
        } else if file is Some {
            Err(CommandFault::FileWithoutLoad)
        } else if from_header {
            Err(CommandFault::HeaderAddressWithoutLoad)
        } else {
            Ok(CommandModel::Run)
        },
        OperationKind::Load => if file is None {
            Err(CommandFault::MissingFile)
        } else {
            match selected_source(address, from_header, policy) {
                Ok(source) => Ok(CommandModel::Load { source, path: file->0 }),
                Err(fault) => Err(fault),
            }
        },
    }
}

/// What a request comes to: the plan it makes, or the first failure in this
/// order: the choice of operation, the device number, the address as a text,
/// then what [`resolved_command`] finds.
pub open spec fn validation(request: RequestModel, policy: AddressPolicy) -> Result<
    PlanModel,
    Failure,
> {
    match chosen_operation(request.execute, request.run, request.load) {
        Err(fault) => Err(Failure::CommandError(fault)),
        Ok(kind) => if device_of(request.device) is None {
            Err(Failure::InvalidDevice(device_fault_text(request.device)))
        } else if request.addr is Some && address_of(request.addr->0) is None {
            Err(Failure::InvalidAddress(request.addr->0))
        } else {
            let address = match request.addr {
                Some(text) => address_of(text),
                None => None,
            };
            match resolved_command(kind, address, request.file, request.from_header, policy) {
                Ok(command) => Ok(PlanModel { device: device_of(request.device)->0, command }),
                Err(fault) => Err(Failure::CommandError(fault)),
            }
        },
    }
}

/// Finds the one operation that is chosen. Fails with
/// [`CommandFault::NoOperation`] where none is, and with
/// [`CommandFault::SeveralOperations`] where more than one is.
pub fn choose_operation(execute: bool, run: bool, load: bool) -> (chosen: Result<
    OperationKind,
    AppError,
>)
    ensures
        match chosen_operation(execute, run, load) {
            Ok(kind) => chosen matches Ok(found) && found == kind,
            Err(fault) => chosen matches Err(error) && error@ == Failure::CommandError(fault),
        },
{
    if execute && !run && !load {
        Ok(OperationKind::Execute)
    } else if run && !execute && !load {
        Ok(OperationKind::Run)
    } else if load && !execute && !run {
        Ok(OperationKind::Load)
    } else if !execute && !run && !load {
        Err(AppError::CommandError(CommandFault::NoOperation))
    } else {
        Err(AppError::CommandError(CommandFault::SeveralOperations))
    }
}

/// Settles where the address of a load comes from. Exactly one source has to
/// be named: an address, or the file. With both it fails with
/// [`CommandFault::TwoAddressSources`]. With neither the address is taken
/// from the file under [`AddressPolicy::HeaderByDefault`], and it fails with
/// [`CommandFault::NoAddressSource`] under [`AddressPolicy::SourceRequired`].
pub fn select_address_source(
    address: Option<u16>,
    from_header: bool,
    policy: AddressPolicy,
) -> (selected: Result<AddressSource, AppError>)
    ensures
        match selected_source(address, from_header, policy) {
            Ok(source) => selected matches Ok(found) && found == source,
            Err(fault) => selected matches Err(error) && error@ == Failure::CommandError(fault),
        },
{
    match address {
        Some(address) => {
            if from_header {
                Err(AppError::CommandError(CommandFault::TwoAddressSources))
            } else {
                Ok(AddressSource::Explicit(address))
            }
        },
        None => {
            let by_default = match policy {
                AddressPolicy::HeaderByDefault => true,
                AddressPolicy::SourceRequired => false,
            };
            if from_header || by_default {
                Ok(AddressSource::FromFileHeader)
            } else {
                Err(AppError::CommandError(CommandFault::NoAddressSource))
            }
        },
    }
}

/// Whether `made` is what `outcome` asks for.
pub open spec fn command_resolved(
    made: Result<Command, AppError>,
    outcome: Result<CommandModel, CommandFault>,
) -> bool {
    match outcome {
        Ok(command) => made matches Ok(found) && found@ == command,
        Err(fault) => made matches Err(error) && error@ == Failure::CommandError(fault),
    }
}

/// Checks an operation against what was given beside it, and makes the
/// command. Execute needs an address and takes no file. Run takes neither.
/// Load needs a file, and its address comes from one source as
/// [`select_address_source`] settles it.
pub fn resolve_command(
    kind: OperationKind,
    address: Option<u16>,
    file: Option<String>,
    from_header: bool,
    policy: AddressPolicy,
) -> (made: Result<Command, AppError>)
    ensures
        command_resolved(
            made,
            resolved_command(kind, address, text_of(file), from_header, policy),
        ),
{
    match kind {
        OperationKind::Execute => {
            match address {
                None => Err(AppError::CommandError(CommandFault::MissingAddress)),
                Some(address) => {
                    if file.is_some() {
                        Err(AppError::CommandError(CommandFault::FileWithoutLoad))
                    } else if from_header {
                        Err(AppError::CommandError(CommandFault::HeaderAddressWithoutLoad))
                    } else {
                        Ok(Command::Execute(address))
                    }
                },
            }
        },
        OperationKind::Run => {
            if address.is_some() {
                Err(AppError::CommandError(CommandFault::AddressWithRun))
            } else if file.is_some() {
                Err(AppError::CommandError(CommandFault::FileWithoutLoad))
            } else if from_header {
                Err(AppError::CommandError(CommandFault::HeaderAddressWithoutLoad))
            } else {
                Ok(Command::Run)
            }
        },
        OperationKind::Load => {
            match file {
                None => Err(AppError::CommandError(CommandFault::MissingFile)),
                Some(path) => {
                    match select_address_source(address, from_header, policy) {
                        Ok(source) => Ok(Command::Load { source, path }),
                        Err(error) => Err(error),
                    }
                },
            }
        },
    }
}

/// Whether `made` is what `outcome` asks for.
pub open spec fn validated(made: Result<Plan, AppError>, outcome: Result<PlanModel, Failure>)
    -> bool {
    match outcome {
        Ok(plan) => made matches Ok(found) && found@ == plan,
        Err(failure) => made matches Err(error) && error@ == failure,
    }
}

/// Checks a request as a whole and makes the plan. Nothing is read and
/// nothing is sent: a request that fails here has touched neither the file
/// nor the bus.
pub fn validate(request: &Request, policy: AddressPolicy) -> (made: Result<Plan, AppError>)
    ensures
        validated(made, validation(request@, policy)),
{
    let kind = match choose_operation(request.execute, request.run, request.load) {
        Ok(kind) => kind,
        Err(error) => {
            return Err(error);
        },
    };
    let device = match DeviceAddress::parse(request.device.as_str()) {
        Ok(device) => device,
        Err(error) => {
            return Err(error);
        },
    };
    let address = match &request.addr {
        Some(text) => match parse_address(text.as_str()) {
            Ok(address) => Some(address),
            Err(error) => {
                return Err(error);
            },
        },
        None => None,
    };
    let file = match &request.file {
        Some(path) => Some(path.clone()),
        None => None,
    };
    match resolve_command(kind, address, file, request.from_header, policy) {
        Ok(command) => Ok(Plan { device, command }),
        Err(error) => Err(error),
    }
}

impl Command {
    /// The path of the file that this command reads, if it reads one.
    pub fn file_path(&self) -> (path: Option<&String>)
        ensures
            match self@ {
                CommandModel::Load { source, path: wanted } => path matches Some(found) && found@
                    == wanted,
                _ => path is None,
            },
    {
        match self {
            Command::Load { source: _, path } => Some(path),
            _ => None,
        }
    }

    /// Makes the operation, now that the file has been read. Execute and run
    /// read no file and leave `file_bytes` aside. A load fails with
    /// [`CommandFault::FileTooShort`] where its address is to come from a
    /// file of fewer than two bytes.
    pub fn into_operation(self, file_bytes: Vec<u8>) -> (made: Result<Operation, AppError>)
        ensures
            match self@ {
                CommandModel::Execute(address) => made matches Ok(operation) && operation@
                    == OperationModel::Execute(address),
                CommandModel::Run => made matches Ok(operation) && operation@
                    == OperationModel::Run,
                CommandModel::Load { source, path } => if header_fits(source, file_bytes@) {
                    made matches Ok(operation) && operation@ == OperationModel::Load(
                        LoadModel { source, file: file_bytes@ },
                    )
                } else {
                    made matches Err(error) && error@ == Failure::CommandError(
                        CommandFault::FileTooShort { file_size: file_bytes@.len() as usize },
                    )
                },
            },
    {
        match self {
            Command::Execute(address) => Ok(Operation::Execute(address)),
            Command::Run => Ok(Operation::Run),
            Command::Load { source, path: _ } => {
                match LoadSpec::new(source, file_bytes) {
                    Ok(spec) => Ok(Operation::Load(spec)),
                    Err(error) => Err(error),
                }
            },
        }
    }
}

} // verus!
