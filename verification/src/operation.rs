//! The three operations, and the frames that each is sent as.

use vstd::prelude::*;
use crate::error::{AppError, CommandFault, Failure};
use crate::frame::{execute_command, execute_frame, run_command, run_frame, CommandFrame, HeaderLayout};
use crate::load::{load_outcome, LoadModel, LoadSpec};

verus! {

/// What the loader is asked to do. One request asks for one operation.
#[derive(Debug)]
pub enum Operation {
    /// Call the machine code at an address.
    Execute(u16),
    /// Run the BASIC program in memory.
    Run,
    /// Store the bytes of a file in memory.
    Load(LoadSpec),
}

/// An [`Operation`] as a mathematical value.
pub ghost enum OperationModel {
    Execute(u16),
    Run,
    Load(LoadModel),
}

impl View for Operation {
    type V = OperationModel;

    open spec fn view(&self) -> OperationModel {
        match self {
            Operation::Execute(address) => OperationModel::Execute(*address),
            Operation::Run => OperationModel::Run,
            Operation::Load(spec) => OperationModel::Load(spec@),
        }
    }
}

/// The frames that an operation is sent as, each as its bytes, in the order
/// in which they are written; or the fault that forbids the operation.
/// Execute and run are one frame each. A load is its header, then its data.
pub open spec fn encoding(operation: OperationModel, layout: HeaderLayout) -> Result<
    Seq<Seq<u8>>,
    CommandFault,
> {
    match operation {
        OperationModel::Execute(address) => Ok(seq![execute_frame(address)]),
        OperationModel::Run => Ok(seq![run_frame()]),
        OperationModel::Load(load) => match load_outcome(load.source, load.file, layout) {
            Ok((header, data)) => Ok(seq![header, data]),
            Err(fault) => Err(fault),
        },
    }
}

/// The bytes of each frame of a list.
pub open spec fn frames_bytes(frames: Seq<CommandFrame>) -> Seq<Seq<u8>> {
    Seq::new(frames.len(), |i: int| frames[i]@)
}

/// Whether `built` is what `outcome` asks for: frames with the bytes it
/// gives, or the fault it gives as a command error.
pub open spec fn encoded(
    built: Result<Vec<CommandFrame>, AppError>,
    outcome: Result<Seq<Seq<u8>>, CommandFault>,
) -> bool {
    match outcome {
        Ok(bytes) => built matches Ok(frames) && frames_bytes(frames@) == bytes,
        Err(fault) => built matches Err(error) && error@ == Failure::CommandError(fault),
    }
}

/// Builds the frames of an operation, in the order in which they are to be
/// written. It fails on a load whose payload is too large, and on nothing
/// else; no frame is built then.
pub fn encode(operation: &Operation, layout: HeaderLayout) -> (built: Result<
    Vec<CommandFrame>,
    AppError,
>)
    ensures
        encoded(built, encoding(operation@, layout)),
{
    match operation {
        Operation::Execute(address) => {
            let frames = vec![execute_command(*address)];
            assert(frames_bytes(frames@) =~= seq![execute_frame(*address)]);
            Ok(frames)
        },
        Operation::Run => {
            let frames = vec![run_command()];
            assert(frames_bytes(frames@) =~= seq![run_frame()]);
            Ok(frames)
        },
        Operation::Load(spec) => {
            match spec.frames(layout) {
                Ok(load) => {
                    let ghost header = load.header@;
                    let ghost data = load.data@;
                    let frames = vec![load.header, load.data];
                    assert(frames_bytes(frames@) =~= seq![header, data]);
                    Ok(frames)
                },
                Err(error) => Err(error),
            }
        },
    }
}

/// Encoding is a function of the operation and the layout: two runs of
/// [`encode`] on the same operation and layout give frames with the same
/// bytes, or the same failure.
pub proof fn lemma_encoding_is_deterministic(
    first_operation: Operation,
    second_operation: Operation,
    layout: HeaderLayout,
    first: Result<Vec<CommandFrame>, AppError>,
    second: Result<Vec<CommandFrame>, AppError>,
)
    requires
        first_operation@ == second_operation@,
        encoded(first, encoding(first_operation@, layout)),
        encoded(second, encoding(second_operation@, layout)),
    ensures
        match (first, second) {
            (Ok(one), Ok(other)) => frames_bytes(one@) == frames_bytes(other@),
            (Err(one), Err(other)) => one@ == other@,
            _ => false,
        },
{
}

} // verus!
