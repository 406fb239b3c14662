//! One session on the bus, step by step.
//!
//! A session initializes the bus, has the device listen, writes the frames in
//! order, and has the device stop listening. The library decides what comes
//! next; the caller does it and reports how it went. Whatever fails, a device
//! that was made to listen is told to stop before the session ends, and the
//! first failure is the one that is reported.

use vstd::prelude::*;
use crate::device::DeviceAddress;
use crate::error::{AppError, Failure};
use crate::frame::CommandFrame;
use crate::operation::frames_bytes;
use crate::transport::{driver_accepts, new_device_channel};

verus! {

/// The channel that the loader listens on.
pub const LISTEN_CHANNEL: u8 = 15;

/// What the caller is to do next on the bus.
#[derive(Debug)]
pub enum Action {
    /// Open the bus and initialize it.
    Initialize,
    /// Have the device of this channel listen.
    Listen(xum1541::DeviceChannel),
    /// Write this frame, whole, in one write.
    Write(CommandFrame),
    /// Have the device stop listening.
    Unlisten,
    /// Nothing: the session is over.
    Finish,
}

/// An [`Action`] as a mathematical value. The channel of a listen is the
/// driver's own and is left out.
pub ghost enum ActionModel {
    Initialize,
    Listen,
    Write(Seq<u8>),
    Unlisten,
    Finish,
}

impl View for Action {
    type V = ActionModel;

    open spec fn view(&self) -> ActionModel {
        match self {
            Action::Initialize => ActionModel::Initialize,
            Action::Listen(_) => ActionModel::Listen,
            Action::Write(frame) => ActionModel::Write(frame@),
            Action::Unlisten => ActionModel::Unlisten,
            Action::Finish => ActionModel::Finish,
        }
    }
}

/// Where a session stands: which action is under way, and what is left to
/// do after it.
#[derive(Debug)]
pub enum Session {
    /// The bus is being initialized.
    Initializing { device: DeviceAddress, frames: Vec<CommandFrame> },
    /// The device is being made to listen.
    Addressing { frames: Vec<CommandFrame> },
    /// The device listens and a frame is being written; `frames` are those
    /// that follow it.
    Writing { frames: Vec<CommandFrame> },
    /// The device is being told to stop listening, after `failure` if a write
    /// failed.
    Releasing { failure: Option<AppError> },
    /// The session is over.
    Finished { result: Result<(), AppError> },
}

/// A [`Session`] as a mathematical value.
pub ghost enum SessionModel {
    Initializing { device: u8, frames: Seq<Seq<u8>> },
    Addressing { frames: Seq<Seq<u8>> },
    Writing { frames: Seq<Seq<u8>> },
    Releasing { failure: Option<Failure> },
    Finished { result: Result<(), Failure> },
}

/// A failure that may be absent, as a mathematical value.
pub open spec fn failure_of(failure: Option<AppError>) -> Option<Failure> {
    match failure {
        Some(error) => Some(error@),
        None => None,
    }
}

/// The result of a session as a mathematical value.
pub open spec fn result_of(result: Result<(), AppError>) -> Result<(), Failure> {
    match result {
        Ok(()) => Ok(()),
        Err(error) => Err(error@),
    }
}

impl View for Session {
    type V = SessionModel;

    open spec fn view(&self) -> SessionModel {
        match self {
            Session::Initializing { device, frames } => SessionModel::Initializing {
                device: device@,
                frames: frames_bytes(frames@),
            },
            Session::Addressing { frames } => SessionModel::Addressing {
                frames: frames_bytes(frames@),
            },
            Session::Writing { frames } => SessionModel::Writing { frames: frames_bytes(frames@) },
            Session::Releasing { failure } => SessionModel::Releasing {
                failure: failure_of(*failure),
            },
            Session::Finished { result } => SessionModel::Finished { result: result_of(*result) },
        }
    }
}

/// What follows while the device listens and nothing has failed: the first
/// of the frames that are left is written, or, with none left, the device is
/// told to stop.
pub open spec fn carried_on(frames: Seq<Seq<u8>>, after: SessionModel, action: ActionModel)
    -> bool {
    if frames.len() > 0 {
        after == (SessionModel::Writing { frames: frames.drop_first() }) && action
            == ActionModel::Write(frames[0])
    } else {
        after == (SessionModel::Releasing { failure: None }) && action == ActionModel::Unlisten
    }
}

/// Whether a session that stood at `before` and was told of `outcome`, the
/// outcome of the action that was under way, stands at `after` with `action`
/// to do next.
pub open spec fn stepped(
    before: SessionModel,
    outcome: Result<(), xum1541::Error>,
    after: SessionModel,
    action: ActionModel,
) -> bool {
    match before {
        SessionModel::Initializing { device, frames } => match outcome {
            Ok(()) => if driver_accepts(device, LISTEN_CHANNEL) {
                after == (SessionModel::Addressing { frames }) && action == ActionModel::Listen
            } else {
                after matches SessionModel::Finished { result: Err(Failure::XumError(_)) }
                    && action == ActionModel::Finish
            },
            Err(error) => after == (SessionModel::Finished {
                result: Err(Failure::XumError(error)),
            }) && action == ActionModel::Finish,
        },
        SessionModel::Addressing { frames } => match outcome {
            Ok(()) => carried_on(frames, after, action),
            Err(error) => after == (SessionModel::Finished {
                result: Err(Failure::XumError(error)),
            }) && action == ActionModel::Finish,
        },
        SessionModel::Writing { frames } => match outcome {
            Ok(()) => carried_on(frames, after, action),
            Err(error) => after == (SessionModel::Releasing {
                failure: Some(Failure::XumError(error)),
            }) && action == ActionModel::Unlisten,
        },
        SessionModel::Releasing { failure } => action == ActionModel::Finish && after == (
        SessionModel::Finished {
            result: match failure {
                Some(first) => Err(first),
                None => match outcome {
                    Ok(()) => Ok(()),
                    Err(error) => Err(Failure::XumError(error)),
                },
            },
        }),
        SessionModel::Finished { result } => after == before && action == ActionModel::Finish,
    }
}

/// Takes the first frame off `frames` to be written, or tells the device to
/// stop where none is left.
fn carry_on(frames: Vec<CommandFrame>) -> (next: (Session, Action))
    ensures
        carried_on(frames_bytes(frames@), next.0@, next.1@),
{
    let mut frames = frames;
    if frames.len() > 0 {
        let ghost all = frames_bytes(frames@);
        let first = frames.remove(0);
        assert(frames_bytes(frames@) =~= all.drop_first());
        (Session::Writing { frames }, Action::Write(first))
    } else {
        (Session::Releasing { failure: None }, Action::Unlisten)
    }
}

impl Session {
    /// Opens a session to `device` that is to write `frames`, in their order.
    /// The first thing to do is to initialize the bus.
    pub fn begin(device: DeviceAddress, frames: Vec<CommandFrame>) -> (first: (Session, Action))
        ensures
            first.0@ == (SessionModel::Initializing {
                device: device@,
                frames: frames_bytes(frames@),
            }),
            first.1@ == ActionModel::Initialize,
    {
        (Session::Initializing { device, frames }, Action::Initialize)
    }

    /// Takes the outcome of the action that was under way and says what to do
    /// next.
    ///
    /// Once the bus is initialized the device is made to listen on
    /// [`LISTEN_CHANNEL`]; the driver addresses devices 8 to 30 only, and the
    /// session ends with the driver's error for a lower number. A failure
    /// before the device listens ends the session at once. While it listens
    /// the frames are written one after the other; after the last one, or
    /// after a write that failed, the device is told to stop, and only then
    /// the session ends: with the failure of the write if there was one, else
    /// with the outcome of the stop. A session that is over stays over.
    pub fn step(self, outcome: Result<(), xum1541::Error>) -> (next: (Session, Action))
        ensures
            stepped(self@, outcome, next.0@, next.1@),
    {
        match self {
            Session::Initializing { device, frames } => {
                match outcome {
                    Ok(()) => {
                        match new_device_channel(device.id(), LISTEN_CHANNEL) {
                            Ok(channel) => (Session::Addressing { frames }, Action::Listen(channel)),
                            Err(error) => (
                                Session::Finished { result: Err(AppError::from(error)) },
                                Action::Finish,
                            ),
                        }
                    },
                    Err(error) => (
                        Session::Finished { result: Err(AppError::from(error)) },
                        Action::Finish,
                    ),
                }
            },
            Session::Addressing { frames } => {
                match outcome {
                    Ok(()) => carry_on(frames),
                    Err(error) => (
                        Session::Finished { result: Err(AppError::from(error)) },
                        Action::Finish,
                    ),
                }
            },
            Session::Writing { frames } => {
                match outcome {
                    Ok(()) => carry_on(frames),
                    Err(error) => (
                        Session::Releasing { failure: Some(AppError::from(error)) },
                        Action::Unlisten,
                    ),
                }
            },
            Session::Releasing { failure } => {
                let result = match failure {
                    Some(first) => Err(first),
                    None => match outcome {
                        Ok(()) => Ok(()),
                        Err(error) => Err(AppError::from(error)),
                    },
                };
                (Session::Finished { result }, Action::Finish)
            },
            Session::Finished { result } => (Session::Finished { result }, Action::Finish),
        }
    }

    /// How the session ended, once it is over.
    pub fn into_result(self) -> (result: Option<Result<(), AppError>>)
        ensures
            match self@ {
                SessionModel::Finished { result: ended } => result matches Some(found)
                    && result_of(found) == ended,
                _ => result is None,
            },
    {
        match self {
            Session::Finished { result } => Some(result),
            _ => None,
        }
    }
}

/// A frame is written only while the device listens: after a listen or a
/// write that succeeded. The frame is the first of those that were left, and
/// the others are left in their order.
pub proof fn lemma_write_only_while_listening(
    before: SessionModel,
    outcome: Result<(), xum1541::Error>,
    after: SessionModel,
    action: ActionModel,
)
    requires
        stepped(before, outcome, after, action),
        action is Write,
    ensures
        outcome is Ok,
        before matches SessionModel::Addressing { frames } || before matches SessionModel::Writing {
            frames,
        },
        ({
            let frames = match before {
                SessionModel::Addressing { frames } => frames,
                SessionModel::Writing { frames } => frames,
                _ => Seq::empty(),
            };
            frames.len() > 0 && action == ActionModel::Write(frames[0]) && after == (
            SessionModel::Writing { frames: frames.drop_first() })
        }),
{
}

/// A device that listens is told to stop before the session ends: from a
/// write, whether it succeeded or failed, the session goes on to a write or
/// to the stop, never to its end; and it reaches its end from the stop, not
/// from a write.
pub proof fn lemma_released_before_finished(
    before: SessionModel,
    outcome: Result<(), xum1541::Error>,
    after: SessionModel,
    action: ActionModel,
)
    requires
        stepped(before, outcome, after, action),
    ensures
        before is Writing ==> !(after is Finished) && (action is Write || action is Unlisten),
        before is Writing && outcome is Err ==> action is Unlisten,
        action is Unlisten <==> after is Releasing,
        after is Finished ==> action is Finish,
{
}

/// The failure of a write is not lost: whatever the stop that follows it
/// comes to, the session ends with that failure.
pub proof fn lemma_first_failure_reported(
    error: xum1541::Error,
    frames: Seq<Seq<u8>>,
    stop: Result<(), xum1541::Error>,
    released: SessionModel,
    ended: SessionModel,
    first: ActionModel,
    second: ActionModel,
)
    requires
        stepped(SessionModel::Writing { frames }, Err(error), released, first),
        stepped(released, stop, ended, second),
    ensures
        ended == (SessionModel::Finished { result: Err(Failure::XumError(error)) }),
{
}

} // verus!
