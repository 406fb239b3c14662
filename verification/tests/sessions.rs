use ieee_sender::device::DeviceAddress;
use ieee_sender::error::{AppError, CommandFault, ReadFailure};
use ieee_sender::frame::{execute_command, HeaderLayout};
use ieee_sender::load::load_command;
use ieee_sender::session::{Action, Session, LISTEN_CHANNEL};
use ieee_sender::transport::{DRIVER_MAX_CHANNEL, DRIVER_MAX_DEVICE, DRIVER_MIN_DEVICE};

fn bus_error(message: &str) -> xum1541::Error {
    xum1541::Error::Args { message: message.to_string() }
}

fn load_session(device: u8) -> (Session, Action) {
    let frames = load_command(Some(0x0400), vec![1, 2, 3], HeaderLayout::AddressOnly).unwrap();
    Session::begin(DeviceAddress::new(device).unwrap(), vec![frames.header, frames.data])
}

#[test]
fn driver_limits_are_those_of_the_driver() {
    assert_eq!(DRIVER_MIN_DEVICE, xum1541::DEVICE_MIN_NUM);
    assert_eq!(DRIVER_MAX_DEVICE, xum1541::DEVICE_MAX_NUM);
    assert_eq!(DRIVER_MAX_CHANNEL, xum1541::DRIVE_MAX_CHANNEL);
    assert_eq!(LISTEN_CHANNEL, 15);
}

#[test]
fn a_load_session_writes_header_then_data_then_stops() {
    let (session, action) = load_session(8);
    assert!(matches!(action, Action::Initialize));
    let (session, action) = session.step(Ok(()));
    match action {
        Action::Listen(channel) => {
            assert_eq!(channel.device(), 8);
            assert_eq!(channel.channel(), 15);
        }
        other => panic!("no listen: {other:?}"),
    }
    let (session, action) = session.step(Ok(()));
    match action {
        Action::Write(frame) => assert_eq!(frame.as_bytes(), &[0x40, 0x00, 0x04]),
        other => panic!("no write: {other:?}"),
    }
    let (session, action) = session.step(Ok(()));
    match action {
        Action::Write(frame) => assert_eq!(frame.as_bytes(), &[1, 2, 3]),
        other => panic!("no write: {other:?}"),
    }
    let (session, action) = session.step(Ok(()));
    assert!(matches!(action, Action::Unlisten));
    let (session, action) = session.step(Ok(()));
    assert!(matches!(action, Action::Finish));
    assert!(matches!(session.into_result(), Some(Ok(()))));
}

#[test]
fn an_execute_session_writes_one_frame() {
    let device = DeviceAddress::parse("30").unwrap();
    let (session, _) = Session::begin(device, vec![execute_command(0x7C00)]);
    let (session, action) = session.step(Ok(()));
    match action {
        Action::Listen(channel) => assert_eq!(channel.device(), 30),
        other => panic!("no listen: {other:?}"),
    }
    let (session, action) = session.step(Ok(()));
    match action {
        Action::Write(frame) => assert_eq!(frame.as_bytes(), &[0x80, 0x00, 0x7C]),
        other => panic!("no write: {other:?}"),
    }
    let (session, action) = session.step(Ok(()));
    assert!(matches!(action, Action::Unlisten));
    let (session, action) = session.step(Ok(()));
    assert!(matches!(action, Action::Finish));
    assert!(matches!(session.into_result(), Some(Ok(()))));
}

#[test]
fn a_failed_initialize_ends_the_session() {
    let (session, _) = load_session(8);
    let (session, action) = session.step(Err(bus_error("no bus")));
    assert!(matches!(action, Action::Finish));
    match session.into_result() {
        Some(Err(AppError::XumError(error))) => assert_eq!(error, bus_error("no bus")),
        other => panic!("unexpected end: {other:?}"),
    }
}

#[test]
fn a_failed_listen_ends_the_session_without_a_stop() {
    let (session, _) = load_session(8);
    let (session, _) = session.step(Ok(()));
    let (session, action) = session.step(Err(bus_error("nobody there")));
    assert!(matches!(action, Action::Finish));
    match session.into_result() {
        Some(Err(AppError::XumError(error))) => assert_eq!(error, bus_error("nobody there")),
        other => panic!("unexpected end: {other:?}"),
    }
}

#[test]
fn a_failed_write_still_stops_the_device() {
    let (session, _) = load_session(8);
    let (session, _) = session.step(Ok(()));
    let (session, _) = session.step(Ok(()));
    let (session, action) = session.step(Err(bus_error("write failed")));
    assert!(matches!(action, Action::Unlisten));
    let (session, action) = session.step(Ok(()));
    assert!(matches!(action, Action::Finish));
    match session.into_result() {
        Some(Err(AppError::XumError(error))) => assert_eq!(error, bus_error("write failed")),
        other => panic!("unexpected end: {other:?}"),
    }
}

#[test]
fn the_first_failure_is_the_one_reported() {
    let (session, _) = load_session(8);
    let (session, _) = session.step(Ok(()));
    let (session, _) = session.step(Ok(()));
    let (session, _) = session.step(Err(bus_error("write failed")));
    let (session, action) = session.step(Err(bus_error("stop failed")));
    assert!(matches!(action, Action::Finish));
    match session.into_result() {
        Some(Err(AppError::XumError(error))) => assert_eq!(error, bus_error("write failed")),
        other => panic!("unexpected end: {other:?}"),
    }
}

#[test]
fn a_failed_stop_is_reported() {
    let device = DeviceAddress::new(10).unwrap();
    let (session, _) = Session::begin(device, Vec::new());
    let (session, _) = session.step(Ok(()));
    let (session, action) = session.step(Ok(()));
    assert!(matches!(action, Action::Unlisten));
    let (session, action) = session.step(Err(bus_error("stop failed")));
    assert!(matches!(action, Action::Finish));
    match session.into_result() {
        Some(Err(AppError::XumError(error))) => assert_eq!(error, bus_error("stop failed")),
        other => panic!("unexpected end: {other:?}"),
    }
}

#[test]
fn the_driver_refuses_devices_below_8() {
    for device in 0..8u8 {
        let (session, _) = load_session(device);
        let (session, action) = session.step(Ok(()));
        assert!(matches!(action, Action::Finish));
        match session.into_result() {
            Some(Err(AppError::XumError(error))) => {
                assert_eq!(error, xum1541::DeviceChannel::new(device, 15).unwrap_err());
            }
            other => panic!("unexpected end: {other:?}"),
        }
    }
    for device in 8..=30u8 {
        let (session, _) = load_session(device);
        let (_, action) = session.step(Ok(()));
        match action {
            Action::Listen(channel) => assert_eq!(channel.device(), device),
            other => panic!("no listen: {other:?}"),
        }
    }
}

#[test]
fn a_session_that_is_over_stays_over() {
    let (session, _) = load_session(8);
    let (session, _) = session.step(Err(bus_error("no bus")));
    let (session, action) = session.step(Ok(()));
    assert!(matches!(action, Action::Finish));
    let (session, action) = session.step(Err(bus_error("later")));
    assert!(matches!(action, Action::Finish));
    match session.into_result() {
        Some(Err(AppError::XumError(error))) => assert_eq!(error, bus_error("no bus")),
        other => panic!("unexpected end: {other:?}"),
    }
}

#[test]
fn a_session_under_way_has_no_result() {
    let (session, _) = load_session(8);
    assert!(session.into_result().is_none());
    let (session, _) = load_session(8);
    let (session, _) = session.step(Ok(()));
    assert!(session.into_result().is_none());
}

#[test]
fn driver_failure_is_reported_in_the_driver_s_words() {
    let error = AppError::from(bus_error("bad numbers"));
    assert!(matches!(&error, AppError::XumError(inner) if *inner == bus_error("bad numbers")));
    assert_eq!(
        error.message(),
        format!("xum1541 error: {}", bus_error("bad numbers"))
    );
    assert_eq!(
        error.message(),
        "xum1541 error: xum1541 library called with invalid arguments: bad numbers"
    );
}

#[test]
fn read_failures_are_told_apart() {
    let missing = AppError::from_read_failure(ReadFailure::NotFound, "game.prg".to_string());
    assert!(matches!(&missing, AppError::FileNotFound(detail) if detail == "game.prg"));
    assert_eq!(missing.message(), "File not found: game.prg");
    let denied = AppError::from_read_failure(ReadFailure::Other, "permission denied".to_string());
    assert!(matches!(&denied, AppError::FileReadError(detail) if detail == "permission denied"));
    assert_eq!(denied.message(), "File read error: permission denied");
}

#[test]
fn every_command_fault_has_its_sentence() {
    let sentences = [
        (CommandFault::NoOperation, "One of --execute, --run and --load must be specified"),
        (CommandFault::SeveralOperations, "Only one of --execute, --run and --load can be used"),
        (CommandFault::MissingAddress, "--addr must be specified with --execute"),
        (CommandFault::AddressWithRun, "Cannot use --addr with --run command"),
        (CommandFault::MissingFile, "File path required for load command"),
        (CommandFault::FileWithoutLoad, "File path can only be used with load command"),
        (
            CommandFault::HeaderAddressWithoutLoad,
            "The load address can only be taken from a file with load command",
        ),
        (
            CommandFault::TwoAddressSources,
            "Cannot use --addr when the load address is taken from the file",
        ),
        (
            CommandFault::NoAddressSource,
            "Either --addr or taking the load address from the file must be specified",
        ),
        (
            CommandFault::FileTooShort { file_size: 0 },
            "File too short to hold a load address: 0 bytes (minimum is 2)",
        ),
        (
            CommandFault::PayloadTooLarge { file_size: 70000 },
            "File size too large: 70000 bytes (maximum is 65535)",
        ),
    ];
    for (fault, sentence) in sentences {
        assert_eq!(fault.message(), sentence);
        assert_eq!(AppError::CommandError(fault).message(), format!("Command error: {sentence}"));
    }
}
