use ieee_sender::error::{AppError, CommandFault};
use ieee_sender::frame::{
    execute_command, load_header_frame, run_command, HeaderLayout, CMD_EXECUTE, CMD_LOAD, CMD_RUN,
};
use ieee_sender::load::{load_command, AddressSource, LoadSpec, MAX_FILE_SIZE};
use ieee_sender::operation::{encode, Operation};
use ieee_sender::wire::{join_word, split_word};

fn bytes_of(frames: &[ieee_sender::frame::CommandFrame]) -> Vec<Vec<u8>> {
    frames.iter().map(|frame| frame.as_bytes().to_vec()).collect()
}

#[test]
fn opcodes_are_those_of_the_loader() {
    assert_eq!(CMD_EXECUTE, 0x80);
    assert_eq!(CMD_RUN, 0x81);
    assert_eq!(CMD_LOAD, 0x40);
}

#[test]
fn split_word_is_little_endian() {
    assert_eq!(split_word(0x1234), (0x34, 0x12));
    assert_eq!(split_word(0x0000), (0x00, 0x00));
    assert_eq!(split_word(0xFFFF), (0xFF, 0xFF));
    assert_eq!(split_word(0x00FF), (0xFF, 0x00));
    assert_eq!(split_word(0x0100), (0x00, 0x01));
}

#[test]
fn join_word_is_little_endian() {
    assert_eq!(join_word(0x34, 0x12), 0x1234);
    assert_eq!(join_word(0x00, 0x04), 0x0400);
    assert_eq!(join_word(0xFF, 0xFF), 0xFFFF);
    assert_eq!(join_word(0x01, 0x00), 0x0001);
}

#[test]
fn split_and_join_undo_each_other() {
    for value in 0..=u16::MAX {
        let (low, high) = split_word(value);
        assert_eq!(join_word(low, high), value);
        assert_eq!(u16::from_le_bytes([low, high]), value);
    }
}

#[test]
fn execute_frame_for_1234() {
    let frame = execute_command(0x1234);
    assert_eq!(frame.as_bytes(), &[0x80, 0x34, 0x12]);
    assert_eq!(frame.len(), 3);
    assert_eq!(frame.into_bytes(), vec![0x80, 0x34, 0x12]);
}

#[test]
fn execute_frame_at_the_ends_of_memory() {
    assert_eq!(execute_command(0x0000).as_bytes(), &[0x80, 0x00, 0x00]);
    assert_eq!(execute_command(0xFFFF).as_bytes(), &[0x80, 0xFF, 0xFF]);
    assert_eq!(execute_command(0x7C00).as_bytes(), &[0x80, 0x00, 0x7C]);
}

#[test]
fn run_frame_is_one_byte() {
    let frame = run_command();
    assert_eq!(frame.as_bytes(), &[0x81]);
    assert_eq!(frame.len(), 1);
}

#[test]
fn load_header_in_both_layouts() {
    let short = load_header_frame(HeaderLayout::AddressOnly, 0x0401, 0x1234);
    assert_eq!(short.as_bytes(), &[0x40, 0x01, 0x04]);
    let long = load_header_frame(HeaderLayout::AddressAndSize, 0x0401, 0x1234);
    assert_eq!(long.as_bytes(), &[0x40, 0x01, 0x04, 0x34, 0x12]);
}

#[test]
fn explicit_load_of_ten_bytes_with_sized_header() {
    let file: Vec<u8> = vec![1, 2, 3, 4, 5, 6, 7, 8, 9, 10];
    let frames = load_command(Some(0x0300), file.clone(), HeaderLayout::AddressAndSize).unwrap();
    assert_eq!(frames.header.as_bytes(), &[0x40, 0x00, 0x03, 0x0A, 0x00]);
    assert_eq!(frames.data.as_bytes(), &file[..]);
    assert_eq!(frames.address, 0x0300);
}

#[test]
fn explicit_load_of_ten_bytes_with_address_only_header() {
    let file: Vec<u8> = vec![1, 2, 3, 4, 5, 6, 7, 8, 9, 10];
    let frames = load_command(Some(0x0300), file.clone(), HeaderLayout::AddressOnly).unwrap();
    assert_eq!(frames.header.as_bytes(), &[0x40, 0x00, 0x03]);
    assert_eq!(frames.data.as_bytes(), &file[..]);
}

#[test]
fn header_derived_load_takes_address_from_file() {
    let file: Vec<u8> = vec![0x00, 0x04, 0xAA, 0xBB, 0xCC];
    let frames = load_command(None, file.clone(), HeaderLayout::AddressOnly).unwrap();
    assert_eq!(frames.address, 0x0400);
    assert_eq!(frames.header.as_bytes(), &[0x40, 0x00, 0x04]);
    assert_eq!(frames.data.as_bytes(), &file[2..]);
}

#[test]
fn header_derived_load_with_sized_header_counts_the_payload() {
    let file: Vec<u8> = vec![0x01, 0x08, 0xAA, 0xBB, 0xCC];
    let frames = load_command(None, file, HeaderLayout::AddressAndSize).unwrap();
    assert_eq!(frames.address, 0x0801);
    assert_eq!(frames.header.as_bytes(), &[0x40, 0x01, 0x08, 0x03, 0x00]);
    assert_eq!(frames.data.as_bytes(), &[0xAA, 0xBB, 0xCC]);
}

#[test]
fn header_derived_load_of_short_file_fails() {
    for size in 0..2usize {
        let error = load_command(None, vec![0x00; size], HeaderLayout::AddressOnly).unwrap_err();
        assert!(matches!(
            error,
            AppError::CommandError(CommandFault::FileTooShort { file_size }) if file_size == size
        ));
    }
}

#[test]
fn header_derived_load_of_address_alone_has_empty_payload() {
    let frames = load_command(None, vec![0x00, 0x04], HeaderLayout::AddressAndSize).unwrap();
    assert_eq!(frames.address, 0x0400);
    assert_eq!(frames.header.as_bytes(), &[0x40, 0x00, 0x04, 0x00, 0x00]);
    assert_eq!(frames.data.len(), 0);
}

#[test]
fn explicit_load_of_empty_file_has_empty_payload() {
    let frames = load_command(Some(0x1000), Vec::new(), HeaderLayout::AddressOnly).unwrap();
    assert_eq!(frames.header.as_bytes(), &[0x40, 0x00, 0x10]);
    assert_eq!(frames.data.len(), 0);
}

#[test]
fn payload_at_the_limit_succeeds() {
    assert_eq!(MAX_FILE_SIZE, 32763);
    let frames = load_command(Some(0x0400), vec![0x55; 32763], HeaderLayout::AddressAndSize)
        .unwrap();
    assert_eq!(frames.data.len(), 32763);
    assert_eq!(frames.header.as_bytes(), &[0x40, 0x00, 0x04, 0xFB, 0x7F]);
    let stripped = load_command(None, vec![0x55; 32765], HeaderLayout::AddressOnly).unwrap();
    assert_eq!(stripped.data.len(), 32763);
    assert_eq!(stripped.address, 0x5555);
}

#[test]
fn payload_above_the_limit_fails() {
    let error = load_command(Some(0x0400), vec![0x55; 32764], HeaderLayout::AddressOnly)
        .unwrap_err();
    assert!(matches!(
        error,
        AppError::CommandError(CommandFault::PayloadTooLarge { file_size: 32764 })
    ));
    assert_eq!(
        error.message(),
        "Command error: File size too large: 32764 bytes (maximum is 65535)"
    );
}

#[test]
fn too_large_reports_the_size_of_the_file_not_of_the_payload() {
    let error = load_command(None, vec![0x55; 32766], HeaderLayout::AddressOnly).unwrap_err();
    assert!(matches!(
        error,
        AppError::CommandError(CommandFault::PayloadTooLarge { file_size: 32766 })
    ));
    assert_eq!(
        error.message(),
        "Command error: File size too large: 32766 bytes (maximum is 65535)"
    );
}

#[test]
fn load_spec_keeps_what_it_was_given() {
    let spec = LoadSpec::new(AddressSource::FromFileHeader, vec![0x00, 0x04, 7, 8]).unwrap();
    assert_eq!(spec.address_source(), AddressSource::FromFileHeader);
    assert_eq!(spec.file_bytes(), &[0x00, 0x04, 7, 8]);
    assert_eq!(spec.address(), 0x0400);
    assert_eq!(spec.payload(), &[7, 8]);
    let named = LoadSpec::new(AddressSource::Explicit(0x2000), vec![0x00, 0x04, 7, 8]).unwrap();
    assert_eq!(named.address_source(), AddressSource::Explicit(0x2000));
    assert_eq!(named.address(), 0x2000);
    assert_eq!(named.payload(), &[0x00, 0x04, 7, 8]);
}

#[test]
fn load_spec_refuses_a_file_without_its_address() {
    let error = LoadSpec::new(AddressSource::FromFileHeader, vec![0x00]).unwrap_err();
    assert!(matches!(
        error,
        AppError::CommandError(CommandFault::FileTooShort { file_size: 1 })
    ));
    assert!(LoadSpec::new(AddressSource::Explicit(0), vec![0x00]).is_ok());
    assert!(LoadSpec::new(AddressSource::Explicit(0), Vec::new()).is_ok());
}

#[test]
fn encode_gives_one_frame_for_execute_and_run() {
    let execute = encode(&Operation::Execute(0x1234), HeaderLayout::AddressOnly).unwrap();
    assert_eq!(bytes_of(&execute), vec![vec![0x80, 0x34, 0x12]]);
    let run = encode(&Operation::Run, HeaderLayout::AddressAndSize).unwrap();
    assert_eq!(bytes_of(&run), vec![vec![0x81]]);
}

#[test]
fn encode_gives_header_then_data_for_load() {
    let spec = LoadSpec::new(AddressSource::Explicit(0x0300), vec![9, 8, 7]).unwrap();
    let frames = encode(&Operation::Load(spec), HeaderLayout::AddressAndSize).unwrap();
    assert_eq!(bytes_of(&frames), vec![vec![0x40, 0x00, 0x03, 0x03, 0x00], vec![9, 8, 7]]);
}

#[test]
fn encode_fails_on_a_load_that_is_too_large() {
    let spec = LoadSpec::new(AddressSource::FromFileHeader, vec![0; 40000]).unwrap();
    let error = encode(&Operation::Load(spec), HeaderLayout::AddressOnly).unwrap_err();
    assert!(matches!(
        error,
        AppError::CommandError(CommandFault::PayloadTooLarge { file_size: 40000 })
    ));
}

#[test]
fn encoding_twice_gives_the_same_bytes() {
    let file: Vec<u8> = (0..200u16).map(|n| (n % 251) as u8).collect();
    for layout in [HeaderLayout::AddressOnly, HeaderLayout::AddressAndSize] {
        let one = LoadSpec::new(AddressSource::FromFileHeader, file.clone()).unwrap();
        let other = LoadSpec::new(AddressSource::FromFileHeader, file.clone()).unwrap();
        let first = encode(&Operation::Load(one), layout).unwrap();
        let second = encode(&Operation::Load(other), layout).unwrap();
        assert_eq!(bytes_of(&first), bytes_of(&second));
        let again = encode(&Operation::Execute(0xBEEF), layout).unwrap();
        assert_eq!(bytes_of(&again), bytes_of(&encode(&Operation::Execute(0xBEEF), layout).unwrap()));
    }
    assert_eq!(execute_command(0x1234).as_bytes(), execute_command(0x1234).as_bytes());
    assert_eq!(run_command().as_bytes(), run_command().as_bytes());
}

#[test]
fn a_loaded_header_reads_back_as_its_address() {
    let frames = load_command(Some(0xC000), vec![1, 2, 3], HeaderLayout::AddressOnly).unwrap();
    let header = frames.header.as_bytes();
    assert_eq!(join_word(header[1], header[2]), 0xC000);
}
