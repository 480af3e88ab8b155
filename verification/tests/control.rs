use sds011_exporter::{
    reader_step, writer_step, ControlMessage, Error, FrameAccumulator, ReaderAction, Resp,
    SetWorkingPeriodResponse, WorkingPeriod, WriterAction,
};
use std::io;

const GOOD: [u8; 10] = [0xAA, 0xC5, 0x08, 0x00, 0x05, 0x00, 0xA1, 0x60, 0x0E, 0xAB];

#[test]
fn reader_publishes_a_decoded_frame() {
    let mut accumulator = FrameAccumulator::new();
    assert!(matches!(reader_step(&mut accumulator, Ok(0x17)), ReaderAction::Continue));
    for byte in &GOOD[..9] {
        assert!(matches!(reader_step(&mut accumulator, Ok(*byte)), ReaderAction::Continue));
    }
    match reader_step(&mut accumulator, Ok(GOOD[9])) {
        ReaderAction::Publish(response) => assert_eq!(
            response,
            Resp::SetWorkingPeriod(SetWorkingPeriodResponse {
                query: true,
                working_period: WorkingPeriod::Periodic(5),
                device: 0xA160,
            })
        ),
        other => panic!("unexpected: {:?}", other),
    }
}

#[test]
fn reader_reports_a_bad_frame_and_goes_on() {
    let mut accumulator = FrameAccumulator::new();
    let mut bad = GOOD;
    bad[8] = 0x00;
    for byte in &bad[..9] {
        assert!(matches!(reader_step(&mut accumulator, Ok(*byte)), ReaderAction::Continue));
    }
    match reader_step(&mut accumulator, Ok(bad[9])) {
        ReaderAction::Report(ControlMessage::Error(Error::PacketError(message))) => {
            assert!(message.contains("has invalid checksum: expected=e received=0"))
        }
        other => panic!("unexpected: {:?}", other),
    }
    for byte in &GOOD[..9] {
        assert!(matches!(reader_step(&mut accumulator, Ok(*byte)), ReaderAction::Continue));
    }
    assert!(matches!(reader_step(&mut accumulator, Ok(GOOD[9])), ReaderAction::Publish(_)));
}

#[test]
fn reader_halts_on_a_failed_read() {
    let mut accumulator = FrameAccumulator::new();
    for byte in &GOOD[..5] {
        reader_step(&mut accumulator, Ok(*byte));
    }
    let failure = io::Error::new(io::ErrorKind::BrokenPipe, "unplugged");
    match reader_step(&mut accumulator, Err(failure)) {
        ReaderAction::Halt(ControlMessage::FatalError(Error::ReadError(cause))) => {
            assert_eq!(cause.kind(), io::ErrorKind::BrokenPipe);
            assert_eq!(cause.to_string(), "unplugged");
        }
        other => panic!("unexpected: {:?}", other),
    }
    // the frame in progress is still there
    for byte in &GOOD[5..9] {
        assert!(matches!(reader_step(&mut accumulator, Ok(*byte)), ReaderAction::Continue));
    }
    assert!(matches!(reader_step(&mut accumulator, Ok(GOOD[9])), ReaderAction::Publish(_)));
}

#[test]
fn writer_goes_on_after_a_write() {
    assert!(matches!(writer_step(Ok(())), WriterAction::Continue));
}

#[test]
fn writer_halts_on_a_failed_write() {
    let failure = io::Error::new(io::ErrorKind::TimedOut, "no room");
    match writer_step(Err(failure)) {
        WriterAction::Halt(ControlMessage::FatalError(Error::WriteError(cause))) => {
            assert_eq!(cause.kind(), io::ErrorKind::TimedOut);
            assert_eq!(cause.to_string(), "no room");
        }
        other => panic!("unexpected: {:?}", other),
    }
}
