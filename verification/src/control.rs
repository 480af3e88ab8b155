//! What the two sides of the link decide.
//!
//! One side reads the transport byte by byte and feeds the accumulator; the
//! other writes encoded commands. Each reports on a control channel: a bad
//! frame is an error and the work goes on; a failure of the transport is
//! fatal and ends that side. Reading, writing and the channels themselves
//! are the caller's; the decisions are here.

use crate::accumulator::{step, FrameAccumulator};
use crate::error::Error;
use crate::response::Resp;
use vstd::prelude::*;

verus! {

/// What either side of the link reports on the control channel.
#[derive(Debug)]
pub enum ControlMessage {
    /// A non-fatal error, e.g. a single bad packet
    Error(Error),
    /// An error that halts either of the read or write threads
    FatalError(Error),
}

/// What the reading side does after one read.
#[derive(Debug)]
pub enum ReaderAction {
    /// Nothing to hand on; read again.
    Continue,
    /// Hand the response on and read again.
    Publish(Resp),
    /// Report on the control channel and read again.
    Report(ControlMessage),
    /// Report on the control channel and stop.
    Halt(ControlMessage),
}

/// What the writing side does after one write.
#[derive(Debug)]
pub enum WriterAction {
    /// Take the next command.
    Continue,
    /// Report on the control channel and stop.
    Halt(ControlMessage),
}

/// Decides what follows one read from the transport.
///
/// A byte goes to the accumulator: a frame that it completes is published
/// where it decodes and reported as an error where it does not. A failed
/// read is fatal; the accumulator is left as it was.
pub fn reader_step(accumulator: &mut FrameAccumulator, read: Result<u8, std::io::Error>) -> (action:
    ReaderAction)
    ensures
        match read {
            Ok(byte) => {
                &&& final(accumulator)@ == step(old(accumulator)@, byte).0
                &&& match step(old(accumulator)@, byte).1 {
                    None => action is Continue,
                    Some(Ok(resp)) => action matches ReaderAction::Publish(published) && published
                        == resp,
                    Some(Err(fault)) => action matches ReaderAction::Report(
                        ControlMessage::Error(error),
                    ) && fault.reported_by(error),
                }
            },
            Err(failure) => {
                &&& final(accumulator)@ == old(accumulator)@
                &&& action matches ReaderAction::Halt(
                    ControlMessage::FatalError(Error::ReadError(cause)),
                ) && cause == failure
            },
        },
{
    match read {
        Ok(byte) => match accumulator.push(byte) {
            Some(Ok(response)) => ReaderAction::Publish(response),
            Some(Err(e)) => ReaderAction::Report(ControlMessage::Error(e)),
            None => ReaderAction::Continue,
        },
        Err(e) => ReaderAction::Halt(ControlMessage::FatalError(Error::ReadError(e))),
    }
}

/// Decides what follows one write to the transport: a failed write is fatal.
pub fn writer_step(written: Result<(), std::io::Error>) -> (action: WriterAction)
    ensures
        match written {
            Ok(_) => action is Continue,
            Err(failure) => action matches WriterAction::Halt(
                ControlMessage::FatalError(Error::WriteError(cause)),
            ) && cause == failure,
        },
{
    match written {
        Ok(_) => WriterAction::Continue,
        Err(e) => WriterAction::Halt(ControlMessage::FatalError(Error::WriteError(e))),
    }
}

} // verus!
