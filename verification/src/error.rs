//! The errors that the protocol engine reports.

use crate::command::Cmd;
use crate::response::Resp;
use vstd::prelude::*;

verus! {

/// `std::io::Error`, the failure of a read or a write on the transport.
/// Opaque to the verifier.
#[verifier::external_type_specification]
#[verifier::external_body]
pub struct ExIoError(std::io::Error);

/// `std::sync::mpsc::SendError`, which hands back the value that a closed
/// channel did not take. Opaque to the verifier.
#[verifier::external_type_specification]
#[verifier::external_body]
#[verifier::reject_recursive_types(T)]
pub struct ExSendError<T>(std::sync::mpsc::SendError<T>);

/// What can go wrong in the protocol engine. A failure to open the device
/// arises before the engine starts and is not listed here.
#[derive(Debug)]
pub enum Error {
    /// A frame was malformed: wrong length, bad checksum or unknown command.
    PacketError(String),
    /// Reading from the transport failed.
    ReadError(std::io::Error),
    /// Writing to the transport failed.
    WriteError(std::io::Error),
    /// The text names no work mode.
    InvalidWorkMode(String),
    /// The text names no reporting mode.
    InvalidReportingMode(String),
    /// The text or number is no working period.
    InvalidWorkingPeriod { period: String, reason: String },
    /// The command queue was closed.
    ChannelSendError(std::sync::mpsc::SendError<Cmd>),
    /// No matching response arrived within the configured attempts.
    RetriesExceeded {
        /// a debug-ified representation of the command being retried
        command: String,
    },
    /// The response is of another kind than the one asked for.
    InvalidResponseConversion { resp: Resp, target: String },
}

} // verus!
