//! Protocol engine for the SDS011 particulate-matter sensor.
//!
//! The sensor speaks a fixed ten-byte frame format over a serial link. This
//! crate frames raw bytes into packets, validates and decodes them into typed
//! responses, encodes typed commands into wire bytes, and decides how a
//! command is matched with its response amid unrelated traffic.
//!
//! The crate touches no device, channel or clock. Whoever owns the transport
//! runs the loops and asks the crate, step by step, what to do.

pub mod accumulator;
pub mod buffer;
pub mod command;
pub mod control;
pub mod error;
pub mod packet;
pub mod response;
pub mod retry;
pub mod text;
pub mod util;

pub use accumulator::FrameAccumulator;
pub use command::{
    Cmd, Command, GetFirmwareVersion, Query, SetDeviceId, SetReportingMode, SetSleepWork,
    SetWorkingPeriod,
};
pub use control::{reader_step, writer_step, ControlMessage, ReaderAction, WriterAction};
pub use error::Error;
pub use packet::parse_packet;
pub use response::{
    GetFirmwareVersionResponse, QueryResponse, Resp, Response, SetDeviceIdResponse,
    SetReportingModeResponse, SetSleepWorkResponse, SetWorkingPeriodResponse,
};
pub use retry::{RetryAction, RetryConfig, RetryEvent, RetryPhase, RetrySession};
pub use util::{checksum, ReportingMode, WorkMode, WorkingPeriod};
