//! Typed responses and their decoding from a frame.

use crate::buffer::{advance, be_value, get_u16, get_u16_le, get_u8, le_value};
use crate::error::Error;
use crate::util::{ReportingMode, WorkMode, WorkingPeriod};
use vstd::prelude::*;

verus! {

/// The fewest bytes from which a response can be read: everything up to and
/// including the device id.
pub const RESPONSE_SPAN: usize = 8;

/// Any response that the sensor sends.
#[derive(Debug, PartialEq, Eq, Clone, Copy, Structural)]
pub enum Resp {
    SetReportingMode(SetReportingModeResponse),
    Query(QueryResponse),
    SetDeviceId(SetDeviceIdResponse),
    SetSleepWork(SetSleepWorkResponse),
    SetWorkingPeriod(SetWorkingPeriodResponse),
    GetFirmwareVersion(GetFirmwareVersionResponse),
}

impl Resp {
    /// Attempts to convert this Resp into the inner Response matching the return
    /// type. Returns `Error::InvalidResponseConversion` if conversion is
    /// impossible.
    pub fn try_into_response<T: Response>(self) -> (out: Result<T, Error>)
        ensures
            unpacks_to::<T>(self, out),
    {
        T::unpack_resp(self)
    }
}

/// What unpacking `resp` as a `T` gives: the inner response where `resp` is
/// of `T`'s kind, and otherwise the conversion error that hands `resp` back
/// and names `T`.
pub open spec fn unpacks_to<T: Response>(resp: Resp, out: Result<T, Error>) -> bool {
    match T::unpacked(resp) {
        Some(inner) => out == Ok::<T, Error>(inner),
        None => out matches Err(Error::InvalidResponseConversion { resp: given, target })
            && given == resp && target@ == T::target(),
    }
}

/// Decoding of one kind of response from the bytes of a frame.
pub trait ResponseParser {
    /// The response that the bytes of a frame stand for.
    spec fn parsed(frame: Seq<u8>) -> Resp;

    /// Reads the response from the bytes of a frame, of which the first
    /// eight are looked at.
    fn parse(buf: &[u8]) -> (resp: Resp)
        requires
            buf@.len() >= RESPONSE_SPAN,
        ensures
            resp == Self::parsed(buf@),
    ;
}

/// A kind of response that can be taken out of a `Resp`.
pub trait Response: Sized {
    /// The inner response, where `resp` is of this kind.
    spec fn unpacked(resp: Resp) -> Option<Self>;

    /// The name by which a conversion error refers to this kind.
    spec fn target() -> Seq<char>;

    /// Attempts to unpack the Response from the given Resp, returning
    /// `Error::InvalidResponseConversion` if doing so is impossible (i.e.
    /// incorrect type).
    fn unpack_resp(resp: Resp) -> (out: Result<Self, Error>)
        ensures
            match Self::unpacked(resp) {
                Some(inner) => out == Ok::<Self, Error>(inner),
                None => out matches Err(Error::InvalidResponseConversion { resp: given, target })
                    && given == resp && target@ == Self::target(),
            },
    ;
}

/// The sensor's reporting mode, as asked for or as just set.
#[derive(Debug, PartialEq, Eq, Clone, Copy, Structural)]
pub struct SetReportingModeResponse {
    /// true for the answer to a query, false for the answer to a change
    pub query: bool,
    pub mode: ReportingMode,
    pub device: u16,
}

impl ResponseParser for SetReportingModeResponse {
    open spec fn parsed(frame: Seq<u8>) -> Resp {
        Resp::SetReportingMode(
            SetReportingModeResponse {
                query: frame[3] == 0,
                mode: ReportingMode::from_byte(frame[4]),
                device: be_value(frame[6], frame[7]),
            },
        )
    }

    fn parse(buf: &[u8]) -> (resp: Resp) {
        let buf = advance(buf, 3);
        let (flag, buf) = get_u8(buf);
        let query = flag == 0x00;
        let (raw, buf) = get_u8(buf);
        let mode = ReportingMode::from_byte(raw);
        let buf = advance(buf, 1);
        let (device, _) = get_u16(buf);

        Resp::SetReportingMode(SetReportingModeResponse { query, mode, device })
    }
}

impl Response for SetReportingModeResponse {
    open spec fn unpacked(resp: Resp) -> Option<Self> {
        match resp {
            Resp::SetReportingMode(r) => Some(r),
            _ => None,
        }
    }

    open spec fn target() -> Seq<char> {
        "SetReportingModeResponse"@
    }

    fn unpack_resp(resp: Resp) -> (out: Result<Self, Error>) {
        match resp {
            Resp::SetReportingMode(r) => Ok(r),
            resp => Err(
                Error::InvalidResponseConversion {
                    resp,
                    target: "SetReportingModeResponse".to_owned(),
                },
            ),
        }
    }
}

/// One reading, asked for or pushed by the sensor on its own.
#[derive(Debug, PartialEq, Eq, Clone, Copy, Structural)]
pub struct QueryResponse {
    /// PM2.5 reading in tenths of a microgram per cubic meter
    pub pm25_tenths: u16,
    /// PM10 reading in tenths of a microgram per cubic meter
    pub pm10_tenths: u16,
    /// 2-byte device ID
    pub device: u16,
}

impl ResponseParser for QueryResponse {
    open spec fn parsed(frame: Seq<u8>) -> Resp {
        Resp::Query(
            QueryResponse {
                pm25_tenths: le_value(frame[2], frame[3]),
                pm10_tenths: le_value(frame[4], frame[5]),
                device: be_value(frame[6], frame[7]),
            },
        )
    }

    fn parse(buf: &[u8]) -> (resp: Resp) {
        let buf = advance(buf, 2);
        let (pm25_tenths, buf) = get_u16_le(buf);
        let (pm10_tenths, buf) = get_u16_le(buf);
        let (device, _) = get_u16(buf);

        Resp::Query(QueryResponse { pm25_tenths, pm10_tenths, device })
    }
}

impl Response for QueryResponse {
    open spec fn unpacked(resp: Resp) -> Option<Self> {
        match resp {
            Resp::Query(r) => Some(r),
            _ => None,
        }
    }

    open spec fn target() -> Seq<char> {
        "QueryResponse"@
    }

    fn unpack_resp(resp: Resp) -> (out: Result<Self, Error>) {
        match resp {
            Resp::Query(r) => Ok(r),
            resp => Err(
                Error::InvalidResponseConversion { resp, target: "QueryResponse".to_owned() },
            ),
        }
    }
}

/// The device id that the sensor has taken.
#[derive(Debug, PartialEq, Eq, Clone, Copy, Structural)]
pub struct SetDeviceIdResponse {
    /// 2-byte device ID
    pub device: u16,
}

impl ResponseParser for SetDeviceIdResponse {
    open spec fn parsed(frame: Seq<u8>) -> Resp {
        Resp::SetDeviceId(SetDeviceIdResponse { device: be_value(frame[6], frame[7]) })
    }

    fn parse(buf: &[u8]) -> (resp: Resp) {
        // bytes 3-5 are reserved
        let buf = advance(buf, 6);
        let (device, _) = get_u16(buf);

        Resp::SetDeviceId(SetDeviceIdResponse { device })
    }
}

impl Response for SetDeviceIdResponse {
    open spec fn unpacked(resp: Resp) -> Option<Self> {
        match resp {
            Resp::SetDeviceId(r) => Some(r),
            _ => None,
        }
    }

    open spec fn target() -> Seq<char> {
        "SetDeviceIdResponse"@
    }

    fn unpack_resp(resp: Resp) -> (out: Result<Self, Error>) {
        match resp {
            Resp::SetDeviceId(r) => Ok(r),
            resp => Err(
                Error::InvalidResponseConversion { resp, target: "SetDeviceIdResponse".to_owned() },
            ),
        }
    }
}

/// The sensor's work mode, as asked for or as just set.
#[derive(Debug, PartialEq, Eq, Clone, Copy, Structural)]
pub struct SetSleepWorkResponse {
    /// true for the answer to a query, false for the answer to a change
    pub query: bool,
    pub mode: WorkMode,
    pub device: u16,
}

impl ResponseParser for SetSleepWorkResponse {
    open spec fn parsed(frame: Seq<u8>) -> Resp {
        Resp::SetSleepWork(
            SetSleepWorkResponse {
                query: frame[3] == 0,
                mode: WorkMode::from_byte(frame[4]),
                device: be_value(frame[6], frame[7]),
            },
        )
    }

    fn parse(buf: &[u8]) -> (resp: Resp) {
        let buf = advance(buf, 3);
        let (flag, buf) = get_u8(buf);
        let query = flag == 0x00;
        let (raw, buf) = get_u8(buf);
        let mode = WorkMode::from_byte(raw);
        let buf = advance(buf, 1);
        let (device, _) = get_u16(buf);

        Resp::SetSleepWork(SetSleepWorkResponse { query, mode, device })
    }
}

impl Response for SetSleepWorkResponse {
    open spec fn unpacked(resp: Resp) -> Option<Self> {
        match resp {
            Resp::SetSleepWork(r) => Some(r),
            _ => None,
        }
    }

    open spec fn target() -> Seq<char> {
        "SetSleepWorkResponse"@
    }

    fn unpack_resp(resp: Resp) -> (out: Result<Self, Error>) {
        match resp {
            Resp::SetSleepWork(r) => Ok(r),
            resp => Err(
                Error::InvalidResponseConversion { resp, target: "SetSleepWorkResponse".to_owned() },
            ),
        }
    }
}

/// The sensor's duty cycle, as asked for or as just set.
#[derive(Debug, PartialEq, Eq, Clone, Copy, Structural)]
pub struct SetWorkingPeriodResponse {
    /// true for the answer to a query, false for the answer to a change
    pub query: bool,
    pub working_period: WorkingPeriod,
    pub device: u16,
}

impl ResponseParser for SetWorkingPeriodResponse {
    open spec fn parsed(frame: Seq<u8>) -> Resp {
        Resp::SetWorkingPeriod(
            SetWorkingPeriodResponse {
                query: frame[3] == 0,
                working_period: WorkingPeriod::from_byte(frame[4]),
                device: be_value(frame[6], frame[7]),
            },
        )
    }

    fn parse(buf: &[u8]) -> (resp: Resp) {
        let buf = advance(buf, 3);
        let (flag, buf) = get_u8(buf);
        let query = flag == 0x00;
        let (raw, buf) = get_u8(buf);
        let working_period = WorkingPeriod::from_byte(raw);
        let buf = advance(buf, 1);
        let (device, _) = get_u16(buf);

        Resp::SetWorkingPeriod(SetWorkingPeriodResponse { query, working_period, device })
    }
}

impl Response for SetWorkingPeriodResponse {
    open spec fn unpacked(resp: Resp) -> Option<Self> {
        match resp {
            Resp::SetWorkingPeriod(r) => Some(r),
            _ => None,
        }
    }

    open spec fn target() -> Seq<char> {
        "SetWorkingPeriodResponse"@
    }

    fn unpack_resp(resp: Resp) -> (out: Result<Self, Error>) {
        match resp {
            Resp::SetWorkingPeriod(r) => Ok(r),
            resp => Err(
                Error::InvalidResponseConversion { resp, target: "SetWorkingPeriodResponse".to_owned() },
            ),
        }
    }
}

/// The date of the sensor's firmware.
#[derive(Debug, PartialEq, Eq, Clone, Copy, Structural)]
pub struct GetFirmwareVersionResponse {
    /// year in some mystery format (presumably 2000 + year)
    pub year: u8,
    pub month: u8,
    pub day: u8,
    pub device: u16,
}

impl ResponseParser for GetFirmwareVersionResponse {
    open spec fn parsed(frame: Seq<u8>) -> Resp {
        Resp::GetFirmwareVersion(
            GetFirmwareVersionResponse {
                year: frame[3],
                month: frame[4],
                day: frame[5],
                device: be_value(frame[6], frame[7]),
            },
        )
    }

    fn parse(buf: &[u8]) -> (resp: Resp) {
        let buf = advance(buf, 3);
        let (year, buf) = get_u8(buf);
        let (month, buf) = get_u8(buf);
        let (day, buf) = get_u8(buf);
        let (device, _) = get_u16(buf);

        Resp::GetFirmwareVersion(GetFirmwareVersionResponse { year, month, day, device })
    }
}

impl Response for GetFirmwareVersionResponse {
    open spec fn unpacked(resp: Resp) -> Option<Self> {
        match resp {
            Resp::GetFirmwareVersion(r) => Some(r),
            _ => None,
        }
    }

    open spec fn target() -> Seq<char> {
        "GetFirmwareVersionResponse"@
    }

    fn unpack_resp(resp: Resp) -> (out: Result<Self, Error>) {
        match resp {
            Resp::GetFirmwareVersion(r) => Ok(r),
            resp => Err(
                Error::InvalidResponseConversion { resp, target: "GetFirmwareVersionResponse".to_owned() },
            ),
        }
    }
}

} // verus!
