//! Validation and decoding of one complete frame.
//!
//! A frame is ten bytes: header, command id, four data bytes, two bytes of
//! device id, checksum, tail. The checksum covers the data and the device id.
//! Neither the header nor the tail is looked at here: framing is the
//! accumulator's business.

use crate::error::Error;
use crate::response::{
    GetFirmwareVersionResponse, QueryResponse, Resp, ResponseParser, SetDeviceIdResponse,
    SetReportingModeResponse, SetSleepWorkResponse, SetWorkingPeriodResponse,
};
use crate::text::{hex_list_text, hex_of_byte, hex_of_bytes, hex_text};
use crate::util::{byte_sum, checksum, checksum_of};
use vstd::prelude::*;
use vstd::slice::slice_subrange;
use vstd::string::StringExecFns;

verus! {

/// The length of every frame.
pub const FRAME_LEN: usize = 10;

/// The byte that opens a frame.
pub const HEADER: u8 = 0xAA;

/// The byte that closes a frame.
pub const TAIL: u8 = 0xAB;

/// The command id of an unsolicited or requested reading.
pub const READING_ID: u8 = 0xC0;

/// The command id of every reply to a configuration command.
pub const REPLY_ID: u8 = 0xC5;

/// Why a run of bytes is not a frame that can be decoded.
pub enum FrameFault {
    /// The run is not ten bytes long.
    InvalidLength { packet: Seq<u8> },
    /// The checksum byte is not the checksum of the data.
    InvalidChecksum { packet: Seq<u8>, expected: u8, received: u8 },
    /// The command id and the first data byte name no known response.
    InvalidCommand { packet: Seq<u8>, command: u8, extra: u8 },
    /// More bytes were gathered than a frame holds.
    TooLong { packet: Seq<u8> },
}

impl FrameFault {
    /// The message by which the fault is reported.
    pub open spec fn text(self) -> Seq<char> {
        match self {
            FrameFault::InvalidLength { packet } => "packet has invalid length: "@ + hex_list_text(
                packet,
            ),
            FrameFault::InvalidChecksum { packet, expected, received } => "packet ("@
                + hex_list_text(packet) + ") has invalid checksum: expected="@ + hex_text(expected)
                + " received="@ + hex_text(received),
            FrameFault::InvalidCommand { packet, command, extra } => "packet ("@ + hex_list_text(
                packet,
            ) + ") has invalid command: "@ + hex_text(command) + "/"@ + hex_text(extra),
            FrameFault::TooLong { packet } => "packet is too long, will discard: "@
                + hex_list_text(packet),
        }
    }

    /// Whether `error` is the report of this fault: a packet error that
    /// carries the fault's message.
    pub open spec fn reported_by(self, error: Error) -> bool {
        error matches Error::PacketError(message) && message@ == self.text()
    }
}

/// The bytes of a frame that its checksum covers: the data and the device id.
pub open spec fn checked_span(packet: Seq<u8>) -> Seq<u8> {
    packet.subrange(2, 8)
}

/// Whether `packet` has the length of a frame and carries the checksum of
/// its own data.
pub open spec fn is_intact(packet: Seq<u8>) -> bool {
    packet.len() == FRAME_LEN && checksum_of(checked_span(packet)) == packet[8]
}

/// The response that the command id and the first data byte of `packet`
/// select, decoded from `packet`; `None` where they select none.
pub open spec fn registered_response(packet: Seq<u8>) -> Option<Resp> {
    let command = packet[1];
    let extra = packet[2];
    if command == READING_ID {
        Some(QueryResponse::parsed(packet))
    } else if command == REPLY_ID && extra == 0x02 {
        Some(SetReportingModeResponse::parsed(packet))
    } else if command == REPLY_ID && extra == 0x05 {
        Some(SetDeviceIdResponse::parsed(packet))
    } else if command == REPLY_ID && extra == 0x06 {
        Some(SetSleepWorkResponse::parsed(packet))
    } else if command == REPLY_ID && extra == 0x08 {
        Some(SetWorkingPeriodResponse::parsed(packet))
    } else if command == REPLY_ID && extra == 0x07 {
        Some(GetFirmwareVersionResponse::parsed(packet))
    } else {
        None
    }
}

/// What a run of bytes decodes to: the response of an intact frame with a
/// known command, or the first fault found, looking at length, then
/// checksum, then command.
pub open spec fn decode_frame(packet: Seq<u8>) -> Result<Resp, FrameFault> {
    if packet.len() != FRAME_LEN {
        Err(FrameFault::InvalidLength { packet })
    } else if checksum_of(checked_span(packet)) != packet[8] {
        Err(
            FrameFault::InvalidChecksum {
                packet,
                expected: checksum_of(checked_span(packet)),
                received: packet[8],
            },
        )
    } else {
        match registered_response(packet) {
            Some(resp) => Ok(resp),
            None => Err(
                FrameFault::InvalidCommand { packet, command: packet[1], extra: packet[2] },
            ),
        }
    }
}

/// Whether `out` is what decoding gives for `outcome`: the same response, or
/// the report of the same fault.
pub open spec fn renders(out: Result<Resp, Error>, outcome: Result<Resp, FrameFault>) -> bool {
    match outcome {
        Ok(resp) => out == Ok::<Resp, Error>(resp),
        Err(fault) => out matches Err(error) && fault.reported_by(error),
    }
}

fn invalid_length_error(packet: &[u8]) -> (error: Error)
    ensures
        (FrameFault::InvalidLength { packet: packet@ }).reported_by(error),
{
    let mut message = "packet has invalid length: ".to_owned();
    message.append(hex_of_bytes(packet).as_str());
    Error::PacketError(message)
}

fn invalid_checksum_error(packet: &[u8], expected: u8, received: u8) -> (error: Error)
    ensures
        (FrameFault::InvalidChecksum { packet: packet@, expected, received }).reported_by(error),
{
    let mut message = "packet (".to_owned();
    message.append(hex_of_bytes(packet).as_str());
    message.append(") has invalid checksum: expected=");
    message.append(hex_of_byte(expected).as_str());
    message.append(" received=");
    message.append(hex_of_byte(received).as_str());
    Error::PacketError(message)
}

fn invalid_command_error(packet: &[u8], command: u8, extra: u8) -> (error: Error)
    ensures
        (FrameFault::InvalidCommand { packet: packet@, command, extra }).reported_by(error),
{
    let mut message = "packet (".to_owned();
    message.append(hex_of_bytes(packet).as_str());
    message.append(") has invalid command: ");
    message.append(hex_of_byte(command).as_str());
    message.append("/");
    message.append(hex_of_byte(extra).as_str());
    Error::PacketError(message)
}

/// The report that more bytes were gathered than a frame holds.
pub(crate) fn too_long_error(packet: &[u8]) -> (error: Error)
    ensures
        (FrameFault::TooLong { packet: packet@ }).reported_by(error),
{
    let mut message = "packet is too long, will discard: ".to_owned();
    message.append(hex_of_bytes(packet).as_str());
    Error::PacketError(message)
}

/// Validates a complete frame and decodes it into a response.
///
/// The frame must be ten bytes long and carry the checksum of its bytes 2
/// to 7; its bytes 1 and 2 select the kind of response. Anything else is
/// reported as a packet error that names the fault.
pub fn parse_packet(packet: &[u8]) -> (out: Result<Resp, Error>)
    ensures
        renders(out, decode_frame(packet@)),
{
    if packet.len() != FRAME_LEN {
        return Err(invalid_length_error(packet));
    }
    let checksum_received = packet[8];
    let checksum_bytes = slice_subrange(packet, 2, 8);
    let checksum_calculated = checksum(checksum_bytes);
    if checksum_calculated != checksum_received {
        return Err(invalid_checksum_error(packet, checksum_calculated, checksum_received));
    }
    let command = packet[1];
    let command_extra = packet[2];

    Ok(
        match (command, command_extra) {
            (0xC0, _) => QueryResponse::parse(packet),
            (0xC5, 0x02) => SetReportingModeResponse::parse(packet),
            (0xC5, 0x05) => SetDeviceIdResponse::parse(packet),
            (0xC5, 0x06) => SetSleepWorkResponse::parse(packet),
            (0xC5, 0x08) => SetWorkingPeriodResponse::parse(packet),
            (0xC5, 0x07) => GetFirmwareVersionResponse::parse(packet),
            (other, other_extra) => {
                return Err(invalid_command_error(packet, other, other_extra));
            },
        },
    )
}

/// Replacing one byte changes the sum by the difference of the two bytes.
pub proof fn lemma_byte_sum_update(bytes: Seq<u8>, index: int, byte: u8)
    requires
        0 <= index < bytes.len(),
    ensures
        byte_sum(bytes.update(index, byte)) == byte_sum(bytes) - bytes[index] + byte,
    decreases bytes.len(),
{
    let changed = bytes.update(index, byte);
    if index == bytes.len() - 1 {
        assert(changed.drop_last() =~= bytes.drop_last());
    } else {
        assert(changed.drop_last() =~= bytes.drop_last().update(index, byte));
        lemma_byte_sum_update(bytes.drop_last(), index, byte);
    }
}

/// Two sums that differ by less than 256, and not by zero, have different
/// checksums.
proof fn lemma_checksum_differs(before: nat, after: nat)
    requires
        before != after,
        after - before < 256,
        before - after < 256,
    ensures
        before % 256 != after % 256,
{
    if before % 256 == after % 256 {
        let q = before as int / 256;
        let r = after as int / 256;
        assert(before == 256 * q + before % 256) by {
            vstd::arithmetic::div_mod::lemma_fundamental_div_mod(before as int, 256);
        }
        assert(after == 256 * r + after % 256) by {
            vstd::arithmetic::div_mod::lemma_fundamental_div_mod(after as int, 256);
        }
        assert(after - before == 256 * (r - q));
        assert(false);
    }
}

/// A frame decodes to a response exactly when it is intact and its command
/// is known; the response is then the registered one.
pub proof fn lemma_decode_frame_ok(packet: Seq<u8>)
    ensures
        decode_frame(packet) is Ok <==> is_intact(packet) && registered_response(packet) is Some,
        decode_frame(packet) matches Ok(resp) ==> registered_response(packet) == Some(resp),
        decode_frame(packet) matches Ok(_) ==> checksum_of(packet.subrange(2, 8)) == packet[8],
{
}

/// Changing any single byte among those that the checksum covers makes an
/// intact frame fail to decode, with a checksum fault: the checksum byte
/// still holds the old checksum, and the changed data no longer has it.
pub proof fn lemma_corruption_is_detected(frame: Seq<u8>, index: int, byte: u8)
    requires
        is_intact(frame),
        2 <= index <= 7,
        byte != frame[index],
    ensures
        checksum_of(checked_span(frame.update(index, byte))) != frame[8],
        decode_frame(frame.update(index, byte)) == Err::<Resp, FrameFault>(
            FrameFault::InvalidChecksum {
                packet: frame.update(index, byte),
                expected: checksum_of(checked_span(frame.update(index, byte))),
                received: frame[8],
            },
        ),
{
    let corrupted = frame.update(index, byte);
    let span = checked_span(frame);
    assert(checked_span(corrupted) =~= span.update(index - 2, byte));
    lemma_byte_sum_update(span, index - 2, byte);
    lemma_checksum_differs(byte_sum(span), byte_sum(checked_span(corrupted)));
}

} // verus!
