//! Typed commands and their encoding into wire bytes.
//!
//! Every command goes out under the same command id; the first byte of its
//! data section says which operation is meant. The data section is fifteen
//! bytes: the operation, its fields, reserved zeros, and two bytes of 0xFF
//! that address any device.

use crate::buffer::{as_slice, be_bytes, be_value, contents, put, put_u16, put_u8};
use crate::packet::{HEADER, TAIL};
use crate::response::{
    GetFirmwareVersionResponse, QueryResponse, Response, SetDeviceIdResponse,
    SetReportingModeResponse, SetSleepWorkResponse, SetWorkingPeriodResponse,
};
use crate::util::{checksum, checksum_of, ReportingMode, WorkMode, WorkingPeriod};
use bytes::BytesMut;
use vstd::prelude::*;

verus! {

/// The command id under which every command is sent.
pub const COMMAND_ID: u8 = 0xB4;

/// The length of the data section of every command.
pub const DATA_LEN: usize = 15;

/// The length of an encoded command: header, id, data, checksum, tail.
pub const COMMAND_LEN: usize = 19;

/// The wire bytes of a command with the given data section: header, command
/// id, the data, the checksum of the data, tail.
pub open spec fn command_frame(data: Seq<u8>) -> Seq<u8> {
    seq![HEADER, COMMAND_ID] + data + seq![checksum_of(data), TAIL]
}

/// The byte that says whether a command asks for a setting or changes it.
pub open spec fn query_flag(query: bool) -> u8 {
    if query {
        0x00
    } else {
        0x01
    }
}

/// `count` bytes, each of them `byte`.
pub open spec fn repeated(byte: u8, count: nat) -> Seq<u8> {
    Seq::new(count, |i: int| byte)
}

/// The end of every data section: two bytes of 0xFF, which address any
/// device.
pub open spec fn any_device() -> Seq<u8> {
    repeated(0xFF, 2)
}

/// Appends `N` bytes, each of them `byte`.
fn put_repeated<const N: usize>(bytes: &mut BytesMut, byte: u8)
    requires
        contents(*old(bytes)).len() + N <= isize::MAX,
    ensures
        contents(*final(bytes)) == contents(*old(bytes)) + repeated(byte, N as nat),
{
    let run = [byte; N];
    proof {
        vstd::array::axiom_spec_array_fill_for_copy_type::<u8, N>(byte);
        assert(run@ =~= repeated(byte, N as nat));
    }
    put(bytes, run.as_slice());
}

/// A command that can be sent to the sensor.
pub trait Command: core::fmt::Debug {
    /// The kind of response that answers the command.
    type ResponseType: Response;

    /// The data section of the command.
    spec fn payload(&self) -> Seq<u8>;

    /// The command that a data section stands for.
    spec fn decoded(data: Seq<u8>) -> Self where Self: Sized;

    /// Whether the command is the only one with its data section.
    spec fn is_canonical(&self) -> bool;

    /// The data section is fifteen bytes long and ends in two bytes of
    /// 0xFF. Decoding it gives the command back, where the command is
    /// canonical.
    proof fn lemma_payload(&self) where Self: Sized
        ensures
            self.payload().len() == DATA_LEN,
            self.payload()[13] == 0xFF,
            self.payload()[14] == 0xFF,
            self.is_canonical() ==> Self::decoded(self.payload()) == *self,
    ;

    /// The command id under which the command is sent.
    fn id(&self) -> (id: u8)
        ensures
            id == COMMAND_ID,
    {
        // every command goes out under the one id; the first data byte tells
        // them apart, and so comes under the checksum
        COMMAND_ID
    }

    /// Appends the data section of the command to `bytes`.
    fn data(&self, bytes: &mut BytesMut)
        requires
            contents(*old(bytes)).len() + DATA_LEN <= isize::MAX,
        ensures
            contents(*final(bytes)) == contents(*old(bytes)) + self.payload(),
    ;

    /// Appends the wire bytes of the command to `bytes`.
    fn write(&self, bytes: &mut BytesMut) where Self: Sized
        requires
            contents(*old(bytes)).len() + COMMAND_LEN <= isize::MAX,
        ensures
            contents(*final(bytes)) == contents(*old(bytes)) + command_frame(self.payload()),
    {
        proof {
            self.lemma_payload();
        }
        put_u8(bytes, HEADER);
        put_u8(bytes, self.id());

        let mut data_bytes = BytesMut::new();
        self.data(&mut data_bytes);
        assert(contents(data_bytes) =~= self.payload());
        let sum = checksum(as_slice(&data_bytes));

        put(bytes, as_slice(&data_bytes));
        put_u8(bytes, sum);
        put_u8(bytes, TAIL);
        assert(contents(*bytes) =~= contents(*old(bytes)) + command_frame(self.payload()));
    }

    /// The command, encoded for the wire.
    fn to_cmd(&self) -> (cmd: Cmd) where Self: Sized
        ensures
            cmd@ == command_frame(self.payload()),
    {
        let mut data = BytesMut::new();
        self.write(&mut data);
        assert(contents(data) =~= command_frame(self.payload()));

        Cmd { data }
    }
}

/// An encoded command, ready for the wire.
#[derive(Debug)]
pub struct Cmd {
    pub(crate) data: BytesMut,
}

impl View for Cmd {
    type V = Seq<u8>;

    /// The wire bytes of the command.
    closed spec fn view(&self) -> Seq<u8> {
        contents(self.data)
    }
}

impl Cmd {
    /// The wire bytes of the command.
    pub fn as_bytes(&self) -> (bytes: &[u8])
        ensures
            bytes@ == self@,
    {
        as_slice(&self.data)
    }
}

impl<C: Command> From<C> for Cmd {
    /// The command, encoded for the wire, as `to_cmd` gives it.
    fn from(c: C) -> (cmd: Cmd)
        ensures
            cmd@ == command_frame(c.payload()),
    {
        c.to_cmd()
    }
}

impl<C: Command> vstd::std_specs::convert::FromSpecImpl<C> for Cmd {
    /// Two buffers with the same bytes are not known to be the same value,
    /// so no one `Cmd` can be named as the result; what the conversion gives
    /// is stated on `from` itself, over the bytes.
    open spec fn obeys_from_spec() -> bool {
        false
    }

    open spec fn from_spec(c: C) -> Cmd {
        choose|cmd: Cmd| cmd@ == command_frame(c.payload())
    }
}

/// The data section of an encoded command: what stands between the command
/// id and the checksum.
pub open spec fn data_section(frame: Seq<u8>) -> Seq<u8> {
    frame.subrange(2, frame.len() - 2)
}

/// Round trip: the wire bytes of a command are the fixed framing around its
/// data section, with the checksum of that section; and decoding the data
/// section of the wire bytes gives the command back, where the command is
/// the only one with that data section.
pub proof fn lemma_command_round_trip<C: Command>(command: C)
    ensures
        command_frame(command.payload()).len() == COMMAND_LEN,
        command_frame(command.payload())[0] == HEADER,
        command_frame(command.payload())[1] == COMMAND_ID,
        command_frame(command.payload())[17] == checksum_of(command.payload()),
        command_frame(command.payload())[18] == TAIL,
        data_section(command_frame(command.payload())) == command.payload(),
        command.is_canonical() ==> C::decoded(data_section(command_frame(command.payload())))
            == command,
{
    command.lemma_payload();
    assert(data_section(command_frame(command.payload())) =~= command.payload());
}

/// Asks whether the sensor reports on its own or only when asked, or sets
/// it to one of the two.
#[derive(Debug, Eq, PartialEq, Clone, Copy, Structural)]
pub struct SetReportingMode {
    /// if true, queries the reporting mode; if false, sets it
    pub query: bool,
    /// the mode to set
    pub mode: ReportingMode,
}

impl Command for SetReportingMode {
    type ResponseType = SetReportingModeResponse;

    open spec fn payload(&self) -> Seq<u8> {
        seq![0x02u8, query_flag(self.query), self.mode.as_byte()] + repeated(0, 10) + any_device()
    }

    open spec fn decoded(data: Seq<u8>) -> Self {
        SetReportingMode { query: data[1] == 0, mode: ReportingMode::from_byte(data[2]) }
    }

    open spec fn is_canonical(&self) -> bool {
        true
    }

    proof fn lemma_payload(&self) {
        let back = Self::decoded(self.payload());
        assert(back.query == self.query);
        assert(back.mode == self.mode);
    }

    fn data(&self, bytes: &mut BytesMut) {
        put_u8(bytes, 0x02);

        put_u8(bytes, if self.query { 0x00 } else { 0x01 });
        put_u8(bytes, self.mode.as_byte());

        // bytes 4-13 are reserved
        put_repeated::<10>(bytes, 0x00);

        // bytes 14, 15 are FF (or sensor id, but why?)
        put_repeated::<2>(bytes, 0xFF);
        assert(contents(*bytes) =~= contents(*old(bytes)) + self.payload());
    }
}

/// Asks for one reading.
#[derive(Debug, Eq, PartialEq, Clone, Copy, Structural)]
pub struct Query;

impl Command for Query {
    type ResponseType = QueryResponse;

    open spec fn payload(&self) -> Seq<u8> {
        seq![0x04u8] + repeated(0, 12) + any_device()
    }

    open spec fn decoded(data: Seq<u8>) -> Self {
        Query
    }

    open spec fn is_canonical(&self) -> bool {
        true
    }

    proof fn lemma_payload(&self) {
    }

    fn data(&self, bytes: &mut BytesMut) {
        put_u8(bytes, 0x04);
        put_repeated::<12>(bytes, 0x00);
        put_repeated::<2>(bytes, 0xFF);
        assert(contents(*bytes) =~= contents(*old(bytes)) + self.payload());
    }
}

/// Gives the sensor a new device id.
#[derive(Debug, Eq, PartialEq, Clone, Copy, Structural)]
pub struct SetDeviceId {
    /// the id that the sensor is to answer to from now on
    pub id: u16,
}

impl Command for SetDeviceId {
    type ResponseType = SetDeviceIdResponse;

    open spec fn payload(&self) -> Seq<u8> {
        seq![0x05u8] + repeated(0, 10) + be_bytes(self.id) + any_device()
    }

    open spec fn decoded(data: Seq<u8>) -> Self {
        SetDeviceId { id: be_value(data[11], data[12]) }
    }

    open spec fn is_canonical(&self) -> bool {
        true
    }

    proof fn lemma_payload(&self) {
        let back = Self::decoded(self.payload());
        assert(self.payload()[11] == (self.id / 256) as u8);
        assert(self.payload()[12] == (self.id % 256) as u8);
        assert(back.id == self.id);
    }

    fn data(&self, bytes: &mut BytesMut) {
        put_u8(bytes, 0x05);
        put_repeated::<10>(bytes, 0x00);
        put_u16(bytes, self.id);
        put_repeated::<2>(bytes, 0xFF);
        assert(contents(*bytes) =~= contents(*old(bytes)) + self.payload());
    }
}

/// Asks whether the sensor is measuring or asleep, or sets it to one of the
/// two.
#[derive(Debug, Eq, PartialEq, Clone, Copy, Structural)]
pub struct SetSleepWork {
    /// if true, queries the work mode; if false, sets it
    pub query: bool,
    pub mode: WorkMode,
}

impl Command for SetSleepWork {
    type ResponseType = SetSleepWorkResponse;

    open spec fn payload(&self) -> Seq<u8> {
        seq![0x06u8, query_flag(self.query), self.mode.as_byte()] + repeated(0, 10) + any_device()
    }

    open spec fn decoded(data: Seq<u8>) -> Self {
        SetSleepWork { query: data[1] == 0, mode: WorkMode::from_byte(data[2]) }
    }

    open spec fn is_canonical(&self) -> bool {
        true
    }

    proof fn lemma_payload(&self) {
        let back = Self::decoded(self.payload());
        assert(back.query == self.query);
        assert(back.mode == self.mode);
    }

    fn data(&self, bytes: &mut BytesMut) {
        put_u8(bytes, 0x06);
        put_u8(bytes, if self.query { 0x00 } else { 0x01 });
        put_u8(bytes, self.mode.as_byte());
        put_repeated::<10>(bytes, 0x00);
        put_repeated::<2>(bytes, 0xFF);
        assert(contents(*bytes) =~= contents(*old(bytes)) + self.payload());
    }
}

/// Asks for the sensor's duty cycle, or sets it.
#[derive(Debug, Eq, PartialEq, Clone, Copy, Structural)]
pub struct SetWorkingPeriod {
    /// if true, queries the working period; if false, sets it
    pub query: bool,
    pub working_period: WorkingPeriod,
}

impl Command for SetWorkingPeriod {
    type ResponseType = SetWorkingPeriodResponse;

    open spec fn payload(&self) -> Seq<u8> {
        seq![0x08u8, query_flag(self.query), self.working_period.as_byte()] + repeated(0, 10)
            + any_device()
    }

    open spec fn decoded(data: Seq<u8>) -> Self {
        SetWorkingPeriod {
            query: data[1] == 0,
            working_period: WorkingPeriod::from_byte(data[2]),
        }
    }

    /// Every period but `Periodic(0)`, which goes out as the byte zero and so
    /// reads back as `Continuous`.
    open spec fn is_canonical(&self) -> bool {
        self.working_period.is_canonical()
    }

    proof fn lemma_payload(&self) {
        let back = Self::decoded(self.payload());
        assert(back.query == self.query);
        if self.is_canonical() {
            assert(back.working_period == self.working_period);
        }
    }

    fn data(&self, bytes: &mut BytesMut) {
        put_u8(bytes, 0x08);
        put_u8(bytes, if self.query { 0x00 } else { 0x01 });
        put_u8(bytes, self.working_period.as_byte());
        put_repeated::<10>(bytes, 0x00);
        put_repeated::<2>(bytes, 0xFF);
        assert(contents(*bytes) =~= contents(*old(bytes)) + self.payload());
    }
}

/// Asks for the date of the sensor's firmware.
#[derive(Debug, Eq, PartialEq, Clone, Copy, Structural)]
pub struct GetFirmwareVersion;

impl Command for GetFirmwareVersion {
    type ResponseType = GetFirmwareVersionResponse;

    open spec fn payload(&self) -> Seq<u8> {
        seq![0x07u8] + repeated(0, 12) + any_device()
    }

    open spec fn decoded(data: Seq<u8>) -> Self {
        GetFirmwareVersion
    }

    open spec fn is_canonical(&self) -> bool {
        true
    }

    proof fn lemma_payload(&self) {
    }

    fn data(&self, bytes: &mut BytesMut) {
        put_u8(bytes, 0x07);
        put_repeated::<12>(bytes, 0x00);
        put_repeated::<2>(bytes, 0xFF);
        assert(contents(*bytes) =~= contents(*old(bytes)) + self.payload());
    }
}

} // verus!
