//! Checksum arithmetic and the small value types shared by commands and
//! responses.

use crate::error::Error;
use crate::text::{
    decimal_value, is_digits, lowercase, lowercase_text, parse_failure_text, parse_usize,
};
use vstd::arithmetic::div_mod::{lemma_add_mod_noop, lemma_mod_mod, lemma_small_mod};
use vstd::prelude::*;
use vstd::string::{StrSliceExecFns, StringExecFns};

verus! {

/// The sum of all bytes of `bytes`, as an unbounded natural number.
pub open spec fn byte_sum(bytes: Seq<u8>) -> nat
    decreases bytes.len(),
{
    if bytes.len() == 0 {
        0
    } else {
        byte_sum(bytes.drop_last()) + bytes.last() as nat
    }
}

/// The checksum of `bytes`: the low eight bits of their sum.
pub open spec fn checksum_of(bytes: Seq<u8>) -> u8 {
    (byte_sum(bytes) % 256) as u8
}

/// Extending a sequence by one byte adds that byte to the sum.
pub proof fn lemma_byte_sum_push(bytes: Seq<u8>, b: u8)
    ensures
        byte_sum(bytes.push(b)) == byte_sum(bytes) + b as nat,
{
    assert(bytes.push(b).drop_last() =~= bytes);
}

/// Computes a checksum for the given bytes.
///
/// Note that these must be data bytes and exclude the header, tail, etc.
/// The sum is accumulated in sixteen bits, wrapping, and then truncated to
/// its low byte.
pub fn checksum(bytes: &[u8]) -> (sum: u8)
    ensures
        sum == checksum_of(bytes@),
{
    let mut acc: u16 = 0;
    let mut i: usize = 0;
    while i < bytes.len()
        invariant
            i <= bytes.len(),
            acc as nat == byte_sum(bytes@.take(i as int)) % 65536,
        decreases bytes.len() - i,
    {
        let b: u8 = bytes[i];
        proof {
            let before = bytes@.take(i as int);
            assert(bytes@.take(i + 1) =~= before.push(b));
            lemma_byte_sum_push(before, b);
            lemma_add_mod_noop(byte_sum(before) as int, b as int, 65536);
            lemma_small_mod(b as nat, 65536);
        }
        acc = acc.wrapping_add(b as u16);
        i += 1;
    }
    proof {
        assert(bytes@.take(i as int) =~= bytes@);
        lemma_mod_mod(byte_sum(bytes@) as int, 256, 256);
    }
    (acc % 256) as u8
}

/// Whether the sensor is measuring or asleep.
#[derive(Debug, Copy, Clone, PartialEq, Eq, Structural)]
pub enum WorkMode {
    Sleep,
    Work,
}

impl WorkMode {
    /// The mode that a raw byte stands for: zero is sleep, anything else work.
    pub open spec fn from_byte_spec(byte: u8) -> WorkMode {
        if byte == 0 {
            WorkMode::Sleep
        } else {
            WorkMode::Work
        }
    }

    /// The raw byte that stands for this mode.
    pub open spec fn as_byte_spec(&self) -> u8 {
        match self {
            WorkMode::Sleep => 0,
            WorkMode::Work => 1,
        }
    }

    /// The mode that a raw byte stands for.
    #[verifier::when_used_as_spec(from_byte_spec)]
    pub fn from_byte(byte: u8) -> (mode: Self)
        ensures
            mode == Self::from_byte_spec(byte),
    {
        match byte {
            0x00 => WorkMode::Sleep,
            _ => WorkMode::Work,
        }
    }

    /// The raw byte that stands for this value.
    #[verifier::when_used_as_spec(as_byte_spec)]
    pub fn as_byte(&self) -> (byte: u8)
        ensures
            byte == self.as_byte_spec(),
    {
        match self {
            WorkMode::Sleep => 0x00,
            WorkMode::Work => 0x01,
        }
    }

    /// The mode that a text in lower case names: `work` or `on`, `sleep` or
    /// `off`.
    pub open spec fn named(lowered: Seq<char>) -> Option<WorkMode> {
        if lowered == "work"@ || lowered == "on"@ {
            Some(WorkMode::Work)
        } else if lowered == "sleep"@ || lowered == "off"@ {
            Some(WorkMode::Sleep)
        } else {
            None
        }
    }

    /// Reads a mode from a text that is already in lower case. `given` is
    /// the text as it was entered, which the error hands back.
    pub fn from_lowercase(lowered: &str, given: &str) -> (out: Result<Self, Error>)
        ensures
            match Self::named(lowered@) {
                Some(mode) => out == Ok::<Self, Error>(mode),
                None => out matches Err(Error::InvalidWorkMode(text)) && text@ == given@,
            },
    {
        let lowered = lowered.to_owned();
        if lowered == "work".to_owned() || lowered == "on".to_owned() {
            Ok(WorkMode::Work)
        } else if lowered == "sleep".to_owned() || lowered == "off".to_owned() {
            Ok(WorkMode::Sleep)
        } else {
            Err(Error::InvalidWorkMode(given.to_owned()))
        }
    }

    /// Reads a mode from a text, whatever its case.
    pub fn from_str(s: &str) -> (out: Result<Self, Error>)
        ensures
            match Self::named(lowercase_text(s@)) {
                Some(mode) => out == Ok::<Self, Error>(mode),
                None => out matches Err(Error::InvalidWorkMode(text)) && text@ == s@,
            },
    {
        let lowered = lowercase(s);
        Self::from_lowercase(lowered.as_str(), s)
    }
}

/// The sensor's duty cycle.
#[derive(Debug, Copy, Clone, PartialEq, Eq, Structural)]
pub enum WorkingPeriod {
    /// device operates continuously, reporting a new result roughly every second
    Continuous,
    /// device sleeps for some number of minutes (sans 30 seconds), wakes for 30
    /// seconds to collect data, and returns to sleep
    Periodic(u8),
}

impl WorkingPeriod {
    /// The longest period, in minutes, that the sensor can be set to.
    pub const MAX_MINUTES: u8 = 30;

    /// The period that a raw byte stands for: zero is continuous, any other
    /// value a period of that many minutes.
    pub open spec fn from_byte_spec(byte: u8) -> WorkingPeriod {
        if byte == 0 {
            WorkingPeriod::Continuous
        } else {
            WorkingPeriod::Periodic(byte)
        }
    }

    /// The raw byte that stands for this period.
    pub open spec fn as_byte_spec(&self) -> u8 {
        match self {
            WorkingPeriod::Continuous => 0,
            WorkingPeriod::Periodic(n) => *n,
        }
    }

    /// A period that the sensor accepts: continuous, or one to thirty minutes.
    pub open spec fn is_valid(&self) -> bool {
        match self {
            WorkingPeriod::Continuous => true,
            WorkingPeriod::Periodic(n) => 1 <= *n <= Self::MAX_MINUTES,
        }
    }

    /// A period that is the only one with its raw byte: every period but
    /// `Periodic(0)`, which shares the byte zero with `Continuous`.
    pub open spec fn is_canonical(&self) -> bool {
        *self != WorkingPeriod::Periodic(0)
    }

    /// The period that a raw byte stands for.
    #[verifier::when_used_as_spec(from_byte_spec)]
    pub fn from_byte(byte: u8) -> (period: WorkingPeriod)
        ensures
            period == Self::from_byte_spec(byte),
    {
        match byte {
            0 => WorkingPeriod::Continuous,
            n => WorkingPeriod::Periodic(n),
        }
    }

    /// The raw byte that stands for this value.
    #[verifier::when_used_as_spec(as_byte_spec)]
    pub fn as_byte(&self) -> (byte: u8)
        ensures
            byte == self.as_byte_spec(),
    {
        match self {
            WorkingPeriod::Continuous => 0,
            WorkingPeriod::Periodic(n) => *n,
        }
    }

    /// The period that a number of minutes stands for: zero is continuous,
    /// one to thirty a period of that length, anything above no period.
    pub open spec fn of_minutes(value: usize) -> Option<WorkingPeriod> {
        if value == 0 {
            Some(WorkingPeriod::Continuous)
        } else if value <= Self::MAX_MINUTES {
            Some(WorkingPeriod::Periodic(value as u8))
        } else {
            None
        }
    }

    /// What an error says of a number that is no period.
    pub open spec fn range_reason() -> Seq<char> {
        "value out of range (0 <= n <= 30)"@
    }

    /// Whether `error` refuses `value` for being out of range: it shows the
    /// value as the standard library prints it, and says which range is
    /// allowed.
    pub open spec fn out_of_range(value: usize, error: Error) -> bool {
        error matches Error::InvalidWorkingPeriod { period, reason }
            && vstd::string::to_string_from_display_ensures::<usize>(&value, period) && reason@
            == Self::range_reason()
    }

    /// Whether `text` writes a number with a minus sign: the sign, then one
    /// or more decimal digits and nothing else. No period is written with a
    /// minus sign, not even zero.
    pub open spec fn is_negative(text: Seq<char>) -> bool {
        text.len() > 0 && text[0] == '-' && is_digits(text.skip(1))
    }

    /// Whether `error` refuses the number that `text` writes with a minus
    /// sign for being out of range: it hands the text back, and says which
    /// range is allowed.
    pub open spec fn below_range(text: Seq<char>, error: Error) -> bool {
        error matches Error::InvalidWorkingPeriod { period, reason } && period@ == text && reason@
            == Self::range_reason()
    }

    /// The period of so many minutes. Values above thirty are refused.
    pub fn try_from(value: usize) -> (out: Result<Self, Error>)
        ensures
            match Self::of_minutes(value) {
                Some(period) => out == Ok::<Self, Error>(period) && period.is_valid(),
                None => out matches Err(error) && Self::out_of_range(value, error),
            },
    {
        if value == 0 {
            Ok(WorkingPeriod::Continuous)
        } else if value <= 30 {
            Ok(WorkingPeriod::Periodic(value as u8))
        } else {
            Err(
                Error::InvalidWorkingPeriod {
                    period: value.to_string(),
                    reason: "value out of range (0 <= n <= 30)".to_owned(),
                },
            )
        }
    }

    /// Whether the text writes a number with a minus sign.
    fn writes_negative(text: &str) -> (negative: bool)
        ensures
            negative == Self::is_negative(text@),
    {
        let count = text.unicode_len();
        if count < 2 {
            return false;
        }
        if text.get_char(0) != '-' {
            return false;
        }
        let mut i: usize = 1;
        while i < count
            invariant
                1 <= i <= count,
                count == text@.len(),
                forall|j: int| 1 <= j < i ==> 48 <= #[trigger] text@[j] as u32 <= 57,
            decreases count - i,
        {
            let code: u32 = text.get_char(i) as u32;
            if code < 48 || code > 57 {
                proof {
                    let digits = text@.skip(1);
                    assert(digits[i - 1] == text@[i as int]);
                }
                return false;
            }
            i += 1;
        }
        proof {
            let digits = text@.skip(1);
            assert forall|j: int| 0 <= j < digits.len() implies 48 <= #[trigger] digits[j] as u32
                <= 57 by {
                assert(digits[j] == text@[j + 1]);
            }
        }
        true
    }

    /// Turns what reading a text as a number gave into a period. `given` is
    /// the text as it was entered. A text that writes a number with a minus
    /// sign is out of range like any number above thirty, whatever `parsed`
    /// says; the error for a text that writes no number hands the text back
    /// together with the reader's own message.
    pub fn from_parsed(parsed: Result<usize, String>, given: &str) -> (out: Result<Self, Error>)
        ensures
            if Self::is_negative(given@) {
                out matches Err(error) && Self::below_range(given@, error)
            } else {
                match parsed {
                    Ok(value) => match Self::of_minutes(value) {
                        Some(period) => out == Ok::<Self, Error>(period),
                        None => out matches Err(error) && Self::out_of_range(value, error),
                    },
                    Err(message) => out matches Err(
                        Error::InvalidWorkingPeriod { period, reason },
                    ) && period@ == given@ && reason@ == "could not parse int: "@ + message@,
                }
            },
    {
        if Self::writes_negative(given) {
            return Err(
                Error::InvalidWorkingPeriod {
                    period: given.to_owned(),
                    reason: "value out of range (0 <= n <= 30)".to_owned(),
                },
            );
        }
        match parsed {
            Ok(value) => Self::try_from(value),
            Err(message) => {
                let mut reason = "could not parse int: ".to_owned();
                reason.append(message.as_str());
                Err(Error::InvalidWorkingPeriod { period: given.to_owned(), reason })
            },
        }
    }

    /// Reads a period from a text that writes its minutes in decimal: zero
    /// for continuous, one to thirty for a period. A number above thirty, or
    /// one with a minus sign, is refused as out of range; any other text is
    /// refused as unreadable.
    pub fn from_str(s: &str) -> (out: Result<Self, Error>)
        ensures
            if Self::is_negative(s@) {
                out matches Err(error) && Self::below_range(s@, error)
            } else {
                match decimal_value(s@) {
                    Some(value) => match Self::of_minutes(value) {
                        Some(period) => out == Ok::<Self, Error>(period),
                        None => out matches Err(error) && Self::out_of_range(value, error),
                    },
                    None => out matches Err(Error::InvalidWorkingPeriod { period, reason })
                        && period@ == s@ && reason@ == "could not parse int: "@
                        + parse_failure_text(s@),
                }
            },
    {
        Self::from_parsed(parse_usize(s), s)
    }
}

/// Whether the sensor reports on its own or only when asked.
#[derive(Debug, Copy, Clone, PartialEq, Eq, Structural)]
pub enum ReportingMode {
    /// Sensor reports measurements at a regular interval without being explicitly
    /// queried.
    ///
    /// The interval may be configured with the SetWorkingPeriod command.
    Active,
    /// Sensor only reports measurements when explicitly queried (via Query
    /// command)
    Query,
}

impl ReportingMode {
    /// The mode that a raw byte stands for: zero is active, anything else
    /// query.
    pub open spec fn from_byte_spec(byte: u8) -> ReportingMode {
        if byte == 0 {
            ReportingMode::Active
        } else {
            ReportingMode::Query
        }
    }

    /// The raw byte that stands for this mode.
    pub open spec fn as_byte_spec(&self) -> u8 {
        match self {
            ReportingMode::Active => 0,
            ReportingMode::Query => 1,
        }
    }

    /// The mode that a raw byte stands for.
    #[verifier::when_used_as_spec(from_byte_spec)]
    pub fn from_byte(byte: u8) -> (mode: Self)
        ensures
            mode == Self::from_byte_spec(byte),
    {
        match byte {
            0x00 => ReportingMode::Active,
            _ => ReportingMode::Query,
        }
    }

    /// The raw byte that stands for this value.
    #[verifier::when_used_as_spec(as_byte_spec)]
    pub fn as_byte(&self) -> (byte: u8)
        ensures
            byte == self.as_byte_spec(),
    {
        match self {
            ReportingMode::Active => 0x00,
            ReportingMode::Query => 0x01,
        }
    }

    /// The mode that a text in lower case names: `active` or `query`.
    pub open spec fn named(lowered: Seq<char>) -> Option<ReportingMode> {
        if lowered == "active"@ {
            Some(ReportingMode::Active)
        } else if lowered == "query"@ {
            Some(ReportingMode::Query)
        } else {
            None
        }
    }

    /// Reads a mode from a text that is already in lower case. `given` is
    /// the text as it was entered, which the error hands back.
    pub fn from_lowercase(lowered: &str, given: &str) -> (out: Result<Self, Error>)
        ensures
            match Self::named(lowered@) {
                Some(mode) => out == Ok::<Self, Error>(mode),
                None => out matches Err(Error::InvalidReportingMode(text)) && text@ == given@,
            },
    {
        let lowered = lowered.to_owned();
        if lowered == "active".to_owned() {
            Ok(ReportingMode::Active)
        } else if lowered == "query".to_owned() {
            Ok(ReportingMode::Query)
        } else {
            Err(Error::InvalidReportingMode(given.to_owned()))
        }
    }

    /// Reads a mode from a text, whatever its case.
    pub fn from_str(s: &str) -> (out: Result<Self, Error>)
        ensures
            match Self::named(lowercase_text(s@)) {
                Some(mode) => out == Ok::<Self, Error>(mode),
                None => out matches Err(Error::InvalidReportingMode(text)) && text@ == s@,
            },
    {
        let lowered = lowercase(s);
        Self::from_lowercase(lowered.as_str(), s)
    }
}

/// Every mode and every canonical period comes back unchanged from its raw
/// byte.
pub proof fn lemma_byte_round_trip(work: WorkMode, reporting: ReportingMode, period: WorkingPeriod)
    ensures
        WorkMode::from_byte(work.as_byte()) == work,
        ReportingMode::from_byte(reporting.as_byte()) == reporting,
        period.is_canonical() ==> WorkingPeriod::from_byte(period.as_byte()) == period,
        period.is_valid() ==> period.is_canonical(),
{
}

/// Every raw byte comes back unchanged from the period it stands for, and
/// that period is canonical; it is valid exactly when the byte is at most
/// thirty.
pub proof fn lemma_period_of_byte(byte: u8)
    ensures
        WorkingPeriod::from_byte(byte).as_byte() == byte,
        WorkingPeriod::from_byte(byte).is_canonical(),
        WorkingPeriod::from_byte(byte).is_valid() <==> byte <= WorkingPeriod::MAX_MINUTES,
{
}

} // verus!
