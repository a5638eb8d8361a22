//! The timestamp that is appended to file names: `YYYYMMDD_HHMM`.

use vstd::prelude::*;
use vstd::string::*;
use crate::text::{digit_char, is_digit};

verus! {

/// Number of characters of a timestamp.
pub const TIMESTAMP_LEN: usize = 13;

/// First second of the year 0 on a calendar and clock, counted as if that
/// clock showed UTC: 0000-01-01 00:00:00.
pub const FIRST_CIVIL_SECOND: i64 = -62_167_219_200;

/// Last second of the year 9999 on a calendar and clock, counted as if that
/// clock showed UTC: 9999-12-31 23:59:59.
pub const LAST_CIVIL_SECOND: i64 = 253_402_300_799;

/// A time zone is less than this many seconds away from UTC.
pub const DAY_SECONDS: i64 = 86_400;

/// Why a modification time has no timestamp.
pub const NO_TIMESTAMP_REASON: &'static str =
    "modification time is outside the years 0000 to 9999";

/// The `strftime` layout that renders a timestamp: year, month, day,
/// underscore, hour (24-hour clock), minute, all padded with zeros.
pub const TIMESTAMP_LAYOUT: &'static str = "%Y%m%d_%H%M";

/// The shape `YYYYMMDD_HHMM`: eight digits, an underscore, four digits.
/// Only the shape counts; the digits need not name a real date or time.
pub open spec fn is_timestamp(s: Seq<char>) -> bool {
    &&& s.len() == 13
    &&& s[8] == '_'
    &&& forall|i: int| 0 <= i < 13 && i != 8 ==> is_digit(#[trigger] s[i])
}

/// The offsets from UTC, in seconds, that a time zone can have.
pub open spec fn is_zone_offset(offset: int) -> bool {
    -DAY_SECONDS < offset < DAY_SECONDS
}

/// Whether the year has four digits, 0000 to 9999, where the clock is
/// `offset` seconds ahead of UTC at the instant `secs` seconds after the
/// Unix epoch. Only such an instant has a timestamp there.
pub open spec fn has_timestamp_at(secs: int, offset: int) -> bool {
    &&& is_zone_offset(offset)
    &&& FIRST_CIVIL_SECOND <= secs + offset <= LAST_CIVIL_SECOND
}

/// A number below 100 in two digits.
pub open spec fn two_digits(n: int) -> Seq<char> {
    seq![digit_char(n / 10), digit_char(n % 10)]
}

/// Hour and minute, `HHMM` on the 24-hour clock, of the second `civil`,
/// counted from 1970-01-01 00:00:00 on the same clock. Days have 86 400
/// seconds.
pub open spec fn clock_text(civil: int) -> Seq<char> {
    let second_of_day = civil % DAY_SECONDS as int;
    two_digits(second_of_day / 3_600) + two_digits(second_of_day % 3_600 / 60)
}

/// What `chrono` writes for the instant `secs` seconds after the Unix epoch
/// on a clock that is `offset` seconds ahead of UTC, in the given layout.
pub uninterp spec fn civil_text(secs: int, offset: int, layout: Seq<char>) -> Seq<char>;

/// A timestamp in the form `YYYYMMDD_HHMM`.
#[derive(Debug)]
pub struct Timestamp {
    text: String,
}

impl View for Timestamp {
    type V = Seq<char>;

    closed spec fn view(&self) -> Seq<char> {
        self.text@
    }
}

/// `chrono::FixedOffset::east_opt`, `DateTime::with_timezone` and
/// `DateTime::format`: the instant `secs` seconds after the Unix epoch, on
/// a calendar and clock `offset` seconds ahead of UTC.
///
/// The result is a function of the arguments and goes by the name
/// `civil_text`. Of its shape the contract claims what the layout gives for
/// a year from 0 to 9999: `%Y` writes four digits, `%m`, `%d`, `%H` and `%M`
/// two digits each. Hour and minute are stated: they are those of the
/// second `secs + offset` of a clock without leap seconds. The date stays
/// under the name. `DateTime::from_timestamp` turns `secs` into what is
/// formatted. Offset and instant are such that each step succeeds, so the
/// result is never `None`.
#[verifier::external_body]
fn format_at_offset(secs: i64, offset: i32, layout: &str) -> (text: Option<String>)
    requires
        has_timestamp_at(secs as int, offset as int),
        layout@ == TIMESTAMP_LAYOUT@,
    ensures
        text is Some,
        text.unwrap()@ == civil_text(secs as int, offset as int, layout@),
        is_timestamp(text.unwrap()@),
        text.unwrap()@.skip(9) == clock_text(secs + offset),
{
    let zone = chrono::FixedOffset::east_opt(offset)?;
    let utc = chrono::DateTime::from_timestamp(secs, 0)?;
    Some(utc.with_timezone(&zone).format(layout).to_string())
}

impl Timestamp {
    #[verifier::type_invariant]
    spec fn well_formed(&self) -> bool {
        is_timestamp(self.text@)
    }

    /// Accepts `text` if it has the form `YYYYMMDD_HHMM`.
    pub fn parse(text: &str) -> (parsed: Option<Timestamp>)
        ensures
            parsed is Some <==> is_timestamp(text@),
            parsed matches Some(t) ==> t@ == text@,
    {
        if text.unicode_len() != TIMESTAMP_LEN {
            return None;
        }
        let mut i: usize = 0;
        while i < TIMESTAMP_LEN
            invariant
                text@.len() == 13,
                i <= 13,
                forall|j: int| 0 <= j < i && j != 8 ==> is_digit(#[trigger] text@[j]),
                i > 8 ==> text@[8] == '_',
            decreases 13 - i,
        {
            let c: char = text.get_char(i);
            if i == 8 {
                if c != '_' {
                    return None;
                }
            } else if !('0' <= c && c <= '9') {
                return None;
            }
            i += 1;
        }
        Some(Timestamp { text: String::from_str(text) })
    }

    /// The timestamp of the instant `secs` seconds after the Unix epoch where
    /// the clock is `offset` seconds ahead of UTC, to the minute. There is
    /// none where `offset` is a day or more, or the year there has not four
    /// digits.
    pub fn at_offset(secs: i64, offset: i32) -> (stamp: Option<Timestamp>)
        ensures
            stamp is Some <==> has_timestamp_at(secs as int, offset as int),
            stamp matches Some(t) ==> t@ == civil_text(
                secs as int,
                offset as int,
                TIMESTAMP_LAYOUT@,
            ),
            stamp matches Some(t) ==> is_timestamp(t@) && t@.skip(9) == clock_text(secs + offset),
    {
        let ahead: i64 = offset as i64;
        if ahead <= -DAY_SECONDS || ahead >= DAY_SECONDS {
            return None;
        }
        if secs <= FIRST_CIVIL_SECOND - DAY_SECONDS || secs >= LAST_CIVIL_SECOND + DAY_SECONDS {
            return None;
        }
        let civil: i64 = secs + ahead;
        if civil < FIRST_CIVIL_SECOND || civil > LAST_CIVIL_SECOND {
            return None;
        }
        match format_at_offset(secs, offset, TIMESTAMP_LAYOUT) {
            Some(text) => Some(Timestamp { text }),
            None => None,
        }
    }

    /// The timestamp as text.
    pub fn as_str(&self) -> (text: &str)
        ensures
            text@ == self@,
            is_timestamp(text@),
    {
        proof {
            use_type_invariant(self);
        }
        self.text.as_str()
    }
}

/// What is known of a file's modification time, for `process_file`: the
/// timestamp of the instant at the given offset, or the reason why it has
/// none.
pub fn modified_timestamp(secs: i64, offset: i32) -> (reading: Result<Timestamp, String>)
    ensures
        reading is Ok <==> has_timestamp_at(secs as int, offset as int),
        reading matches Ok(t) ==> {
            &&& t@ == civil_text(secs as int, offset as int, TIMESTAMP_LAYOUT@)
            &&& is_timestamp(t@)
            &&& t@.skip(9) == clock_text(secs + offset)
        },
        reading matches Err(reason) ==> reason@ == NO_TIMESTAMP_REASON@,
{
    match Timestamp::at_offset(secs, offset) {
        Some(stamp) => Ok(stamp),
        None => Err(String::from_str(NO_TIMESTAMP_REASON)),
    }
}

} // verus!
