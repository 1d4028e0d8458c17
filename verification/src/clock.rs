//! Reading durations and times, and writing timestamps: the calls into
//! `humantime` and `chrono`, with what is taken on trust about them.

use vstd::prelude::*;

verus! {

/// A count of whole seconds and of nanoseconds beside them: a length of
/// time, or a moment counted from the start of 1970 in UTC.
#[derive(Debug, Clone, Copy, PartialEq, Eq)]
pub struct Span {
    pub secs: u64,
    pub nanos: u32,
}

impl Span {
    /// The whole span in nanoseconds.
    pub open spec fn total(&self) -> nat {
        (self.secs * 1_000_000_000 + self.nanos) as nat
    }
}

/// The error of `humantime::parse_duration`.
#[verifier::external_type_specification]
#[verifier::external_body]
pub struct ExDurationError(humantime::DurationError);

/// The error of `humantime::parse_rfc3339_weak`.
#[verifier::external_type_specification]
#[verifier::external_body]
pub struct ExTimestampError(humantime::TimestampError);

/// Whether `c` is one of the ten decimal digits.
pub open spec fn is_digit(c: char) -> bool {
    '0' as int <= c as int <= '9' as int
}

/// The number of decimal digits in a text.
pub open spec fn decimal_digits(text: Seq<char>) -> nat
    decreases text.len(),
{
    if text.len() == 0 {
        0
    } else {
        decimal_digits(text.drop_last()) + if is_digit(text.last()) {
            1nat
        } else {
            0nat
        }
    }
}

/// The most digits that a duration is read with.
pub const DURATION_DIGITS: usize = 13;

/// The length of time, in nanoseconds, that `humantime::parse_duration`
/// reads from a text, where it reads one.
pub uninterp spec fn duration_reading(text: Seq<char>) -> Option<nat>;

/// The moment, in whole seconds since the start of 1970 in UTC, that
/// `humantime::parse_rfc3339_weak` reads from a text on a machine of 64
/// bits, where it reads one.
pub uninterp spec fn time_reading(text: Seq<char>) -> Option<nat>;

/// The last second that `humantime` reads on a machine whose time ends in
/// January 2038.
pub const LAST_NARROW_SECOND: u64 = 2_147_483_647;

/// What `chrono` writes for the moment `secs` seconds after the start of
/// 1970 in UTC under a `strftime` pattern, where it has such a moment.
pub uninterp spec fn utc_text(secs: int, pattern: Seq<char>) -> Option<Seq<char>>;

/// Calls `humantime::parse_duration`. It is taken on trust that the call
/// gives what the text reads as, the same for the same text, with less than
/// a second of nanoseconds beside the seconds.
///
/// The call adds the spans of the text up with `Duration::new`, which
/// panics where the seconds stand at the limit of `u64` and the nanoseconds
/// come to one full second exactly. For that, two numbers of the text at
/// least must count parts of a second, and such numbers add next to
/// nothing to the seconds. With thirteen digits that leaves eleven for the
/// rest, which as years come to less than 3.2e18 seconds, far from the
/// limit. Texts with more digits are left out.
#[verifier::external_body]
pub(crate) fn read_duration(text: &str) -> (reading: Result<Span, humantime::DurationError>)
    requires
        decimal_digits(text@) <= DURATION_DIGITS,
    ensures
        reading is Ok <==> duration_reading(text@) is Some,
        reading matches Ok(span) ==> span.nanos < 1_000_000_000 && duration_reading(text@) == Some(
            span.total(),
        ),
{
    match humantime::parse_duration(text) {
        Ok(length) => Ok(Span { secs: length.as_secs(), nanos: length.subsec_nanos() }),
        Err(e) => Err(e),
    }
}

/// Renders the error of `humantime::parse_duration` with its `Display`.
/// Nothing is claimed of the text.
#[verifier::external_body]
pub(crate) fn duration_error_text(error: &humantime::DurationError) -> (text: String) {
    error.to_string()
}

/// Calls `humantime::parse_rfc3339_weak`. It is taken on trust that the
/// seconds of a moment it gives are what the text reads as, not before 1970
/// and not after the year 9999, with less than a second of nanoseconds
/// beside them; and that it fails on those texts alone that read as no
/// moment, but that a machine of fewer than 64 bits may also refuse a moment
/// after January 2038. Of the nanoseconds no more is claimed: how finely a
/// moment is kept differs between machines.
#[verifier::external_body]
pub(crate) fn read_time(text: &str) -> (reading: Result<Span, humantime::TimestampError>)
    ensures
        reading matches Ok(moment) ==> moment.nanos < 1_000_000_000 && moment.secs
            <= 253_402_300_799 && time_reading(text@) == Some(moment.secs as nat),
        reading is Err ==> time_reading(text@) is None || (usize::BITS != 64 && time_reading(
            text@,
        )->0 > LAST_NARROW_SECOND),
{
    match humantime::parse_rfc3339_weak(text) {
        Ok(moment) => {
            let since = moment.duration_since(std::time::UNIX_EPOCH).unwrap_or_default();
            Ok(Span { secs: since.as_secs(), nanos: since.subsec_nanos() })
        },
        Err(e) => Err(e),
    }
}

/// Renders the error of `humantime::parse_rfc3339_weak` with its `Display`.
/// Nothing is claimed of the text.
#[verifier::external_body]
pub(crate) fn time_error_text(error: &humantime::TimestampError) -> (text: String) {
    error.to_string()
}

/// The pattern of a timestamp: date and time to the second, marked as UTC.
pub open spec fn timestamp_pattern() -> Seq<char> {
    "%Y-%m-%dT%H:%M:%SZ"@
}

/// The last second of the year 9999, counted from the start of 1970.
pub const LAST_SECOND: i64 = 253_402_300_799;

/// Whether the moment `secs` lies in the years from 1970 to 9999.
pub open spec fn in_plain_years(secs: int) -> bool {
    0 <= secs <= LAST_SECOND
}

/// Whether a text has the layout `YYYY-MM-DDTHH:MM:SSZ`, with a digit for
/// every letter but `T` and `Z`.
pub open spec fn is_timestamp(text: Seq<char>) -> bool {
    &&& text.len() == 20
    &&& is_digit(text[0]) && is_digit(text[1]) && is_digit(text[2]) && is_digit(text[3])
    &&& text[4] == '-'
    &&& is_digit(text[5]) && is_digit(text[6])
    &&& text[7] == '-'
    &&& is_digit(text[8]) && is_digit(text[9])
    &&& text[10] == 'T'
    &&& is_digit(text[11]) && is_digit(text[12])
    &&& text[13] == ':'
    &&& is_digit(text[14]) && is_digit(text[15])
    &&& text[16] == ':'
    &&& is_digit(text[17]) && is_digit(text[18])
    &&& text[19] == 'Z'
}

/// Calls `chrono::DateTime::from_timestamp` and writes the moment with
/// `DateTime::format`. It is taken on trust that the text depends on the
/// seconds and the pattern alone; that there is none exactly where `chrono`
/// has no such moment; and that the moments from 1970 to the end of 9999
/// are written, with four digits for the year and two for every other
/// part. Other patterns are left out: `chrono` panics on one that it cannot
/// read.
#[verifier::external_body]
pub(crate) fn write_utc(secs: i64, pattern: &str) -> (text: Option<String>)
    requires
        pattern@ == timestamp_pattern(),
    ensures
        text is Some <==> utc_text(secs as int, pattern@) is Some,
        text matches Some(t) ==> utc_text(secs as int, pattern@) == Some(t@),
        in_plain_years(secs as int) ==> text is Some,
        text matches Some(t) ==> (in_plain_years(secs as int) ==> is_timestamp(t@)),
{
    match chrono::DateTime::from_timestamp(secs, 0) {
        Some(moment) => Some(moment.format(pattern).to_string()),
        None => None,
    }
}

} // verus!
