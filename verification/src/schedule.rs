//! The tag that keeps instances from being stopped before a moment: which
//! moment the operator chose, and how it is written.

use vstd::prelude::*;
use vstd::std_specs::iter::IteratorSpec;
use vstd::string::StringExecFns;
use crate::clock::{
    decimal_digits, duration_error_text, duration_reading, in_plain_years, is_timestamp,
    read_duration, read_time, time_error_text, time_reading, timestamp_pattern, utc_text, write_utc,
    Span, DURATION_DIGITS, LAST_NARROW_SECOND,
};
use crate::error::Error;

verus! {

/// A tag: a key and the value set for it.
#[derive(Debug, Clone, PartialEq, Eq)]
pub struct Tag {
    pub key: String,
    pub value: String,
}

/// What the options of the tagging operation hold.
#[derive(Debug, Clone, PartialEq, Eq)]
pub struct TagRequest {
    /// The operator asked for the usage text.
    pub help: bool,
    /// The length of time from now, as the operator wrote it.
    pub duration: Option<String>,
    /// The moment, as the operator wrote it.
    pub time: Option<String>,
}

/// The operator's choice of a moment.
#[derive(Debug, Clone, PartialEq, Eq)]
pub enum Deadline {
    /// So long from now.
    After(String),
    /// At that moment.
    At(String),
}

/// The key of the tag.
pub open spec fn tag_key() -> Seq<char> {
    "NoStopBefore"@
}

/// The complaint about a request that names both a duration and a time.
pub open spec fn both_given() -> Seq<char> {
    "Cannot specify both duration and time"@
}

/// The complaint about a request that names neither.
pub open spec fn none_given() -> Seq<char> {
    "Must specify either duration or time"@
}

/// The complaint about a moment that cannot be written.
pub open spec fn out_of_range() -> Seq<char> {
    "Time is out of range"@
}

/// The complaint about a duration with more digits than are read.
pub open spec fn too_many_digits() -> Seq<char> {
    "number is too large"@
}

/// Settles which moment the operator chose. A request for help ends the
/// operation; a duration together with a time, or neither, is a wrong call.
pub fn chosen_deadline(request: TagRequest) -> (choice: Result<Deadline, Error>)
    ensures
        request.help ==> choice == Err::<Deadline, Error>(Error::ShowUsage),
        !request.help ==> match (request.duration, request.time) {
            (Some(_), Some(_)) => choice matches Err(Error::InvalidUsage(m)) && m@ == both_given(),
            (Some(d), None) => choice == Ok::<Deadline, Error>(Deadline::After(d)),
            (None, Some(t)) => choice == Ok::<Deadline, Error>(Deadline::At(t)),
            (None, None) => choice matches Err(Error::InvalidUsage(m)) && m@ == none_given(),
        },
{
    if request.help {
        return Err(Error::ShowUsage);
    }
    match (request.duration, request.time) {
        (Some(_), Some(_)) => Err(
            Error::InvalidUsage(String::from_str("Cannot specify both duration and time")),
        ),
        (Some(d), None) => Ok(Deadline::After(d)),
        (None, Some(t)) => Ok(Deadline::At(t)),
        (None, None) => Err(
            Error::InvalidUsage(String::from_str("Must specify either duration or time")),
        ),
    }
}

/// Tells whether a text has few enough digits to be read as a duration.
pub fn has_few_digits(text: &str) -> (few: bool)
    ensures
        few == (decimal_digits(text@) <= DURATION_DIGITS),
{
    let mut rest = text.chars();
    let mut count: usize = 0;
    let ghost mut seen: Seq<char> = Seq::empty();
    proof {
        broadcast use vstd::string::group_string_axioms;
    }
    loop
        invariant
            seen + rest.remaining() == text@,
            count <= DURATION_DIGITS + 1,
            count <= DURATION_DIGITS ==> count == decimal_digits(seen),
            count > DURATION_DIGITS ==> decimal_digits(seen) > DURATION_DIGITS,
        decreases text@.len() - seen.len(),
    {
        broadcast use vstd::string::group_string_axioms;
        match rest.next() {
            None => {
                return count <= DURATION_DIGITS;
            },
            Some(c) => {
                proof {
                    assert(seen.push(c).drop_last() =~= seen);
                    seen = seen.push(c);
                }
                if '0' <= c && c <= '9' && count <= DURATION_DIGITS {
                    count = count + 1;
                }
            },
        }
    }
}

/// Reads a length of time, such as `1h 30min`. A text with more than
/// thirteen digits is refused as too large, without being read.
pub fn read_span(text: &str) -> (reading: Result<Span, Error>)
    ensures
        reading is Ok <==> decimal_digits(text@) <= DURATION_DIGITS && duration_reading(text@) is Some,
        reading matches Ok(span) ==> span.nanos < 1_000_000_000 && duration_reading(text@) == Some(
            span.total(),
        ),
        reading is Err ==> reading->Err_0 is InvalidDuration,
        decimal_digits(text@) > DURATION_DIGITS ==> (reading matches Err(Error::InvalidDuration(m))
            && m@ == too_many_digits()),
{
    if !has_few_digits(text) {
        return Err(Error::InvalidDuration(String::from_str("number is too large")));
    }
    match read_duration(text) {
        Ok(span) => Ok(span),
        Err(e) => Err(Error::InvalidDuration(duration_error_text(&e))),
    }
}

/// Reads a moment, such as `2018-02-14 00:28:07`, as time since the start
/// of 1970 in UTC. A text that reads as a moment is read, but that a machine
/// of fewer than 64 bits may refuse a moment after January 2038.
pub fn read_moment(text: &str) -> (reading: Result<Span, Error>)
    ensures
        reading matches Ok(moment) ==> moment.nanos < 1_000_000_000 && moment.secs
            <= 253_402_300_799 && time_reading(text@) == Some(moment.secs as nat),
        reading is Err ==> reading->Err_0 is InvalidTime,
        reading is Err ==> time_reading(text@) is None || (usize::BITS != 64 && time_reading(
            text@,
        )->0 > LAST_NARROW_SECOND),
{
    match read_time(text) {
        Ok(moment) => Ok(moment),
        Err(e) => Err(Error::InvalidTime(time_error_text(&e))),
    }
}

/// The whole seconds of the moment that lies `length` after `now`.
pub open spec fn seconds_after(now: Span, length: Span) -> int {
    (now.total() + length.total()) as int / 1_000_000_000
}

/// The whole seconds of the moment that lies `length` after `now`, where
/// they can be counted.
pub fn moment_after(now: Span, length: Span) -> (secs: Option<i64>)
    ensures
        secs is Some <==> seconds_after(now, length) <= i64::MAX,
        secs matches Some(s) ==> s == seconds_after(now, length),
{
    let carry: u64 = ((now.nanos as u64) + (length.nanos as u64)) / 1_000_000_000;
    assert(seconds_after(now, length) == now.secs + length.secs + carry) by {
        let x = now.nanos as int + length.nanos as int;
        let whole = now.secs as int + length.secs as int;
        assert((whole * 1_000_000_000 + x) / 1_000_000_000 == whole + x / 1_000_000_000) by {
            vstd::arithmetic::div_mod::lemma_fundamental_div_mod(x, 1_000_000_000);
            vstd::arithmetic::div_mod::lemma_fundamental_div_mod_converse(
                whole * 1_000_000_000 + x,
                1_000_000_000,
                whole + x / 1_000_000_000,
                x % 1_000_000_000,
            );
        }
    }
    let limit: u64 = 0x7fff_ffff_ffff_ffff;
    if now.secs > limit || length.secs > limit - now.secs {
        return None;
    }
    let whole: u64 = now.secs + length.secs;
    if carry > limit - whole {
        return None;
    }
    let total: u64 = whole + carry;
    Some(total as i64)
}

/// A moment written as date and time to the second in UTC, where it can
/// be; from 1970 to the end of 9999 it can, as `YYYY-MM-DDTHH:MM:SSZ`.
pub fn timestamp(secs: i64) -> (text: Option<String>)
    ensures
        text is Some <==> utc_text(secs as int, timestamp_pattern()) is Some,
        text matches Some(t) ==> utc_text(secs as int, timestamp_pattern()) == Some(t@),
        in_plain_years(secs as int) ==> (text matches Some(t) && is_timestamp(t@)),
{
    write_utc(secs, "%Y-%m-%dT%H:%M:%SZ")
}

/// Whether `outcome` is what writing the moment `secs` comes to: the tag
/// with the moment's text, or a failure where the moment cannot be written.
/// A moment from 1970 to the end of 9999 can, as `YYYY-MM-DDTHH:MM:SSZ`.
pub open spec fn written(secs: int, outcome: Result<Tag, Error>) -> bool {
    let plain = in_plain_years(secs);
    if secs <= i64::MAX && utc_text(secs, timestamp_pattern()) is Some {
        &&& outcome matches Ok(tag)
        &&& tag.key@ == tag_key()
        &&& Some(tag.value@) == utc_text(secs, timestamp_pattern())
        &&& plain ==> is_timestamp(tag.value@)
    } else {
        &&& outcome matches Err(Error::Runtime(m))
        &&& m@ == out_of_range()
        &&& !plain
    }
}

/// The tag for a moment that has been written, or the failure to write it.
pub fn stamped_tag(text: Option<String>) -> (outcome: Result<Tag, Error>)
    ensures
        match text {
            Some(t) => outcome == Ok::<Tag, Error>(Tag { key: outcome->Ok_0.key, value: t })
                && outcome->Ok_0.key@ == tag_key(),
            None => outcome matches Err(Error::Runtime(m)) && m@ == out_of_range(),
        },
{
    match text {
        Some(value) => Ok(Tag { key: String::from_str("NoStopBefore"), value }),
        None => Err(Error::Runtime(String::from_str("Time is out of range"))),
    }
}

/// The tag for the moment `secs`, counted in whole seconds from the start
/// of 1970.
pub fn tag_at(secs: Option<i64>) -> (outcome: Result<Tag, Error>)
    ensures
        secs matches Some(s) ==> written(s as int, outcome),
        secs is None ==> (outcome matches Err(Error::Runtime(m)) && m@ == out_of_range()),
{
    match secs {
        Some(s) => stamped_tag(timestamp(s)),
        None => stamped_tag(None),
    }
}

/// Whether `outcome` is what a chosen moment comes to at the time `now`.
pub open spec fn tagged(deadline: Deadline, now: Span, outcome: Result<Tag, Error>) -> bool {
    match deadline {
        Deadline::After(d) => {
            if decimal_digits(d@) <= DURATION_DIGITS && duration_reading(d@) is Some {
                written((now.total() + duration_reading(d@)->0) as int / 1_000_000_000, outcome)
            } else {
                outcome is Err && outcome->Err_0 is InvalidDuration
            }
        },
        Deadline::At(t) => {
            match time_reading(t@) {
                Some(moment) => (outcome is Ok && written(moment as int, outcome)) || (
                usize::BITS != 64 && moment > LAST_NARROW_SECOND && outcome is Err
                    && outcome->Err_0 is InvalidTime),
                None => outcome is Err && outcome->Err_0 is InvalidTime,
            }
        },
    }
}

/// The tag for a chosen moment: for a duration the moment that lies so long
/// after `now`, for a time that time itself, written to the second in UTC.
pub fn deadline_tag(deadline: &Deadline, now: Span) -> (outcome: Result<Tag, Error>)
    ensures
        tagged(*deadline, now, outcome),
{
    match deadline {
        Deadline::After(d) => {
            match read_span(d.as_str()) {
                Ok(length) => tag_at(moment_after(now, length)),
                Err(e) => Err(e),
            }
        },
        Deadline::At(t) => {
            match read_moment(t.as_str()) {
                Ok(moment) => {
                    let zero = Span { secs: 0, nanos: 0 };
                    tag_at(moment_after(moment, zero))
                },
                Err(e) => Err(e),
            }
        },
    }
}

/// The tag that a request asks for at the time `now`, or why there is none.
pub fn no_stop_before_tag(request: TagRequest, now: Span) -> (outcome: Result<Tag, Error>)
    ensures
        request.help ==> outcome == Err::<Tag, Error>(Error::ShowUsage),
        !request.help ==> match (request.duration, request.time) {
            (Some(_), Some(_)) => outcome matches Err(Error::InvalidUsage(m)) && m@ == both_given(),
            (Some(d), None) => tagged(Deadline::After(d), now, outcome),
            (None, Some(t)) => tagged(Deadline::At(t), now, outcome),
            (None, None) => outcome matches Err(Error::InvalidUsage(m)) && m@ == none_given(),
        },
{
    match chosen_deadline(request) {
        Ok(deadline) => deadline_tag(&deadline, now),
        Err(e) => Err(e),
    }
}

} // verus!
