//! Timestamps and resolution of optional date/time text.
//!
//! A date/time argument may be omitted on the command line; absence is a
//! deliberate "not yet resolved" state. Resolution turns the optional text
//! into a concrete [`Timestamp`]: present text is parsed against the fixed
//! calendar grammar, absent text resolves to the current moment. The clock
//! is an injectable value so that callers (and tests) can supply a fixed
//! "now"; [`parse_datetime_or_now`] reads the wall clock itself.

use vstd::prelude::*;

verus! {

/// A concrete local timestamp: whole seconds since the Unix epoch plus
/// the nanoseconds past that second boundary.
#[derive(Clone, Copy, PartialEq, Eq, Structural, Debug)]
pub struct Timestamp {
    pub seconds: i64,
    pub nanos: u32,
}

/// Error for date/time text that the calendar grammar rejects. It is
/// opaque: it carries the underlying parser diagnostic verbatim.
#[derive(Clone, PartialEq, Eq, Debug)]
pub struct DateTimeParseError {
    pub message: String,
}

/// What the calendar date/time grammar yields for a given text: either the
/// denoted instant (epoch seconds, subsecond nanoseconds) or the diagnostic
/// text of the failure. The text names its own UTC offset, so both parts
/// depend on the text alone.
pub uninterp spec fn datetime_of(s: Seq<char>) -> Result<(i64, u32), Seq<char>>;

/// Relies on chrono's `DateTime::<Local>::from_str`, which parses a relaxed
/// RFC 3339 date-time with an explicit offset: the instant it denotes and the
/// diagnostic on failure are functions of the text alone. `timestamp`,
/// `timestamp_subsec_nanos` and the diagnostic's rendering only convert the
/// outcome to plain values.
#[verifier::external_body]
fn parse_datetime_text(s: &str) -> (r: Result<Timestamp, String>)
    ensures
        match r {
            Ok(t) => datetime_of(s@) matches Ok(p) && t.seconds == p.0 && t.nanos == p.1,
            Err(m) => datetime_of(s@) matches Err(d) && m@ == d,
        },
{
    match <chrono::DateTime<chrono::Local> as core::str::FromStr>::from_str(s) {
        Ok(dt) => Ok(Timestamp { seconds: dt.timestamp(), nanos: dt.timestamp_subsec_nanos() }),
        Err(e) => Err(format!("{}", e)),
    }
}

/// Relies on chrono's `Local::now` to read the wall clock; nothing is
/// promised of the value it returns.
#[verifier::external_body]
pub(crate) fn now_timestamp() -> (r: Timestamp) {
    let dt = chrono::Local::now();
    Timestamp { seconds: dt.timestamp(), nanos: dt.timestamp_subsec_nanos() }
}

/// Resolution of optional date/time text against an injected current time:
/// absent text resolves to `now`, present text to the instant it denotes,
/// or to the parser's diagnostic.
pub open spec fn spec_datetime_or_now(text: Option<Seq<char>>, now: Timestamp) -> Result<
    Timestamp,
    Seq<char>,
> {
    match text {
        Option::None => Ok(now),
        Option::Some(s) => match datetime_of(s) {
            Ok(p) => Ok(Timestamp { seconds: p.0, nanos: p.1 }),
            Err(d) => Err(d),
        },
    }
}

/// The mathematical content of a resolution result: the error collapses to
/// its diagnostic text.
pub open spec fn datetime_result_view(r: Result<Timestamp, DateTimeParseError>) -> Result<
    Timestamp,
    Seq<char>,
> {
    match r {
        Ok(t) => Ok(t),
        Err(e) => Err(e.message@),
    }
}

/// Resolves optional date/time text against an injected current time.
pub fn parse_datetime_with(input: Option<&str>, now: Timestamp) -> (r: Result<
    Timestamp,
    DateTimeParseError,
>)
    ensures
        datetime_result_view(r) == spec_datetime_or_now(input.deep_view(), now),
{
    match input {
        None => Ok(now),
        Some(s) => match parse_datetime_text(s) {
            Ok(t) => Ok(t),
            Err(m) => Err(DateTimeParseError { message: m }),
        },
    }
}

/// Resolves optional date/time text, reading the wall clock at the moment
/// of the call when the text is absent. Absent text therefore always
/// resolves; present text resolves exactly as the grammar says.
pub fn parse_datetime_or_now(input: Option<&str>) -> (r: Result<Timestamp, DateTimeParseError>)
    ensures
        exists|now: Timestamp|
            datetime_result_view(r) == #[trigger] spec_datetime_or_now(input.deep_view(), now),
        input is None ==> r is Ok,
{
    let now = now_timestamp();
    let r = parse_datetime_with(input, now);
    proof {
        assert(datetime_result_view(r) == spec_datetime_or_now(input.deep_view(), now));
    }
    r
}

} // verus!
