use chrono::{DateTime, NaiveDateTime, Utc};
use vstd::prelude::*;

verus! {

/// An instant on the UTC time line as chrono reports it for a
/// `DateTime<Utc>`: whole seconds since the Unix epoch (`timestamp`) and the
/// nanoseconds past that second (`timestamp_subsec_nanos`). The pair gives
/// the date-time back through `DateTime::from_timestamp`.
#[derive(Clone, Copy, Debug, PartialEq, Eq, Structural)]
pub struct UtcInstant {
    pub secs: i64,
    pub nanos: u32,
}

/// The format in which the database stores times (`last_bumped`).
pub const DB_TIME_FORMAT: &'static str = "%Y-%m-%d %H:%M:%S";

/// Whether `chrono::DateTime::<Utc>::from_timestamp(secs, nanos)` yields a
/// date-time, that is whether the pair is that of some `DateTime<Utc>`.
pub uninterp spec fn utc_timestamp_valid(secs: i64, nanos: u32) -> bool;

/// What `chrono::NaiveDateTime::parse_from_str(text, format)` gives, with
/// the parsed date-time read as UTC and taken as its (seconds, nanoseconds)
/// pair, and an error taken as its display text.
pub uninterp spec fn parsed_utc(text: Seq<char>, format: Seq<char>) -> Result<(i64, u32), Seq<char>>;

/// What chrono's `signed_duration_since(..).num_milliseconds()` gives for
/// the later and the earlier instant, each given by its (seconds,
/// nanoseconds) pair.
pub uninterp spec fn utc_millis_between(
    later_secs: i64,
    later_nanos: u32,
    earlier_secs: i64,
    earlier_nanos: u32,
) -> i64;

/// The text that chrono's `format(format).to_string()` gives for the
/// instant with the given (seconds, nanoseconds) pair.
pub uninterp spec fn formatted_utc(secs: i64, nanos: u32, format: Seq<char>) -> Seq<char>;

pub open spec fn is_valid_instant(t: UtcInstant) -> bool {
    utc_timestamp_valid(t.secs, t.nanos)
}

/// Calls `chrono::Utc::now()`. Claimed: the instant is a valid `DateTime<Utc>`
/// pair (it is read off one). Nothing is claimed of which instant it is.
/// chrono panics when the system clock is before the Unix epoch.
#[verifier::external_body]
pub(crate) fn utc_now() -> (t: UtcInstant)
    ensures
        utc_timestamp_valid(t.secs, t.nanos),
{
    let now = Utc::now();
    UtcInstant { secs: now.timestamp(), nanos: now.timestamp_subsec_nanos() }
}

/// Calls `chrono::NaiveDateTime::parse_from_str` and reads the result as
/// UTC (`and_utc`). Claimed: the outcome is `parsed_utc` of the two texts,
/// and a parsed instant is a valid `DateTime<Utc>` pair.
#[verifier::external_body]
pub(crate) fn parse_utc(text: &str, format: &str) -> (r: Result<UtcInstant, String>)
    ensures
        (match r {
            Ok(t) => parsed_utc(text@, format@) == Ok::<(i64, u32), Seq<char>>((t.secs, t.nanos))
                && utc_timestamp_valid(t.secs, t.nanos),
            Err(e) => parsed_utc(text@, format@) == Err::<(i64, u32), Seq<char>>(e@),
        }),
{
    match NaiveDateTime::parse_from_str(text, format) {
        Ok(dt) => {
            let utc = dt.and_utc();
            Ok(UtcInstant { secs: utc.timestamp(), nanos: utc.timestamp_subsec_nanos() })
        },
        Err(e) => Err(e.to_string()),
    }
}

/// Calls chrono's `DateTime::signed_duration_since` on the two instants
/// (rebuilt with `DateTime::from_timestamp`) and takes the duration's
/// `num_milliseconds`. Claimed: the result is `utc_millis_between` of the
/// two pairs. Both pairs must be valid, so that rebuilding them succeeds.
#[verifier::external_body]
pub(crate) fn millis_between(later: UtcInstant, earlier: UtcInstant) -> (ms: i64)
    requires
        is_valid_instant(later),
        is_valid_instant(earlier),
    ensures
        ms == utc_millis_between(later.secs, later.nanos, earlier.secs, earlier.nanos),
{
    let a = DateTime::from_timestamp(later.secs, later.nanos).unwrap();
    let b = DateTime::from_timestamp(earlier.secs, earlier.nanos).unwrap();
    a.signed_duration_since(b).num_milliseconds()
}

/// Calls chrono's `DateTime::format(format).to_string()` on the instant
/// (rebuilt with `DateTime::from_timestamp`). Claimed: the text is
/// `formatted_utc` of the pair and the format. The instant must be valid,
/// and the format must be the database's: chrono panics in `to_string` on a
/// format it cannot render, which that one is not.
#[verifier::external_body]
pub(crate) fn format_utc(t: UtcInstant, format: &str) -> (s: String)
    requires
        is_valid_instant(t),
        format@ == DB_TIME_FORMAT@,
    ensures
        s@ == formatted_utc(t.secs, t.nanos, format@),
{
    DateTime::from_timestamp(t.secs, t.nanos).unwrap().format(format).to_string()
}

/// The instant is one that a reading of the system clock (`utc_now`) can
/// give.
pub closed spec fn is_clock_reading(t: UtcInstant) -> bool {
    call_ensures(utc_now, (), t)
}

/// Reads the system clock.
pub(crate) fn read_clock() -> (t: UtcInstant)
    ensures
        is_clock_reading(t),
        is_valid_instant(t),
{
    let clock = utc_now;
    clock()
}

} // verus!
