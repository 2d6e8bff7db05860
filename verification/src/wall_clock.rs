//! What chrono is asked: clock texts, and local times of instants.
use chrono::Timelike;
use vstd::prelude::*;

verus! {

/// Hour and minute that chrono reads from a `YYYY-MM-DD HH:MM:SS` text; `None`
/// where it rejects the text.
pub uninterp spec fn parsed_clock(text: Seq<char>) -> Option<(u32, u32)>;

/// Unix seconds that chrono can represent as a UTC date.
pub open spec fn representable(timestamp_secs: i64) -> bool {
    -8_334_601_228_800 <= timestamp_secs <= 8_210_266_876_799
}

/// Seconds since midnight at an instant, `offset_secs` east of UTC.
pub open spec fn second_of_day(timestamp_secs: i64, offset_secs: i32) -> int {
    (timestamp_secs + offset_secs) % 86_400
}

/// Reads a clock text with `chrono::NaiveDateTime::parse_from_str` and the
/// format `%Y-%m-%d %H:%M:%S`. The hour and minute of a successful parse are
/// what `Timelike::hour` and `Timelike::minute` give, below 24 and 60.
#[verifier::external_body]
pub(crate) fn read_clock(text: &str) -> (r: Option<(u32, u32)>)
    ensures
        r == parsed_clock(text@),
        r matches Some(clock) ==> clock.0 < 24 && clock.1 < 60,
{
    let read = chrono::NaiveDateTime::parse_from_str(text, "%Y-%m-%d %H:%M:%S").ok()?;
    Some((read.hour(), read.minute()))
}

/// Hour and minute on the host's local clock at an instant, by
/// `chrono::DateTime::from_timestamp` and `with_timezone` to `chrono::Local`.
///
/// They exist exactly where chrono can represent the instant. Which they are
/// depends on the time zone of the host, of which nothing is claimed.
#[verifier::external_body]
pub(crate) fn host_clock(timestamp_secs: i64) -> (r: Option<(u32, u32)>)
    ensures
        r is Some <==> representable(timestamp_secs),
        r matches Some(clock) ==> clock.0 < 24 && clock.1 < 60,
{
    let local = chrono::DateTime::from_timestamp(timestamp_secs, 0)?.with_timezone(&chrono::Local);
    Some((local.hour(), local.minute()))
}

/// Hour and minute on a clock at a fixed offset from UTC, by
/// `chrono::DateTime::from_timestamp` and `with_timezone` to a
/// `chrono::FixedOffset`.
///
/// They exist exactly where chrono can represent the instant, and are those of
/// the second of the day there.
#[verifier::external_body]
pub(crate) fn offset_clock(timestamp_secs: i64, offset_secs: i32) -> (r: Option<(u32, u32)>)
    requires
        -86_400 < offset_secs < 86_400,
    ensures
        r is Some <==> representable(timestamp_secs),
        r matches Some(clock) ==> clock.0 == second_of_day(timestamp_secs, offset_secs) / 3600
            && clock.1 == second_of_day(timestamp_secs, offset_secs) % 3600 / 60,
{
    let zone = chrono::FixedOffset::east_opt(offset_secs)?;
    let local = chrono::DateTime::from_timestamp(timestamp_secs, 0)?.with_timezone(&zone);
    Some((local.hour(), local.minute()))
}

/// Hour and minute on the host's local clock now, by `chrono::Local::now`.
///
/// What they are depends on the time and the host's time zone; claimed is only
/// that they are an hour and a minute.
#[verifier::external_body]
pub(crate) fn local_now() -> (r: (u32, u32))
    ensures
        r.0 < 24,
        r.1 < 60,
{
    let now = chrono::Local::now();
    (now.hour(), now.minute())
}

} // verus!
