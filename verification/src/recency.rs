//! Stored timestamps: how long ago a provider last succeeded, and the
//! last-active time the interface hands over in milliseconds.

use vstd::prelude::*;

verus! {

/// The layout in which success times are stored.
pub const STORED_TIMESTAMP_FORMAT: &'static str = "%Y-%m-%dT%H:%M:%S";

/// The seconds since 1970-01-01T00:00:00 of the date and time that `chrono`
/// reads from `s` in the layout `format`, taken as UTC; none when it does not
/// parse.
pub uninterp spec fn parsed_timestamp_seconds(s: Seq<char>, format: Seq<char>) -> Option<i64>;

/// Reads `s` with `chrono::NaiveDateTime::parse_from_str(s, format)` and
/// gives the parsed date and time as seconds (`and_utc().timestamp()`). The
/// contract names the result and does not write the parser out.
#[verifier::external_body]
fn parse_timestamp_seconds(s: &str, format: &str) -> (r: Option<i64>)
    ensures
        r == parsed_timestamp_seconds(s@, format@),
{
    match chrono::NaiveDateTime::parse_from_str(s, format) {
        Ok(t) => Some(t.and_utc().timestamp()),
        Err(_) => None,
    }
}

/// A reading of the local wall clock: whole seconds since the epoch of the
/// local date and time, and the nanoseconds past that second.
pub struct ClockReading {
    pub seconds: i64,
    pub subsec_nanos: u32,
}

/// Reads the local wall clock with `chrono::Local::now().naive_local()`,
/// split by `and_utc()` into `timestamp()` and `timestamp_subsec_nanos()`.
/// The reading rests on the clock and the machine's time zone, so the
/// contract claims nothing of it.
#[verifier::external_body]
fn read_local_clock() -> ClockReading {
    let t = chrono::Local::now().naive_local().and_utc();
    ClockReading { seconds: t.timestamp(), subsec_nanos: t.timestamp_subsec_nanos() }
}

/// Division that rounds toward zero, as Rust's integer division does.
pub open spec fn trunc_div(a: int, b: int) -> int {
    if a >= 0 {
        a / b
    } else {
        -((-a) / b)
    }
}

/// Whole seconds from a moment on a whole second (`then_secs`) to the clock
/// reading `now`, rounded toward zero as `chrono::TimeDelta::num_seconds`
/// does.
pub open spec fn elapsed_seconds(now: ClockReading, then_secs: i64) -> int {
    let d = now.seconds - then_secs;
    if d < 0 && now.subsec_nanos > 0 {
        d + 1
    } else {
        d
    }
}

/// Whole minutes from `then_secs` to `now`, rounded toward zero as
/// `chrono::TimeDelta::num_minutes` does.
pub open spec fn elapsed_minutes(now: ClockReading, then_secs: i64) -> int {
    trunc_div(elapsed_seconds(now, then_secs), 60)
}

/// Minutes since the last success, given the clock reading `now`: none when
/// there was no success or its stored time does not parse.
pub open spec fn recency_at(last_success_at: Option<Seq<char>>, now: ClockReading) -> Option<int> {
    match last_success_at {
        None => None,
        Some(ts) => match parsed_timestamp_seconds(ts, STORED_TIMESTAMP_FORMAT@) {
            None => None,
            Some(then_secs) => Some(elapsed_minutes(now, then_secs)),
        },
    }
}

/// The last success time as text.
pub open spec fn text_view(s: Option<&str>) -> Option<Seq<char>> {
    match s {
        Some(t) => Some(t@),
        None => None,
    }
}

/// Whole minutes from `then_secs` to the clock reading `now`.
pub fn minutes_between(now: &ClockReading, then_secs: i64) -> (m: i64)
    ensures
        m == elapsed_minutes(*now, then_secs),
{
    let d: i128 = now.seconds as i128 - then_secs as i128;
    let s: i128 = if d < 0 && now.subsec_nanos > 0 {
        d + 1
    } else {
        d
    };
    if s >= 0 {
        let q: u128 = (s as u128) / 60;
        (q as i64)
    } else {
        let q: u128 = ((-s) as u128) / 60;
        -(q as i64)
    }
}

/// Minutes since the last successful fetch at the clock reading `now`.
pub fn recency_minutes_at(last_success_at: Option<&str>, now: &ClockReading) -> (r: Option<i64>)
    ensures
        r matches Some(m) ==> recency_at(text_view(last_success_at), *now) == Some(m as int),
        r is None ==> recency_at(text_view(last_success_at), *now) is None,
{
    match last_success_at {
        None => None,
        Some(ts) => match parse_timestamp_seconds(ts, STORED_TIMESTAMP_FORMAT) {
            None => None,
            Some(then_secs) => Some(minutes_between(now, then_secs)),
        },
    }
}

/// Minutes since the last successful fetch, measured against the local
/// clock now: none when there was no success or its stored time does not
/// parse.
pub fn recency_minutes(last_success_at: Option<&str>) -> (r: Option<i64>)
    ensures
        exists|now: ClockReading|
            {
                &&& r matches Some(m) ==> recency_at(text_view(last_success_at), now) == Some(
                    m as int,
                )
                &&& r is None ==> recency_at(text_view(last_success_at), now) is None
            },
{
    let now = read_local_clock();
    let r = recency_minutes_at(last_success_at, &now);
    assert({
        &&& r matches Some(m) ==> recency_at(text_view(last_success_at), now) == Some(m as int)
        &&& r is None ==> recency_at(text_view(last_success_at), now) is None
    });
    r
}

/// Minutes up to which a success earns the full recency bonus, and from
/// which it earns none.
pub const FULL_BONUS_MINUTES: i64 = 30;
pub const ZERO_BONUS_MINUTES: i64 = 360;

/// Where a success that many minutes ago falls on the recency scale.
#[derive(Clone, Copy, Debug, PartialEq, Eq, Structural)]
pub enum RecencyBand {
    /// Recent enough for the full bonus.
    Full,
    /// On the linear decay, this many minutes past the full-bonus limit.
    Decaying(i64),
    /// Too long ago for any bonus.
    Spent,
}

/// The band that `minutes` fall in.
pub open spec fn recency_band_of(minutes: i64) -> RecencyBand {
    if minutes <= FULL_BONUS_MINUTES {
        RecencyBand::Full
    } else if minutes >= ZERO_BONUS_MINUTES {
        RecencyBand::Spent
    } else {
        RecencyBand::Decaying((minutes - FULL_BONUS_MINUTES) as i64)
    }
}

/// Places a success `minutes` ago on the recency scale: full bonus up to 30
/// minutes, none from 360 minutes, linear decay in between.
pub fn recency_band(minutes: i64) -> (b: RecencyBand)
    ensures
        b == recency_band_of(minutes),
        b matches RecencyBand::Decaying(d) ==> 0 < d < ZERO_BONUS_MINUTES - FULL_BONUS_MINUTES,
{
    if minutes <= FULL_BONUS_MINUTES {
        RecencyBand::Full
    } else if minutes >= ZERO_BONUS_MINUTES {
        RecencyBand::Spent
    } else {
        RecencyBand::Decaying(minutes - FULL_BONUS_MINUTES)
    }
}

/// An instant in UTC: whole seconds since 1970-01-01T00:00:00 and the
/// nanoseconds past that second.
#[derive(Clone, Copy, Debug, PartialEq, Eq, Structural)]
pub struct UtcInstant {
    pub secs: i64,
    pub nanos: u32,
}

/// The earliest and latest millisecond that `chrono` can hold: the
/// `timestamp_millis()` of `DateTime::<Utc>::MIN_UTC` and of `MAX_UTC`.
pub const MIN_UTC_MILLIS: i64 = -8334601228800000;
pub const MAX_UTC_MILLIS: i64 = 8210266876799999;

/// The instant `ms` milliseconds after the epoch (rounding toward the past).
pub open spec fn instant_of_millis(ms: i64) -> UtcInstant {
    UtcInstant { secs: (ms / 1000) as i64, nanos: ((ms % 1000) * 1_000_000) as u32 }
}

/// Converts milliseconds since the epoch with
/// `chrono::DateTime::from_timestamp_millis`, giving the instant back as
/// `timestamp()` and `timestamp_subsec_nanos()`. The contract claims that an
/// instant comes back exactly for the milliseconds between `MIN_UTC_MILLIS`
/// and `MAX_UTC_MILLIS`, and that it is `ms.div_euclid(1000)` seconds and
/// `ms.rem_euclid(1000)` milliseconds, as the source computes it.
#[verifier::external_body]
fn utc_instant_from_millis(ms: i64) -> (r: Option<UtcInstant>)
    ensures
        r is Some <==> MIN_UTC_MILLIS <= ms <= MAX_UTC_MILLIS,
        r matches Some(t) ==> t == instant_of_millis(ms),
{
    match chrono::DateTime::from_timestamp_millis(ms) {
        Some(d) => Some(UtcInstant { secs: d.timestamp(), nanos: d.timestamp_subsec_nanos() }),
        None => None,
    }
}

/// The last-active time that the interface reports in milliseconds, as a
/// UTC instant; "Invalid timestamp" when it is out of range.
pub fn last_active_from_millis(timestamp: i64) -> (r: Result<UtcInstant, String>)
    ensures
        r is Ok <==> MIN_UTC_MILLIS <= timestamp <= MAX_UTC_MILLIS,
        r matches Ok(t) ==> t == instant_of_millis(timestamp),
        r matches Err(e) ==> e@ == "Invalid timestamp"@,
{
    match utc_instant_from_millis(timestamp) {
        Some(t) => Ok(t),
        None => Err(String::from_str("Invalid timestamp")),
    }
}

/// The milliseconds since the epoch of an instant, as
/// `DateTime::timestamp_millis` counts them: seconds times 1000 plus the
/// whole milliseconds of the nanoseconds.
pub open spec fn instant_millis(t: UtcInstant) -> int {
    t.secs * 1000 + t.nanos / 1_000_000
}

/// The milliseconds since the epoch of an instant within `chrono`'s range.
pub fn instant_to_millis(t: &UtcInstant) -> (ms: i64)
    requires
        MIN_UTC_MILLIS <= instant_millis(*t) <= MAX_UTC_MILLIS,
    ensures
        ms == instant_millis(*t),
{
    assert(t.secs * 1000 <= instant_millis(*t) && instant_millis(*t) - 4295 <= t.secs * 1000);
    t.secs * 1000 + (t.nanos / 1_000_000) as i64
}

/// Law: a last-active time read back after it was set gives the same
/// milliseconds.
pub proof fn law_last_active_round_trip(ms: i64)
    requires
        MIN_UTC_MILLIS <= ms <= MAX_UTC_MILLIS,
    ensures
        instant_millis(instant_of_millis(ms)) == ms,
{
    let q = ms / 1000;
    let r = ms % 1000;
    assert(q * 1000 + r == ms && 0 <= r < 1000);
    assert((r * 1_000_000) / 1_000_000 == r) by (nonlinear_arith)
        requires
            0 <= r < 1000,
    ;
}

} // verus!
