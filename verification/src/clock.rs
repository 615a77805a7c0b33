//! Points in time and the elapsed-time field of a broadcast.

use vstd::prelude::*;
use crate::text::{decimal, decimal_of, extend_chars, pad_start, padded_start, text_of};

verus! {

/// A point in time as a count of seconds since 1970-01-01T00:00:00Z and the
/// nanoseconds since that second began.
#[derive(Clone, Copy, Debug, PartialEq, Eq, Structural)]
pub struct Moment {
    pub secs: i64,
    pub nanos: u32,
}

/// What `DateTime<Utc>`'s `FromStr` makes of `text`: the moment it denotes, or
/// `None` where it rejects the text.
pub uninterp spec fn parsed_start(text: Seq<char>) -> Option<Moment>;

/// Trusted: calls chrono's `str::parse::<DateTime<Utc>>` and, where it
/// accepts, `DateTime::timestamp` and `DateTime::timestamp_subsec_nanos` on
/// the value. The contract only gives the outcome its name.
#[verifier::external_body]
fn parse_start(text: &str) -> (r: Option<Moment>)
    ensures
        r == parsed_start(text@),
{
    match text.parse::<chrono::DateTime<chrono::Utc>>() {
        Ok(t) => Some(Moment { secs: t.timestamp(), nanos: t.timestamp_subsec_nanos() }),
        Err(_) => None,
    }
}

/// Trusted: calls chrono's `Utc::now` and reads the same two numbers off the
/// value. Nothing is promised of the clock.
#[verifier::external_body]
pub(crate) fn current_time() -> (r: Moment) {
    let t = chrono::Utc::now();
    Moment { secs: t.timestamp(), nanos: t.timestamp_subsec_nanos() }
}

/// The second of its day in which `m` lies, counted from midnight.
pub open spec fn second_of_day(m: Moment) -> int {
    m.secs as int % 86_400
}

/// `m` lies inside a leap second: its nanoseconds have reached a full
/// second.
pub open spec fn in_leap_second(m: Moment) -> bool {
    m.nanos >= 1_000_000_000
}

/// The second that a leap second adds to, or takes from, the distance
/// between two moments: one more where `start` lies in a leap second and
/// `now` later in the day, one less where `now` lies in one and `start`
/// later in the day.
pub open spec fn leap_adjust(start: Moment, now: Moment) -> int {
    if second_of_day(now) > second_of_day(start) && in_leap_second(start) {
        1
    } else if second_of_day(now) < second_of_day(start) && in_leap_second(now) {
        -1
    } else {
        0
    }
}

/// Nanoseconds from `start` to `now`; negative where `start` is the later.
pub open spec fn nanos_between(start: Moment, now: Moment) -> int {
    (now.secs - start.secs + leap_adjust(start, now)) * 1_000_000_000 + (now.nanos - start.nanos)
}

/// Whole seconds from `start` to `now`, and zero where `start` is not
/// earlier than `now`.
pub open spec fn elapsed_seconds(start: Moment, now: Moment) -> nat {
    if nanos_between(start, now) <= 0 {
        0
    } else {
        (nanos_between(start, now) / 1_000_000_000) as nat
    }
}

/// `n` in decimal, with a leading zero where it has one digit.
pub open spec fn two_digits(n: nat) -> Seq<char> {
    padded_start(decimal(n), 2, '0')
}

/// `HH:MM` for a number of seconds: whole hours, not wrapped at a day, and the
/// minutes left over.
pub open spec fn clock_text(seconds: nat) -> Seq<char> {
    two_digits(seconds / 3600) + seq![':'] + two_digits((seconds / 60) % 60)
}

/// The elapsed-time field: `HH:MM` since `start`, or the empty text where
/// there is no start.
pub open spec fn duration_text(start: Option<Moment>, now: Moment) -> Seq<char> {
    match start {
        Some(s) => clock_text(elapsed_seconds(s, now)),
        None => Seq::<char>::empty(),
    }
}

/// The second of its day in which `m` lies.
pub fn day_second(m: Moment) -> (r: u32)
    ensures
        r == second_of_day(m),
{
    let shifted: i128 = (m.secs as i128) + 86_400 * 106_751_991_167_301;
    (shifted % 86_400) as u32
}

/// Whole seconds from `start` to `now`, zero where `now` is not later.
pub fn seconds_between(start: Moment, now: Moment) -> (r: u128)
    ensures
        r == elapsed_seconds(start, now),
{
    let from: u32 = day_second(start);
    let to: u32 = day_second(now);
    let adjust: i128 = if to > from && start.nanos >= 1_000_000_000 {
        1
    } else if to < from && now.nanos >= 1_000_000_000 {
        -1
    } else {
        0
    };
    let whole: i128 = (now.secs as i128) - (start.secs as i128) + adjust;
    let fine: i128 = (now.nanos as i128) - (start.nanos as i128);
    let total: i128 = whole * 1_000_000_000 + fine;
    if total <= 0 {
        0
    } else {
        (total / 1_000_000_000) as u128
    }
}

/// Formats a number of seconds as `HH:MM`.
pub fn format_clock(seconds: u128) -> (r: Vec<char>)
    ensures
        r@ == clock_text(seconds as nat),
{
    let hours: Vec<char> = decimal_of(seconds / 3600);
    let minutes: Vec<char> = decimal_of((seconds / 60) % 60);
    let mut out: Vec<char> = pad_start(&hours, 2, '0');
    out.push(':');
    let tail: Vec<char> = pad_start(&minutes, 2, '0');
    extend_chars(&mut out, &tail);
    assert(out@ =~= clock_text(seconds as nat));
    out
}

/// The elapsed-time field for a start that was already read: `HH:MM` from
/// `start` to `now`, empty where the start could not be read.
pub fn duration_since(start: Option<Moment>, now: Moment) -> (r: String)
    ensures
        r@ == duration_text(start, now),
{
    match start {
        Some(s) => {
            let chars: Vec<char> = format_clock(seconds_between(s, now));
            text_of(&chars)
        },
        None => String::new(),
    }
}

/// The elapsed-time field of a broadcast that began at the timestamp
/// `started_at`, as seen at `now`.
pub fn live_duration(started_at: &str, now: Moment) -> (r: String)
    ensures
        r@ == duration_text(parsed_start(started_at@), now),
{
    duration_since(parse_start(started_at), now)
}

/// The elapsed-time field of a broadcast that began at the timestamp
/// `started_at`, as seen on the system clock. A timestamp that cannot be read
/// gives the empty text whatever the clock says.
pub fn to_instant(started_at: &str) -> (r: String)
    ensures
        exists|now: Moment| r@ == duration_text(parsed_start(started_at@), now),
        parsed_start(started_at@) is None ==> r@ == Seq::<char>::empty(),
{
    let now: Moment = current_time();
    live_duration(started_at, now)
}

} // verus!
