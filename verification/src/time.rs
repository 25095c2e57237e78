//! Points in time as the service writes them, and the arithmetic that the
//! display needs: minutes until a call, and the clock time of a call.
use vstd::prelude::*;
use vstd::string::*;
use vstd::arithmetic::div_mod::lemma_fundamental_div_mod_converse;
use crate::text::{digit_char, nat_digits, push_nat};

verus! {

/// A point in time: the seconds since 1970-01-01T00:00:00Z, leap seconds
/// not counted, and the nanoseconds since the last full second.
#[derive(Clone, Copy, Debug, PartialEq, Eq, Structural)]
pub struct Instant {
    pub seconds: i64,
    pub nanos: u32,
}

/// A time of day on a 24-hour clock.
#[derive(Clone, Copy, Debug, PartialEq, Eq, Structural)]
pub struct Clock {
    pub hour: u8,
    pub minute: u8,
}

/// A time stamp of the service: the RFC 3339 text as it was received, the
/// instant that the text names, and the offset of its zone from UTC in
/// seconds, east of Greenwich counted positive.
#[derive(Clone, Debug, PartialEq, Eq)]
pub struct Timestamp {
    pub text: String,
    pub instant: Instant,
    pub offset: i32,
}

/// What `chrono::DateTime::parse_from_rfc3339` reads from a text: the value
/// of `timestamp()`, of `timestamp_subsec_nanos()` and of
/// `offset().local_minus_utc()` of the date and time it returns; `None`
/// where it reports an error.
pub uninterp spec fn rfc3339_parts(text: Seq<char>) -> Option<(i64, u32, i32)>;

/// What `chrono::DateTime::from_timestamp` with no nanoseconds, formatted as
/// `%Y-%m-%dT%H:%M:%SZ`, writes for a number of seconds; `None` where the
/// number is out of the range of dates that chrono can hold.
pub uninterp spec fn utc_text_of(seconds: i64) -> Option<Seq<char>>;

/// Calls `chrono::DateTime::parse_from_rfc3339` and takes the three numbers
/// out of the result. The contract claims only that the outcome is a
/// function of the text.
#[verifier::external_body]
fn parse_rfc3339(text: &str) -> (r: Option<(i64, u32, i32)>)
    ensures
        r == rfc3339_parts(text@),
{
    match chrono::DateTime::parse_from_rfc3339(text) {
        Ok(t) => Some((t.timestamp(), t.timestamp_subsec_nanos(), t.offset().local_minus_utc())),
        Err(_) => None,
    }
}

/// Calls `chrono::DateTime::from_timestamp` and formats the result in UTC
/// with seconds and a trailing `Z`. The contract claims only that the
/// outcome is a function of the number of seconds.
#[verifier::external_body]
fn format_utc(seconds: i64) -> (r: Option<String>)
    ensures
        match r {
            Some(text) => utc_text_of(seconds) == Some(text@),
            None => utc_text_of(seconds) is None,
        },
{
    match chrono::DateTime::from_timestamp(seconds, 0) {
        Some(t) => Some(t.format("%Y-%m-%dT%H:%M:%SZ").to_string()),
        None => None,
    }
}

/// The nanoseconds that pass from `from` to `to`; negative where `to` is
/// the earlier one.
pub open spec fn nanos_between(from: Instant, to: Instant) -> int {
    (to.seconds - from.seconds) * 1_000_000_000 + (to.nanos - from.nanos)
}

/// The whole minutes from `now` until `then`, rounded towards negative
/// infinity: negative as soon as `then` lies before `now`.
pub open spec fn minutes_until(now: Instant, then: Instant) -> int {
    nanos_between(now, then) / 60_000_000_000
}

/// The second of the local day at which a time stamp falls, between 0 and
/// 86 399.
pub open spec fn second_of_day(instant: Instant, offset: i32) -> int {
    (instant.seconds + offset) % 86_400
}

/// The second of the day of a point in time before the epoch, from the
/// seconds that it lies back.
proof fn lemma_second_of_negative(back: int)
    requires
        back > 0,
    ensures
        (-back) % 86_400 == if back % 86_400 == 0 {
            0
        } else {
            86_400 - back % 86_400
        },
{
    let q = back / 86_400;
    let r = back % 86_400;
    if r == 0 {
        lemma_fundamental_div_mod_converse(-back, 86_400, -q, 0);
    } else {
        lemma_fundamental_div_mod_converse(-back, 86_400, -q - 1, 86_400 - r);
    }
}

/// The clock time of a time stamp in the zone of the time stamp.
pub open spec fn clock_of(instant: Instant, offset: i32) -> Clock {
    Clock {
        hour: (second_of_day(instant, offset) / 3600) as u8,
        minute: ((second_of_day(instant, offset) % 3600) / 60) as u8,
    }
}

/// A number below one hundred in two decimal digits; a larger one with as
/// many digits before the last as it takes.
pub open spec fn two_digits(n: nat) -> Seq<char> {
    nat_digits(n / 10) + nat_digits(n % 10)
}

/// The time stamp that a text stands for, if it is one.
pub open spec fn timestamp_of(text: String) -> Option<Timestamp> {
    match rfc3339_parts(text@) {
        Some((seconds, nanos, offset)) => Some(
            Timestamp { text, instant: Instant { seconds, nanos }, offset },
        ),
        None => None,
    }
}

impl Instant {
    /// The whole minutes from `self` until `then`, rounded down; negative
    /// where `then` is already past.
    pub fn minutes_until(&self, then: &Instant) -> (m: i64)
        ensures
            m == minutes_until(*self, *then),
    {
        let span: i128 = (then.seconds as i128 - self.seconds as i128) * 1_000_000_000 + (
        then.nanos as i128 - self.nanos as i128);
        let minute: i128 = 60_000_000_000;
        if span >= 0 {
            (span / minute) as i64
        } else {
            let back: i128 = -span;
            let up: i128 = (back + (minute - 1)) / minute;
            (-up) as i64
        }
    }

    /// The instant as UTC date and time with seconds, in the form
    /// `2024-05-17T08:30:00Z`. `None` where the date is out of range.
    pub fn utc_text(&self) -> (r: Option<String>)
        ensures
            match r {
                Some(text) => utc_text_of(self.seconds) == Some(text@),
                None => utc_text_of(self.seconds) is None,
            },
    {
        format_utc(self.seconds)
    }
}

impl Clock {
    /// Whether hour and minute are in the range of a clock.
    pub open spec fn wf(self) -> bool {
        self.hour < 24 && self.minute < 60
    }

    /// The clock time as `HH:MM`.
    pub open spec fn text(self) -> Seq<char> {
        two_digits(self.hour as nat) + seq![':'] + two_digits(self.minute as nat)
    }

    /// Appends the clock time as `HH:MM`.
    pub fn push_to(&self, out: &mut String)
        ensures
            final(out)@ == old(out)@ + self.text(),
    {
        push_nat(out, (self.hour / 10) as u64);
        push_nat(out, (self.hour % 10) as u64);
        out.push(':');
        push_nat(out, (self.minute / 10) as u64);
        push_nat(out, (self.minute % 10) as u64);
        assert(final(out)@ =~= old(out)@ + self.text());
    }

    /// The clock time as `HH:MM`.
    pub fn to_text(&self) -> (r: String)
        ensures
            r@ == self.text(),
    {
        let mut out = String::new();
        self.push_to(&mut out);
        out
    }
}

impl Timestamp {
    /// Whether the numbers are those that the text stands for.
    pub open spec fn wf(self) -> bool {
        rfc3339_parts(self.text@) == Some((self.instant.seconds, self.instant.nanos, self.offset))
    }

    /// Reads an RFC 3339 time stamp. `None` for any other text.
    pub fn from_string(text: String) -> (r: Option<Timestamp>)
        ensures
            r == timestamp_of(text),
            r matches Some(t) ==> t.wf(),
    {
        match parse_rfc3339(text.as_str()) {
            Some((seconds, nanos, offset)) => Some(
                Timestamp { text, instant: Instant { seconds, nanos }, offset },
            ),
            None => None,
        }
    }

    /// Reads an RFC 3339 time stamp. `None` for any other text.
    pub fn read(text: &str) -> (r: Option<Timestamp>)
        ensures
            match r {
                Some(t) => t.text@ == text@ && t.wf(),
                None => rfc3339_parts(text@) is None,
            },
    {
        Timestamp::from_string(String::from_str(text))
    }

    /// The clock time in the zone of the time stamp.
    pub fn clock(&self) -> (c: Clock)
        ensures
            c == clock_of(self.instant, self.offset),
            c.wf(),
    {
        let local: i128 = self.instant.seconds as i128 + self.offset as i128;
        let day: i128 = 86_400;
        let second: i128 = if local >= 0 {
            local % day
        } else {
            let back: i128 = -local;
            let rest: i128 = back % day;
            proof {
                lemma_second_of_negative(back as int);
            }
            if rest == 0 {
                0
            } else {
                day - rest
            }
        };
        assert(second == second_of_day(self.instant, self.offset));
        assert(0 <= second < 86_400);
        let hour: i128 = second / 3600;
        let minute: i128 = (second % 3600) / 60;
        Clock { hour: hour as u8, minute: minute as u8 }
    }
}

/// A time of day within the range of a clock is written with two digits
/// for the hour, a colon, and two digits for the minute.
pub proof fn law_clock_text_shape(clock: Clock)
    requires
        clock.wf(),
    ensures
        clock.text() == seq![
            digit_char(clock.hour as int / 10),
            digit_char(clock.hour as int % 10),
            ':',
            digit_char(clock.minute as int / 10),
            digit_char(clock.minute as int % 10),
        ],
{
    assert(clock.text() =~= seq![
        digit_char(clock.hour as int / 10),
        digit_char(clock.hour as int % 10),
        ':',
        digit_char(clock.minute as int / 10),
        digit_char(clock.minute as int % 10),
    ]);
}

} // verus!
