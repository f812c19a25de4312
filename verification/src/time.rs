use std::time::Duration;
use std::time::SystemTimeError;
use vstd::arithmetic::div_mod::lemma_fundamental_div_mod;
use vstd::arithmetic::div_mod::lemma_mod_breakdown;
use vstd::arithmetic::div_mod::lemma_mod_multiples_vanish;
use vstd::prelude::*;
use crate::error::ClockError;

verus! {

/// A reading of the wall clock, as specifications speak of it.
pub struct WallClock {
    pub hours: int,
    pub minutes: int,
    pub seconds: int,
}

impl WallClock {
    /// Every field lies within its modular range.
    pub open spec fn valid(self) -> bool {
        &&& 0 <= self.hours < 24
        &&& 0 <= self.minutes < 60
        &&& 0 <= self.seconds < 60
    }

    /// Seconds since the last midnight of the zone the reading is in.
    pub open spec fn second_of_day(self) -> int {
        self.hours * 3600 + self.minutes * 60 + self.seconds
    }
}

/// The reading shown `elapsed` whole seconds after the epoch in a zone that
/// is `offset` hours ahead of it. The hour is reduced by the mathematical
/// modulo, so a negative sum still lands in `0..24`.
pub open spec fn wall_clock(elapsed: int, offset: int) -> WallClock {
    WallClock {
        hours: (elapsed / 3600 + offset) % 24,
        minutes: (elapsed / 60) % 60,
        seconds: elapsed % 60,
    }
}

/// The character that shows the decimal digit `digit`.
pub open spec fn digit_char(digit: int) -> char {
    ('0' as int + digit) as char
}

/// A field of the clock as text: two decimal digits, zero-padded.
pub open spec fn two_digits(value: int) -> Seq<char> {
    seq![digit_char(value / 10), digit_char(value % 10)]
}

/// The reading as text, `HH:MM:SS`.
pub open spec fn clock_text(clock: WallClock) -> Seq<char> {
    two_digits(clock.hours) + seq![':'] + two_digits(clock.minutes) + seq![':'] + two_digits(
        clock.seconds,
    )
}

/// A valid reading of the wall clock.
#[derive(Clone, Copy, Debug, PartialEq, Eq)]
pub struct Time {
    seconds: i8,
    minutes: i8,
    hours: i8,
}

impl View for Time {
    type V = WallClock;

    closed spec fn view(&self) -> WallClock {
        WallClock {
            hours: self.hours as int,
            minutes: self.minutes as int,
            seconds: self.seconds as int,
        }
    }
}

impl Time {
    #[verifier::type_invariant]
    spec fn in_range(&self) -> bool {
        self@.valid()
    }

    /// The reading with the given fields, if each lies within its range.
    pub fn new(hours: i8, minutes: i8, seconds: i8) -> (r: Option<Time>)
        ensures
            r is Some <==> (WallClock {
                hours: hours as int,
                minutes: minutes as int,
                seconds: seconds as int,
            }).valid(),
            r matches Some(t) ==> t@ == (WallClock {
                hours: hours as int,
                minutes: minutes as int,
                seconds: seconds as int,
            }),
    {
        if 0 <= hours && hours < 24 && 0 <= minutes && minutes < 60 && 0 <= seconds && seconds
            < 60 {
            Some(Time { seconds, minutes, hours })
        } else {
            None
        }
    }

    /// The hours of the reading, which is a valid one.
    pub fn hours(&self) -> (h: i8)
        ensures
            h == self@.hours,
            self@.valid(),
    {
        proof {
            use_type_invariant(self);
        }
        self.hours
    }

    /// The minutes of the reading, which is a valid one.
    pub fn minutes(&self) -> (m: i8)
        ensures
            m == self@.minutes,
            self@.valid(),
    {
        proof {
            use_type_invariant(self);
        }
        self.minutes
    }

    /// The seconds of the reading, which is a valid one.
    pub fn seconds(&self) -> (s: i8)
        ensures
            s == self@.seconds,
            self@.valid(),
    {
        proof {
            use_type_invariant(self);
        }
        self.seconds
    }
}

/// Reducing the hour count first, and lifting the offset by six whole days,
/// leaves the hour of the day unchanged.
proof fn lemma_hour_shift(count: int, offset: int)
    ensures
        (count % 24 + (offset + 144)) % 24 == (count + offset) % 24,
{
    lemma_fundamental_div_mod(count, 24);
    lemma_mod_multiples_vanish(6 - count / 24, count + offset, 24);
    assert(24 * (6 - count / 24) + (count + offset) == count % 24 + (offset + 144));
}

/// The wall clock `elapsed` whole seconds after the epoch, `offset` hours
/// away from it.
pub fn sample(elapsed: u64, offset: i8) -> (time: Time)
    ensures
        time@ == wall_clock(elapsed as int, offset as int),
        time@.valid(),
{
    let seconds: u64 = elapsed % 60;
    let minutes: u64 = (elapsed / 60) % 60;
    let base: u64 = (elapsed / 3600) % 24;
    let lifted: u64 = (offset as i16 + 144) as u64;
    let hours: u64 = (base + lifted) % 24;
    proof {
        lemma_hour_shift(elapsed as int / 3600, offset as int);
    }
    Time { seconds: seconds as i8, minutes: minutes as i8, hours: hours as i8 }
}

/// A sample is a valid reading, and taking the offset back out of its hour
/// gives the second of the UTC day: `((hours - offset) mod 24) * 3600 +
/// minutes * 60 + seconds` is `elapsed mod 86400`.
pub proof fn lemma_sample_reconstructs(elapsed: int, offset: int)
    requires
        0 <= elapsed,
    ensures
        wall_clock(elapsed, offset).valid(),
        ((wall_clock(elapsed, offset).hours - offset) % 24) * 3600 + wall_clock(
            elapsed,
            offset,
        ).minutes * 60 + wall_clock(elapsed, offset).seconds == elapsed % 86400,
{
    let hours = elapsed / 3600;
    let shown = (hours + offset) % 24;
    assert((shown - offset) % 24 == hours % 24) by {
        lemma_fundamental_div_mod(hours + offset, 24);
        lemma_mod_multiples_vanish(-((hours + offset) / 24), hours, 24);
        assert(24 * (-((hours + offset) / 24)) + hours == shown - offset);
    }
    assert(elapsed % 86400 == 3600 * (hours % 24) + elapsed % 3600) by {
        lemma_mod_breakdown(elapsed, 3600, 24);
    }
    assert(elapsed % 3600 == 60 * ((elapsed / 60) % 60) + elapsed % 60) by {
        lemma_mod_breakdown(elapsed, 60, 60);
    }
}

/// With no offset a sample is the second of the day split into its fields.
pub proof fn lemma_sample_utc(elapsed: int)
    requires
        0 <= elapsed,
    ensures
        wall_clock(elapsed, 0).second_of_day() == elapsed % 86400,
{
    lemma_sample_reconstructs(elapsed, 0);
}

/// The error of `std::time::SystemTime::elapsed`, carried through unread.
#[verifier::external_type_specification]
#[verifier::external_body]
pub struct ExSystemTimeError(std::time::SystemTimeError);

/// `std::time::SystemTime::elapsed` on `std::time::UNIX_EPOCH`: how long ago
/// the epoch was by the system clock, or an error where the clock stands
/// before it. Nothing is claimed of the reading.
#[verifier::external_body]
fn elapsed_since_epoch() -> (r: Result<Duration, SystemTimeError>) {
    std::time::UNIX_EPOCH.elapsed()
}

/// `Duration::as_secs`, the whole seconds of a duration. Nothing is claimed
/// of the number.
pub assume_specification[ Duration::as_secs ](duration: &Duration) -> (secs: u64)
;

/// The wall clock right now, `timezone` hours away from UTC.
///
/// Whatever the system clock answers, the reading is the sample of some
/// number of elapsed seconds; where the clock cannot answer, the error says
/// so.
pub fn get_current_time(timezone: i8) -> (r: Result<Time, ClockError>)
    ensures
        match r {
            Ok(time) => time@.valid() && exists|elapsed: u64|
                time@ == #[trigger] wall_clock(elapsed as int, timezone as int),
            Err(e) => e == ClockError::TimeSourceUnavailable,
        },
{
    match elapsed_since_epoch() {
        Ok(duration) => {
            let now: u64 = duration.as_secs();
            Ok(sample(now, timezone))
        },
        Err(_) => Err(ClockError::TimeSourceUnavailable),
    }
}

fn digit_text(digit: i8) -> (text: &'static str)
    requires
        0 <= digit < 10,
    ensures
        text@ == seq![digit_char(digit as int)],
{
    proof {
        reveal_strlit("0");
        reveal_strlit("1");
        reveal_strlit("2");
        reveal_strlit("3");
        reveal_strlit("4");
        reveal_strlit("5");
        reveal_strlit("6");
        reveal_strlit("7");
        reveal_strlit("8");
        reveal_strlit("9");
    }
    let text: &'static str = match digit {
        0 => "0",
        1 => "1",
        2 => "2",
        3 => "3",
        4 => "4",
        5 => "5",
        6 => "6",
        7 => "7",
        8 => "8",
        _ => "9",
    };
    assert(text@ =~= seq![digit_char(digit as int)]);
    text
}

/// One field of the clock as text: two decimal digits, zero-padded.
pub(crate) fn field_text(value: i8) -> (text: String)
    requires
        0 <= value < 100,
    ensures
        text@ == two_digits(value as int),
{
    let mut text: String = String::from_str(digit_text(value / 10));
    text.append(digit_text(value % 10));
    assert(text@ =~= two_digits(value as int));
    text
}

impl Time {
    /// The reading as text, `HH:MM:SS`.
    pub fn to_text(&self) -> (text: String)
        ensures
            text@ == clock_text(self@),
    {
        proof {
            use_type_invariant(self);
            reveal_strlit(":");
        }
        let mut text: String = field_text(self.hours);
        text.append(":");
        text.append(field_text(self.minutes).as_str());
        text.append(":");
        text.append(field_text(self.seconds).as_str());
        assert(text@ =~= clock_text(self@));
        text
    }
}

} // verus!
