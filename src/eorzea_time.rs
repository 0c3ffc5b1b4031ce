//! The Eorzean clock: instants, durations and spans counted in game seconds.
//!
//! One real second is 3600/175 game seconds. Real time is given as whole
//! seconds since the Unix epoch.

use crate::text::{push_padded, zero_padded};
use vstd::prelude::*;
use vstd::string::StringExecFns;

verus! {

pub const MINUTE_IN_ESEC: u64 = 60;

pub const BELL_IN_ESEC: u64 = 60 * MINUTE_IN_ESEC;

pub const SUN_IN_ESEC: u64 = 24 * BELL_IN_ESEC;

pub const MOON_IN_ESEC: u64 = 32 * SUN_IN_ESEC;

pub const YEAR_IN_ESEC: u64 = 12 * MOON_IN_ESEC;

/// The time a weather condition persists: eight bells.
pub const WEATHER_PERIOD_IN_ESEC: u64 = 8 * BELL_IN_ESEC;

/// Game seconds of the instant `real_secs` seconds after the Unix epoch,
/// rounded to the nearest game second (`144 / 7` game seconds per second).
pub open spec fn esecs_of_real(real_secs: int) -> int {
    (288 * real_secs + 7) / 14
}

/// Real seconds since the Unix epoch of a game instant, rounded to the
/// nearest second.
pub open spec fn real_of_esecs(esecs: int) -> int {
    (14 * esecs + 144) / 288
}

/// The game instant of a calendar date whose fields are all in range.
pub open spec fn calendar_esecs(year: int, moon: int, sun: int, bell: int, minute: int, second: int) -> int {
    (year - 1) * YEAR_IN_ESEC + (moon - 1) * MOON_IN_ESEC + (sun - 1) * SUN_IN_ESEC + bell
        * BELL_IN_ESEC + minute * MINUTE_IN_ESEC + second
}

/// Whether every field of a calendar date lies in its range.
pub open spec fn calendar_valid(year: int, moon: int, sun: int, bell: int, minute: int, second: int) -> bool {
    &&& year >= 1
    &&& 1 <= moon <= 12
    &&& 1 <= sun <= 32
    &&& 0 <= bell < 24
    &&& 0 <= minute < 60
    &&& 0 <= second < 60
}

/// An instant as text: `YYYY-MM-DD hh:mm:ss` (year, moon, sun, bell, minute,
/// second), each field zero padded.
pub open spec fn time_text(t: int) -> Seq<char> {
    zero_padded((1 + t / YEAR_IN_ESEC as int) as u16 as nat, 4) + "-"@ + zero_padded(
        (1 + t / MOON_IN_ESEC as int % 12) as nat,
        2,
    ) + "-"@ + zero_padded((1 + t / SUN_IN_ESEC as int % 32) as nat, 2) + " "@ + zero_padded(
        (t / BELL_IN_ESEC as int % 24) as nat,
        2,
    ) + ":"@ + zero_padded((t / MINUTE_IN_ESEC as int % 60) as nat, 2) + ":"@ + zero_padded(
        (t % 60) as nat,
        2,
    )
}

/// A duration as text: `hh:mm:ss`, counting whole bells, then minutes and
/// seconds, each zero padded to two digits.
pub open spec fn duration_text(d: int) -> Seq<char> {
    zero_padded((d / BELL_IN_ESEC as int) as nat, 2) + ":"@ + zero_padded(
        (d % BELL_IN_ESEC as int / MINUTE_IN_ESEC as int) as nat,
        2,
    ) + ":"@ + zero_padded((d % MINUTE_IN_ESEC as int) as nat, 2)
}

/// An instant of the Eorzean calendar, counted in game seconds since its epoch.
#[derive(Debug, Clone, Copy, PartialEq, Eq, PartialOrd, Ord, Hash)]
pub struct EorzeaTime {
    timestamp: u64,
}

/// A non-negative span of game seconds.
#[derive(Debug, Clone, Copy, PartialEq, Eq, Hash)]
pub struct EorzeaDuration {
    esec: u64,
}

#[derive(Debug, Clone, Copy, PartialEq, Eq)]
pub enum EorzeaTimeCreationError {
    ValueOutOfBounds,
}

/// Why a real instant has no game time.
#[derive(Debug, Clone, Copy, PartialEq, Eq)]
pub enum EorzeaClockError {
    /// The instant lies before the Unix epoch.
    BeforeEpoch,
    /// The game time does not fit in the counter.
    OutOfRange,
}

impl View for EorzeaTime {
    type V = int;

    closed spec fn view(&self) -> int {
        self.timestamp as int
    }
}

impl View for EorzeaDuration {
    type V = int;

    closed spec fn view(&self) -> int {
        self.esec as int
    }
}

impl EorzeaTime {
    pub proof fn view_bounds(self)
        ensures
            0 <= self@ <= u64::MAX,
    {
    }

    pub fn timestamp(&self) -> (r: u64)
        ensures
            r == self@,
    {
        self.timestamp
    }

    pub fn year(&self) -> (r: u16)
        ensures
            r == (1 + self@ / YEAR_IN_ESEC as int) as u16,
    {
        (1 + self.timestamp / YEAR_IN_ESEC) as u16
    }

    pub fn moon(&self) -> (r: u8)
        ensures
            r == 1 + self@ / MOON_IN_ESEC as int % 12,
    {
        (1 + self.timestamp / MOON_IN_ESEC % 12) as u8
    }

    pub fn sun(&self) -> (r: u8)
        ensures
            r == 1 + self@ / SUN_IN_ESEC as int % 32,
    {
        (1 + self.timestamp / SUN_IN_ESEC % 32) as u8
    }

    pub fn bell(&self) -> (r: u8)
        ensures
            r == self@ / BELL_IN_ESEC as int % 24,
    {
        (self.timestamp / BELL_IN_ESEC % 24) as u8
    }

    pub fn minute(&self) -> (r: u8)
        ensures
            r == self@ / MINUTE_IN_ESEC as int % 60,
    {
        (self.timestamp / MINUTE_IN_ESEC % 60) as u8
    }

    pub fn second(&self) -> (r: u8)
        ensures
            r == self@ % 60,
    {
        (self.timestamp % 60) as u8
    }

    /// The instant of a calendar date; fails when a field is out of range.
    pub fn new(year: u16, moon: u8, sun: u8, bell: u8, minute: u8, second: u8) -> (r: Result<
        EorzeaTime,
        EorzeaTimeCreationError,
    >)
        ensures
            r.is_ok() <==> calendar_valid(
                year as int,
                moon as int,
                sun as int,
                bell as int,
                minute as int,
                second as int,
            ),
            r matches Ok(t) ==> t@ == calendar_esecs(
                year as int,
                moon as int,
                sun as int,
                bell as int,
                minute as int,
                second as int,
            ),
            r matches Err(e) ==> e == EorzeaTimeCreationError::ValueOutOfBounds,
    {
        if year == 0 || moon == 0 || moon > 12 || sun == 0 || sun > 32 || bell >= 24 || minute
            >= 60 || second >= 60 {
            return Err(EorzeaTimeCreationError::ValueOutOfBounds);
        }
        Ok(
            EorzeaTime {
                timestamp: (year as u64 - 1) * YEAR_IN_ESEC + (moon as u64 - 1) * MOON_IN_ESEC + (
                sun as u64 - 1) * SUN_IN_ESEC + bell as u64 * BELL_IN_ESEC + minute as u64
                    * MINUTE_IN_ESEC + second as u64,
            },
        )
    }

    /// The game time of the real instant `unix_secs` seconds after the Unix
    /// epoch, rounded to the nearest game second.
    pub fn from_time(unix_secs: i64) -> (r: Result<EorzeaTime, EorzeaClockError>)
        ensures
            r.is_ok() <==> 0 <= unix_secs && esecs_of_real(unix_secs as int) <= u64::MAX,
            unix_secs < 0 <==> r == Err::<EorzeaTime, EorzeaClockError>(
                EorzeaClockError::BeforeEpoch,
            ),
            unix_secs >= 0 && esecs_of_real(unix_secs as int) > u64::MAX <==> r == Err::<
                EorzeaTime,
                EorzeaClockError,
            >(EorzeaClockError::OutOfRange),
            r matches Ok(t) ==> t@ == esecs_of_real(unix_secs as int),
    {
        if unix_secs < 0 {
            return Err(EorzeaClockError::BeforeEpoch);
        }
        let scaled: u128 = (288 * (unix_secs as u128) + 7) / 14;
        if scaled > u64::MAX as u128 {
            return Err(EorzeaClockError::OutOfRange);
        }
        Ok(EorzeaTime { timestamp: scaled as u64 })
    }

    pub fn from_esecs(secs: u64) -> (r: EorzeaTime)
        ensures
            r@ == secs,
    {
        EorzeaTime { timestamp: secs }
    }

    /// The real instant, in seconds since the Unix epoch, rounded to the
    /// nearest second.
    pub fn to_system_time(&self) -> (r: i64)
        ensures
            r == real_of_esecs(self@),
            r >= 0,
    {
        let secs: u128 = (14 * (self.timestamp as u128) + 144) / 288;
        secs as i64
    }

    /// Truncates the instant to a multiple of `d`.
    pub fn round(&mut self, d: EorzeaDuration)
        requires
            d@ > 0,
        ensures
            final(self)@ == old(self)@ - old(self)@ % d@,
    {
        let rest = self.timestamp % d.esec;
        proof {
            vstd::arithmetic::div_mod::lemma_mod_decreases(self.timestamp as nat, d.esec as nat);
        }
        self.timestamp = self.timestamp - rest;
    }

    /// The instant `d` later.
    pub fn plus(self, d: EorzeaDuration) -> (r: EorzeaTime)
        requires
            self@ + d@ <= u64::MAX,
        ensures
            r@ == self@ + d@,
    {
        EorzeaTime { timestamp: self.timestamp + d.esec }
    }

    /// The instant `d` earlier, or the epoch where that would precede it.
    pub fn minus(self, d: EorzeaDuration) -> (r: EorzeaTime)
        ensures
            r@ == if self@ < d@ {
                0
            } else {
                self@ - d@
            },
    {
        if self.timestamp < d.esec {
            return EorzeaTime { timestamp: 0 };
        }
        EorzeaTime { timestamp: self.timestamp - d.esec }
    }

    fn duration_since(&self, other: EorzeaTime) -> (r: Result<EorzeaDuration, EorzeaDurationError>)
        ensures
            r.is_ok() <==> other@ <= self@,
            r matches Ok(d) ==> d@ == self@ - other@,
    {
        if other.timestamp > self.timestamp {
            return Err(EorzeaDurationError);
        }
        Ok(EorzeaDuration::from_esecs(self.timestamp - other.timestamp))
    }

    /// The instant as `YYYY-MM-DD hh:mm:ss`.
    pub fn to_string(&self) -> (r: String)
        ensures
            r@ == time_text(self@),
    {
        let mut out = String::new();
        push_padded(&mut out, self.year() as u64, 4);
        out.append("-");
        push_padded(&mut out, self.moon() as u64, 2);
        out.append("-");
        push_padded(&mut out, self.sun() as u64, 2);
        out.append(" ");
        push_padded(&mut out, self.bell() as u64, 2);
        out.append(":");
        push_padded(&mut out, self.minute() as u64, 2);
        out.append(":");
        push_padded(&mut out, self.second() as u64, 2);
        assert(out@ =~= time_text(self@));
        out
    }
}

/// Converting a real instant to game time and back gives the instant again.
pub proof fn real_round_trip(real_secs: int)
    requires
        real_secs >= 0,
    ensures
        real_of_esecs(esecs_of_real(real_secs)) == real_secs,
{
    let e = esecs_of_real(real_secs);
    assert(14 * e <= 288 * real_secs + 7 && 288 * real_secs + 7 < 14 * e + 14) by (nonlinear_arith)
        requires
            e == (288 * real_secs + 7) / 14,
    ;
    assert((14 * e + 144) / 288 == real_secs) by (nonlinear_arith)
        requires
            14 * e <= 288 * real_secs + 7,
            288 * real_secs + 7 < 14 * e + 14,
    ;
}

impl EorzeaDuration {
    pub proof fn view_bounds(self)
        ensures
            0 <= self@ <= u64::MAX,
    {
    }

    /// A duration of years, moons, suns, bells, minutes and seconds; fails
    /// when a field other than the years is out of its range.
    pub fn new_ext(year: u16, moon: u8, sun: u8, bell: u8, minute: u8, second: u8) -> (r: Result<
        EorzeaDuration,
        EorzeaTimeCreationError,
    >)
        ensures
            r.is_ok() <==> moon < 12 && sun < 32 && bell < 24 && minute < 60 && second < 60,
            r matches Ok(d) ==> d@ == calendar_esecs(
                year + 1,
                moon + 1,
                sun + 1,
                bell as int,
                minute as int,
                second as int,
            ),
            r matches Err(e) ==> e == EorzeaTimeCreationError::ValueOutOfBounds,
    {
        if moon >= 12 || sun >= 32 || bell >= 24 || minute >= 60 || second >= 60 {
            return Err(EorzeaTimeCreationError::ValueOutOfBounds);
        }
        Ok(
            EorzeaDuration {
                esec: year as u64 * YEAR_IN_ESEC + moon as u64 * MOON_IN_ESEC + sun as u64
                    * SUN_IN_ESEC + bell as u64 * BELL_IN_ESEC + minute as u64 * MINUTE_IN_ESEC
                    + second as u64,
            },
        )
    }

    /// A duration of bells, minutes and seconds; fails when a field is out of
    /// its range.
    pub fn new(bell: u8, minute: u8, second: u8) -> (r: Result<EorzeaDuration, EorzeaTimeCreationError>)
        ensures
            r.is_ok() <==> bell < 24 && minute < 60 && second < 60,
            r matches Ok(d) ==> d@ == bell * BELL_IN_ESEC + minute * MINUTE_IN_ESEC + second,
            r matches Err(e) ==> e == EorzeaTimeCreationError::ValueOutOfBounds,
    {
        match EorzeaTime::new(1, 1, 1, bell, minute, second) {
            Ok(t) => Ok(EorzeaDuration { esec: t.timestamp }),
            Err(e) => Err(e),
        }
    }

    pub fn from_esecs(esec: u64) -> (r: EorzeaDuration)
        ensures
            r@ == esec,
    {
        EorzeaDuration { esec }
    }

    pub fn total_seconds(&self) -> (r: u64)
        ensures
            r == self@,
    {
        self.esec
    }

    pub fn year(&self) -> (r: u16)
        ensures
            r == (1 + self@ / YEAR_IN_ESEC as int) as u16,
    {
        (1 + self.esec / YEAR_IN_ESEC) as u16
    }

    pub fn moon(&self) -> (r: u8)
        ensures
            r == 1 + self@ / MOON_IN_ESEC as int % 12,
    {
        (1 + self.esec / MOON_IN_ESEC % 12) as u8
    }

    pub fn sun(&self) -> (r: u8)
        ensures
            r == 1 + self@ / SUN_IN_ESEC as int % 32,
    {
        (1 + self.esec / SUN_IN_ESEC % 32) as u8
    }

    pub fn bell(&self) -> (r: u8)
        ensures
            r == self@ / BELL_IN_ESEC as int % 24,
    {
        (self.esec / BELL_IN_ESEC % 24) as u8
    }

    pub fn minute(&self) -> (r: u8)
        ensures
            r == self@ / MINUTE_IN_ESEC as int % 60,
    {
        (self.esec / MINUTE_IN_ESEC % 60) as u8
    }

    pub fn second(&self) -> (r: u8)
        ensures
            r == self@ % 60,
    {
        (self.esec % 60) as u8
    }

    /// The remainder of this duration modulo `d`, such as its part within a
    /// single day.
    pub fn modulo(self, d: EorzeaDuration) -> (r: EorzeaDuration)
        requires
            d@ > 0,
        ensures
            r@ == self@ % d@,
    {
        EorzeaDuration { esec: self.esec % d.esec }
    }

    /// The duration as `hh:mm:ss`, in whole bells, minutes and seconds.
    pub fn to_string(&self) -> (r: String)
        ensures
            r@ == duration_text(self@),
    {
        let mut out = String::new();
        push_padded(&mut out, self.esec / BELL_IN_ESEC, 2);
        out.append(":");
        push_padded(&mut out, self.esec % BELL_IN_ESEC / MINUTE_IN_ESEC, 2);
        out.append(":");
        push_padded(&mut out, self.esec % MINUTE_IN_ESEC, 2);
        assert(out@ =~= duration_text(self@));
        out
    }
}

/// Every valid calendar date has a game time, and its real time converts to
/// game time (within the counter's range) and back to the same real time.
pub proof fn calendar_round_trip(year: int, moon: int, sun: int, bell: int, minute: int, second: int)
    requires
        calendar_valid(year, moon, sun, bell, minute, second),
        year <= u16::MAX,
    ensures
        ({
            let t = calendar_esecs(year, moon, sun, bell, minute, second);
            let secs = real_of_esecs(t);
            &&& 0 <= t <= u64::MAX
            &&& secs >= 0
            &&& esecs_of_real(secs) <= u64::MAX
            &&& real_of_esecs(esecs_of_real(secs)) == secs
        }),
{
    let t = calendar_esecs(year, moon, sun, bell, minute, second);
    assert(YEAR_IN_ESEC == 33177600 && MOON_IN_ESEC == 2764800 && SUN_IN_ESEC == 86400
        && BELL_IN_ESEC == 3600 && MINUTE_IN_ESEC == 60);
    assert(0 <= t <= 65535 * 33177600) by (nonlinear_arith)
        requires
            t == (year - 1) * YEAR_IN_ESEC + (moon - 1) * MOON_IN_ESEC + (sun - 1) * SUN_IN_ESEC
                + bell * BELL_IN_ESEC + minute * MINUTE_IN_ESEC + second,
            YEAR_IN_ESEC == 33177600,
            MOON_IN_ESEC == 2764800,
            SUN_IN_ESEC == 86400,
            BELL_IN_ESEC == 3600,
            MINUTE_IN_ESEC == 60,
            1 <= year <= 65535,
            1 <= moon <= 12,
            1 <= sun <= 32,
            0 <= bell < 24,
            0 <= minute < 60,
            0 <= second < 60,
    ;
    let secs = real_of_esecs(t);
    assert(0 <= secs <= t) by (nonlinear_arith)
        requires
            secs == (14 * t + 144) / 288,
            t >= 0,
    ;
    assert(esecs_of_real(secs) <= 21 * secs + 1) by (nonlinear_arith)
        requires
            secs >= 0,
    ;
    real_round_trip(secs);
}

#[derive(Debug, Clone, Copy, PartialEq, Eq)]
pub struct EorzeaDurationError;

/// A start instant and a duration; its end is the start plus the duration.
#[derive(Debug, Clone, Copy, PartialEq, Eq)]
pub struct EorzeaTimeSpan {
    start: EorzeaTime,
    duration: EorzeaDuration,
}

/// The common part of the spans `(start, duration)` `a` and `b`, or `None`
/// where the latest start comes after the earliest end.
pub open spec fn overlap_of(a: (int, int), b: (int, int)) -> Option<(int, int)> {
    let max_start = if a.0 >= b.0 {
        a.0
    } else {
        b.0
    };
    let min_end = if a.0 + a.1 <= b.0 + b.1 {
        a.0 + a.1
    } else {
        b.0 + b.1
    };
    if min_end < max_start {
        None
    } else {
        Some((max_start, min_end - max_start))
    }
}

impl View for EorzeaTimeSpan {
    type V = (int, int);

    closed spec fn view(&self) -> (int, int) {
        (self.start@, self.duration@)
    }
}

impl EorzeaTimeSpan {
    #[verifier::type_invariant]
    spec fn end_fits(&self) -> bool {
        self.start@ + self.duration@ <= u64::MAX
    }

    pub fn new(start: EorzeaTime, duration: EorzeaDuration) -> (r: EorzeaTimeSpan)
        requires
            start@ + duration@ <= u64::MAX,
        ensures
            r@ == (start@, duration@),
    {
        EorzeaTimeSpan { start, duration }
    }

    /// The span from `start` to `end`; fails where `end` precedes `start`.
    pub fn new_start_end(start: EorzeaTime, end: EorzeaTime) -> (r: Result<
        EorzeaTimeSpan,
        EorzeaDurationError,
    >)
        ensures
            r.is_ok() <==> start@ <= end@,
            r matches Ok(s) ==> s@ == (start@, end@ - start@),
    {
        match end.duration_since(start) {
            Ok(d) => {
                proof {
                    end.view_bounds();
                }
                Ok(EorzeaTimeSpan { start, duration: d })
            },
            Err(e) => Err(e),
        }
    }

    pub fn start(&self) -> (r: EorzeaTime)
        ensures
            r@ == self@.0,
    {
        self.start
    }

    pub fn duration(&self) -> (r: EorzeaDuration)
        ensures
            r@ == self@.1,
    {
        self.duration
    }

    pub fn end(&self) -> (r: EorzeaTime)
        ensures
            r@ == self@.0 + self@.1,
    {
        proof {
            use_type_invariant(self);
        }
        self.start.plus(self.duration)
    }

    /// The common part of two spans; fails where they do not meet.
    pub fn overlap(&self, other: &EorzeaTimeSpan) -> (r: Result<EorzeaTimeSpan, EorzeaDurationError>)
        ensures
            r.is_ok() <==> overlap_of(self@, other@) is Some,
            r matches Ok(s) ==> overlap_of(self@, other@) == Some(s@),
    {
        let max_start = if self.start.timestamp >= other.start.timestamp {
            self.start
        } else {
            other.start
        };
        let self_end = self.end();
        let other_end = other.end();
        let min_end = if self_end.timestamp <= other_end.timestamp {
            self_end
        } else {
            other_end
        };
        EorzeaTimeSpan::new_start_end(max_start, min_end)
    }

    /// The span as its start, " for ", and its duration.
    pub fn to_string(&self) -> (r: String)
        ensures
            r@ == time_text(self@.0) + " for "@ + duration_text(self@.1),
    {
        let mut out = self.start.to_string();
        out.append(" for ");
        let duration = self.duration.to_string();
        out.append(duration.as_str());
        out
    }
}

/// Overlap is commutative: both orders succeed or fail together, with the
/// same span.
pub proof fn overlap_commutes(a: EorzeaTimeSpan, b: EorzeaTimeSpan)
    ensures
        overlap_of(a@, b@) == overlap_of(b@, a@),
{
}

} // verus!
