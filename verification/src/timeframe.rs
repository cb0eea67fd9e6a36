//! The in-game calendar and the tick counter.
//!
//! A `YearWeek` is a point on the calendar: a year and a 1-based week of
//! that year. A year is exactly 52 weeks; there is no week-53 handling,
//! a deliberate simplification kept for compatibility.
//!
//! A `Timeframe` owns the tick counter, the configured tick interval
//! ("speed") and the wall-clock timestamp of the last processed tick.
//! Wall-clock time enters the core only as a plain millisecond count
//! handed in by the driver; the core never reads a clock itself.

use vstd::prelude::*;

verus! {

/// Fixed number of ticks that make up one in-game week.
pub const TICKS_PER_WEEK: u32 = 10;

/// Calendar year in which a simulation's week count starts.
pub const BASE_YEAR: u32 = 2000;

/// Number of weeks in an in-game year (no week-53 handling).
pub const WEEKS_PER_YEAR: u32 = 52;

/// A point on the in-game calendar: a year and a 1-based week of year.
///
/// Construction performs no range validation; callers are responsible
/// for passing a week in 1..=52.
#[derive(Debug, Clone, Copy, PartialEq, Eq, Structural)]
pub struct YearWeek {
    pub year: u32,
    pub week: u16,
}

/// Signed number of weeks from `a` to `b` on a 52-week-per-year calendar.
pub open spec fn spec_weeks_between(a: YearWeek, b: YearWeek) -> int {
    (b.year - a.year) * 52 + (b.week - a.week)
}

impl YearWeek {
    /// Builds a calendar point from a year and a 1-based week of year.
    pub fn new(year: u32, week: u16) -> (r: YearWeek)
        ensures
            r.year == year,
            r.week == week,
    {
        YearWeek { year, week }
    }

    /// Signed number of weeks from `self` to `other`: a year counts as
    /// exactly 52 weeks.
    pub fn difference_weeks(&self, other: &YearWeek) -> (r: i64)
        ensures
            r == spec_weeks_between(*self, *other),
    {
        (other.year as i64 - self.year as i64) * 52 + (other.week as i64 - self.week as i64)
    }
}

/// The state a timeframe reaches after one tick advance: the counter
/// grows by exactly 1 and nothing else changes.
pub open spec fn spec_advance_tick(t: Timeframe) -> Timeframe {
    Timeframe { game_ticks: (t.game_ticks + 1) as u32, ..t }
}

/// The state a timeframe reaches after `n` tick advances.
pub open spec fn spec_advance_ticks(t: Timeframe, n: nat) -> Timeframe
    decreases n,
{
    if n == 0 {
        t
    } else {
        spec_advance_tick(spec_advance_ticks(t, (n - 1) as nat))
    }
}

/// Law: after any number of tick advances that the counter can hold,
/// the tick count equals the initial count plus that number, and the
/// speed and last-tick timestamp are untouched.
pub proof fn lemma_advance_ticks_counts(t: Timeframe, n: nat)
    requires
        t.game_ticks + n <= u32::MAX,
    ensures
        spec_advance_ticks(t, n).game_ticks == t.game_ticks + n,
        spec_advance_ticks(t, n).speed == t.speed,
        spec_advance_ticks(t, n).last_tick_time == t.last_tick_time,
    decreases n,
{
    if n > 0 {
        lemma_advance_ticks_counts(t, (n - 1) as nat);
    }
}

/// The tick counter and its relation to wall-clock time.
///
/// `speed` is the configured real-time interval between ticks and is
/// read-only after construction. `game_ticks` only ever increases, by
/// exactly 1 per advance. `last_tick_time` is the wall-clock timestamp
/// (in milliseconds) of the last processed tick, recorded separately
/// from the counter advance; the driver performs both per tick.
pub struct Timeframe {
    pub speed: u16,
    pub game_ticks: u32,
    pub last_tick_time: i64,
}

impl Timeframe {
    /// Creates a timeframe with the given tick interval and initial tick
    /// count. The last-tick timestamp starts at zero; the driver records
    /// a real timestamp before relying on it.
    pub fn new(speed: u16, game_ticks: u32) -> (r: Timeframe)
        ensures
            r.speed == speed,
            r.game_ticks == game_ticks,
            r.last_tick_time == 0,
    {
        Timeframe { speed, game_ticks, last_tick_time: 0 }
    }

    /// The configured real-time interval between ticks.
    pub fn speed(&self) -> (r: u16)
        ensures
            r == self.speed,
    {
        self.speed
    }

    /// The current tick count.
    pub fn game_ticks(&self) -> (r: u32)
        ensures
            r == self.game_ticks,
    {
        self.game_ticks
    }

    /// Wall-clock timestamp (milliseconds) of the last processed tick.
    pub fn last_tick_time(&self) -> (r: i64)
        ensures
            r == self.last_tick_time,
    {
        self.last_tick_time
    }

    /// Fixed number of ticks per in-game week.
    pub fn ticks_per_week(&self) -> (r: u32)
        ensures
            r == TICKS_PER_WEEK,
    {
        TICKS_PER_WEEK
    }

    /// Advances the tick counter by exactly 1. No other field changes.
    pub fn increment_game_ticks(&mut self)
        requires
            old(self).game_ticks < u32::MAX,
        ensures
            final(self).game_ticks == old(self).game_ticks + 1,
            final(self).speed == old(self).speed,
            final(self).last_tick_time == old(self).last_tick_time,
            *final(self) == spec_advance_tick(*old(self)),
    {
        self.game_ticks = self.game_ticks + 1;
    }

    /// Records the caller-supplied wall-clock timestamp, unconditionally:
    /// no check that it is chronologically after the previous value.
    pub fn set_current_time(&mut self, now: i64)
        ensures
            final(self).last_tick_time == now,
            final(self).speed == old(self).speed,
            final(self).game_ticks == old(self).game_ticks,
    {
        self.last_tick_time = now;
    }

    /// Milliseconds from `start_time` to the last processed tick.
    /// A pure read; mutates nothing.
    pub fn get_game_elapse_time(&self, start_time: i64) -> (r: i64)
        requires
            i64::MIN <= self.last_tick_time - start_time <= i64::MAX,
        ensures
            r == self.last_tick_time - start_time,
    {
        self.last_tick_time - start_time
    }

    /// Count of whole in-game weeks elapsed: `game_ticks` divided by the
    /// ticks-per-week constant.
    pub fn game_year_week(&self) -> (r: u32)
        ensures
            r == self.game_ticks / TICKS_PER_WEEK,
    {
        self.game_ticks / TICKS_PER_WEEK
    }

    /// Current in-game year: the base year plus one per 52 elapsed weeks.
    pub fn game_year(&self) -> (r: u32)
        ensures
            r == BASE_YEAR + (self.game_ticks / TICKS_PER_WEEK) / WEEKS_PER_YEAR,
    {
        BASE_YEAR + self.game_year_week() / WEEKS_PER_YEAR
    }

    /// Current 1-based week of the in-game year, in 1..=52.
    pub fn game_week(&self) -> (r: u32)
        ensures
            r == (self.game_ticks / TICKS_PER_WEEK) % WEEKS_PER_YEAR + 1,
            1 <= r <= 52,
    {
        self.game_year_week() % WEEKS_PER_YEAR + 1
    }

    /// Current 1-based in-game month, derived from the week of year at
    /// four weeks to a month (so 1..=13).
    pub fn game_month(&self) -> (r: u32)
        ensures
            r == ((self.game_ticks / TICKS_PER_WEEK) % WEEKS_PER_YEAR) / 4 + 1,
            1 <= r <= 13,
    {
        (self.game_week() - 1) / 4 + 1
    }
}

} // verus!
