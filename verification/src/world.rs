//! The world: three read-only market scalars and the timeframe that
//! counts ticks. A tick advances the counter, runs the cross-entity
//! update (a reserved no-op extension point) and records the new
//! wall-clock reference, in that order; the decision of when a tick is
//! due stays with the driving loop, which compares its clock against
//! the last tick time plus the configured speed.

use vstd::prelude::*;

use crate::company::Company;
use crate::software::Software;
use crate::timeframe::BASE_YEAR;
use crate::timeframe::TICKS_PER_WEEK;
use crate::timeframe::Timeframe;
use crate::timeframe::WEEKS_PER_YEAR;

verus! {

/// The world the software and company live in: three market scalars,
/// fixed for the run, and the owned timeframe.
pub struct World {
    /// Global economic factors, nominally 0-1000; never mutated here.
    pub global_economic_factors: u16,
    /// Competition in the market, nominally 0-1000; never mutated here.
    pub competition_in_market: u16,
    /// The job market, nominally 0-1000; never mutated here.
    pub job_market: u16,
    /// The tick counter and its wall-clock reference.
    pub timeframe: Timeframe,
}

impl World {
    /// Creates a world with the three market scalars and a timeframe
    /// seeded with the given speed and initial tick count.
    pub fn new(
        global_economic_factors: u16,
        competition_in_market: u16,
        job_market: u16,
        speed: u16,
        game_ticks: u32,
    ) -> (r: World)
        ensures
            r.global_economic_factors == global_economic_factors,
            r.competition_in_market == competition_in_market,
            r.job_market == job_market,
            r.timeframe.speed == speed,
            r.timeframe.game_ticks == game_ticks,
            r.timeframe.last_tick_time == 0,
    {
        World {
            global_economic_factors,
            competition_in_market,
            job_market,
            timeframe: Timeframe::new(speed, game_ticks),
        }
    }

    /// The global economic factors scalar.
    pub fn global_economic_factors(&self) -> (r: u16)
        ensures
            r == self.global_economic_factors,
    {
        self.global_economic_factors
    }

    /// The competition scalar.
    pub fn competition_in_market(&self) -> (r: u16)
        ensures
            r == self.competition_in_market,
    {
        self.competition_in_market
    }

    /// The job-market scalar.
    pub fn job_market(&self) -> (r: u16)
        ensures
            r == self.job_market,
    {
        self.job_market
    }

    /// The configured real-time interval between ticks.
    pub fn speed(&self) -> (r: u16)
        ensures
            r == self.timeframe.speed,
    {
        self.timeframe.speed()
    }

    /// The current tick count.
    pub fn game_ticks(&self) -> (r: u32)
        ensures
            r == self.timeframe.game_ticks,
    {
        self.timeframe.game_ticks()
    }

    /// Wall-clock timestamp (milliseconds) of the last processed tick.
    pub fn last_tick_time(&self) -> (r: i64)
        ensures
            r == self.timeframe.last_tick_time,
    {
        self.timeframe.last_tick_time()
    }

    /// Fixed number of ticks per in-game week.
    pub fn ticks_per_week(&self) -> (r: u32)
        ensures
            r == TICKS_PER_WEEK,
    {
        self.timeframe.ticks_per_week()
    }

    /// Count of whole in-game weeks elapsed.
    pub fn game_year_week(&self) -> (r: u32)
        ensures
            r == self.timeframe.game_ticks / TICKS_PER_WEEK,
    {
        self.timeframe.game_year_week()
    }

    /// Current in-game year.
    pub fn game_year(&self) -> (r: u32)
        ensures
            r == BASE_YEAR + (self.timeframe.game_ticks / TICKS_PER_WEEK) / WEEKS_PER_YEAR,
    {
        self.timeframe.game_year()
    }

    /// Current 1-based week of the in-game year.
    pub fn game_week(&self) -> (r: u32)
        ensures
            r == (self.timeframe.game_ticks / TICKS_PER_WEEK) % WEEKS_PER_YEAR + 1,
            1 <= r <= 52,
    {
        self.timeframe.game_week()
    }

    /// Current 1-based in-game month, at four weeks to a month.
    pub fn game_month(&self) -> (r: u32)
        ensures
            r == ((self.timeframe.game_ticks / TICKS_PER_WEEK) % WEEKS_PER_YEAR) / 4 + 1,
            1 <= r <= 13,
    {
        self.timeframe.game_month()
    }

    /// Processes one tick: advances the counter by exactly 1, runs the
    /// cross-entity update (currently a no-op), then records the
    /// caller-supplied wall-clock time. The company and software are
    /// borrowed read-only and left untouched.
    pub fn increment_game_ticks(&mut self, company: &Company, software: &Software, time_now: i64)
        requires
            old(self).timeframe.game_ticks < u32::MAX,
        ensures
            final(self).timeframe.game_ticks == old(self).timeframe.game_ticks + 1,
            final(self).timeframe.last_tick_time == time_now,
            final(self).timeframe.speed == old(self).timeframe.speed,
            final(self).global_economic_factors == old(self).global_economic_factors,
            final(self).competition_in_market == old(self).competition_in_market,
            final(self).job_market == old(self).job_market,
    {
        self.timeframe.increment_game_ticks();
        self.do_game_update(company, software);
        self.timeframe.set_current_time(time_now);
    }

    /// Milliseconds from `start_time` to the last processed tick.
    pub fn get_game_elapse_time(&self, start_time: i64) -> (r: i64)
        requires
            i64::MIN <= self.timeframe.last_tick_time - start_time <= i64::MAX,
        ensures
            r == self.timeframe.last_tick_time - start_time,
    {
        self.timeframe.get_game_elapse_time(start_time)
    }

    /// The cross-entity update run once per tick: the designated
    /// extension point for coupling company productivity to software
    /// evolution. Currently changes nothing; the company and software
    /// are read-only here.
    pub fn do_game_update(&mut self, company: &Company, software: &Software)
        ensures
            *final(self) == *old(self),
    {
    }
}

} // verus!
