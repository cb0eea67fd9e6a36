//! The software product: technical and commercial attributes, the
//! derived quality / usability / market-popularity scores, and the
//! mutating operations (feature work, line and complexity adjustment,
//! customer gain and loss).
//!
//! The percentage-like fields are not clamped by the mutators; faults
//! that an unchecked representation would hit (subtracting below zero,
//! dividing by zero) are surfaced as typed errors instead of crashes.

use vstd::prelude::*;
use vstd::arithmetic::div_mod::lemma_div_is_ordered;
use vstd::arithmetic::div_mod::lemma_div_nonincreasing;
use vstd::arithmetic::mul::lemma_mul_inequality;
use vstd::arithmetic::mul::lemma_mul_upper_bound;
use rand::Rng;

use crate::timeframe::YearWeek;
use crate::timeframe::spec_weeks_between;

verus! {

/// The predominant architecture of the product.
#[derive(Debug, PartialEq, Eq, Copy, Clone, Structural)]
pub enum Architecture {
    ProofOfConcept,
    Monolith,
    Microservices,
    EventDriven,
}

/// How the product is monetized.
#[derive(Debug, PartialEq, Eq, Copy, Clone, Structural)]
pub enum MonetizationModel {
    OpenSource,
    Freemium,
    FreeTier,
    Proprietary,
}

/// A fault that an operation reports instead of corrupting its counters.
#[derive(Debug, PartialEq, Eq, Copy, Clone, Structural)]
pub enum SoftwareError {
    /// The operation would take an unsigned counter below zero.
    InvariantViolation,
    /// The operation would divide by zero.
    DivisionByZero,
}

/// Lines of code a single developer produces per day of focused work.
pub const LOC_PER_DAY: u64 = 250;

/// The software product under simulation: one instance per run, created
/// with four seed values and mutated throughout by feature work and
/// customer gain/loss.
pub struct Software {
    /// Total lines of code.
    pub lines_of_code: u32,
    /// Age of the code base in weeks.
    pub age_of_code: u16,
    /// Complexity score, nominally 0-100 but not clamped by mutators.
    pub complexity_of_code: u16,
    /// Feature richness, nominally 0-100.
    pub feature_richness: u16,
    /// Ease of use, nominally 0-100.
    pub ease_of_use: u16,
    /// Number of components, nominally 1-100.
    pub components: u16,
    /// Number of services, nominally 1-100.
    pub services: u16,
    /// Number of dependencies, nominally 1-100.
    pub dependencies: u16,
    /// Price of the service.
    pub cost_of_service: u16,
    /// The predominant architecture.
    pub architecture: Architecture,
    /// Customer satisfaction, nominally 0-100.
    pub customer_satisfaction: u16,
    /// Number of paying customers.
    pub customers: u16,
    /// Number of active users; can far exceed customers.
    pub active_users: u32,
    /// Percentage of capacity taken by active users; set externally and
    /// allowed to run over 100.
    pub capacity_percentage_active_users: u16,
    /// Percentage of users on a free plan.
    pub percentage_free_users: u16,
    /// The monetization model.
    pub monetization_model: MonetizationModel,
    /// How many releases there have been.
    pub releases: u16,
    /// Calendar point of the last release.
    pub last_release_yearweek: YearWeek,
    /// Reliability score, 0-100; starts at 100 and is only reduced by
    /// external mutators.
    pub reliability: u16,
    /// Technical debt, nominally 0-100.
    pub technical_debt: u16,
}

/// The usability score: zero before any release; afterwards the average
/// of ease of use and feature richness less the technical debt, floored
/// at zero.
pub open spec fn spec_usability_factor(s: Software) -> int {
    if s.releases == 0 {
        0
    } else {
        let avg = (s.ease_of_use + s.feature_richness) / 2;
        if avg >= s.technical_debt {
            avg - s.technical_debt
        } else {
            0
        }
    }
}

/// The market-popularity score: zero before any release; afterwards the
/// average of customers and capacity percentage, adjusted once by how
/// many whole weeks have passed since the last release.
pub open spec fn spec_market_popularity(s: Software, now: YearWeek) -> int {
    if s.releases == 0 {
        0
    } else {
        let base = (s.customers + s.capacity_percentage_active_users) / 2;
        let weeks = spec_weeks_between(s.last_release_yearweek, now);
        if weeks < 1 {
            base
        } else if weeks < 10 {
            base + 15
        } else if weeks < 20 {
            base + 5
        } else if weeks < 40 {
            base / 2
        } else {
            base / 4
        }
    }
}

/// Relies on rand::thread_rng and rand::Rng::gen: draws one uniformly
/// random u16, read by the caller as a fraction of 65536 on the unit
/// interval. Nothing is promised of the value; every outcome is possible.
#[verifier::external_body]
fn random_u16() -> u16 {
    rand::thread_rng().gen()
}

/// Active users gained per business-to-business sale of `count`
/// customers: `count * f1 * f2 * 20` rounded toward zero, where each
/// random factor `f` is supplied as a numerator over 65536 of a draw
/// from the unit interval. Never exceeds twenty users per customer.
pub fn b2b_user_gain(count: u16, factor_a: u16, factor_b: u16) -> (r: u32)
    ensures
        r == count * factor_a * factor_b * 20 / 0x1_0000_0000,
        r <= 20 * count,
{
    proof {
        lemma_mul_upper_bound(count as int, 65535int, factor_a as int, 65535int);
        lemma_mul_upper_bound(count * factor_a, 65535int * 65535int, factor_b as int, 65535int);
        lemma_mul_inequality(count * factor_a * factor_b, 65535int * 65535int * 65535int, 20);
        lemma_mul_upper_bound(factor_a as int, 65535int, factor_b as int, 65535int);
        lemma_mul_inequality(factor_a * factor_b, 4294967296int, 20 * count);
        assert(count * factor_a * factor_b * 20 == (factor_a * factor_b) * (20 * count))
            by (nonlinear_arith);
        lemma_div_is_ordered(
            count * factor_a * factor_b * 20,
            4294967296int * (20 * count),
            4294967296int,
        );
        vstd::arithmetic::div_mod::lemma_div_multiples_vanish(20 * count, 4294967296int);
    }
    let product: u64 = count as u64 * factor_a as u64 * factor_b as u64 * 20;
    let gain: u64 = product / 0x1_0000_0000;
    gain as u32
}

impl Software {
    /// Creates a product from its four seed values; every other field
    /// takes its default. Reliability starts at 100, the architecture at
    /// proof of concept, the monetization model at proprietary, and the
    /// last release is pinned to week 1 of the base year.
    pub fn new(lines_of_code: u32, age_of_code: u16, complexity_of_code: u16, cost_of_service: u16)
        -> (r: Software)
        ensures
            r.lines_of_code == lines_of_code,
            r.age_of_code == age_of_code,
            r.complexity_of_code == complexity_of_code,
            r.cost_of_service == cost_of_service,
            r.feature_richness == 0,
            r.ease_of_use == 0,
            r.components == 0,
            r.services == 0,
            r.dependencies == 0,
            r.architecture == Architecture::ProofOfConcept,
            r.customer_satisfaction == 0,
            r.customers == 0,
            r.active_users == 0,
            r.capacity_percentage_active_users == 0,
            r.percentage_free_users == 0,
            r.monetization_model == MonetizationModel::Proprietary,
            r.releases == 0,
            r.last_release_yearweek == (YearWeek { year: 2000, week: 1 }),
            r.reliability == 100,
            r.technical_debt == 0,
    {
        Software {
            lines_of_code,
            age_of_code,
            complexity_of_code,
            feature_richness: 0,
            ease_of_use: 0,
            components: 0,
            services: 0,
            dependencies: 0,
            cost_of_service,
            architecture: Architecture::ProofOfConcept,
            customer_satisfaction: 0,
            customers: 0,
            active_users: 0,
            capacity_percentage_active_users: 0,
            percentage_free_users: 0,
            monetization_model: MonetizationModel::Proprietary,
            releases: 0,
            last_release_yearweek: YearWeek::new(2000, 1),
            reliability: 100,
            technical_debt: 0,
        }
    }

    /// The quality score, a deliberately coarse two-branch rule: a
    /// product too small or simple to have quality problems (complexity
    /// under 10, or fewer than 2 services, or fewer than 5 components)
    /// scores 100; anything else scores 0.
    pub fn quality(&self) -> (r: u16)
        ensures
            (self.complexity_of_code < 10 || self.services < 2 || self.components < 5) ==> r
                == 100,
            (self.complexity_of_code >= 10 && self.services >= 2 && self.components >= 5) ==> r
                == 0,
    {
        if self.complexity_of_code < 10 || self.services < 2 || self.components < 5 {
            return 100;
        }
        0
    }

    /// The usability score; zero before any release, otherwise the
    /// average of ease of use and feature richness less technical debt,
    /// floored at zero.
    pub fn usability_factor(&self) -> (r: u16)
        ensures
            r == spec_usability_factor(*self),
    {
        if self.releases == 0 {
            return 0;
        }
        let avg: u32 = (self.ease_of_use as u32 + self.feature_richness as u32) / 2;
        let debt: u32 = self.technical_debt as u32;
        if avg >= debt {
            (avg - debt) as u16
        } else {
            0
        }
    }

    /// The market-popularity score for the given calendar point: zero
    /// before any release; otherwise the average of customers and
    /// capacity percentage, bumped by 15 when the last release is 1 to 9
    /// weeks old, by 5 at 10 to 19 weeks, halved at 20 to 39 weeks and
    /// quartered from 40 weeks on. The adjustment is recomputed from the
    /// base each call, never accumulated.
    pub fn market_popularity(&self, current_yearweek: &YearWeek) -> (r: u16)
        requires
            spec_market_popularity(*self, *current_yearweek) <= u16::MAX,
        ensures
            r == spec_market_popularity(*self, *current_yearweek),
    {
        if self.releases == 0 {
            return 0;
        }
        let base: u32 = (self.customers as u32 + self.capacity_percentage_active_users as u32)
            / 2;
        let difference_weeks: i64 = self.last_release_yearweek.difference_weeks(
            current_yearweek,
        );
        let popularity: u32 = if difference_weeks < 1 {
            base
        } else if difference_weeks < 10 {
            base + 15
        } else if difference_weeks < 20 {
            base + 5
        } else if difference_weeks < 40 {
            base / 2
        } else {
            base / 4
        };
        popularity as u16
    }

    /// Total lines of code.
    pub fn lines_of_code(&self) -> (r: u32)
        ensures
            r == self.lines_of_code,
    {
        self.lines_of_code
    }

    /// How many releases there have been.
    pub fn releases(&self) -> (r: u16)
        ensures
            r == self.releases,
    {
        self.releases
    }

    /// The reliability score.
    pub fn reliability(&self) -> (r: u16)
        ensures
            r == self.reliability,
    {
        self.reliability
    }

    /// Adds `customers` paying customers. A business-to-consumer sale
    /// brings active users one for one; a business-to-business sale
    /// brings `customers * f1 * f2 * 20` active users, where the two
    /// random factors are drawn independently and uniformly from the
    /// unit interval, so any single call may add near zero or near
    /// twenty users per customer.
    pub fn add_customers(&mut self, customers: u16, b2b: bool)
        requires
            old(self).customers + customers <= u16::MAX,
            old(self).active_users + 20 * customers <= u32::MAX,
        ensures
            final(self).customers == old(self).customers + customers,
            !b2b ==> final(self).active_users == old(self).active_users + customers,
            b2b ==> old(self).active_users <= final(self).active_users <= old(self).active_users
                + 20 * customers,
            *final(self) == (Software {
                customers: final(self).customers,
                active_users: final(self).active_users,
                ..*old(self)
            }),
    {
        self.customers = self.customers + customers;
        if b2b {
            let factor_a: u16 = random_u16();
            let factor_b: u16 = random_u16();
            let gain: u32 = b2b_user_gain(customers, factor_a, factor_b);
            self.active_users = self.active_users + gain;
        } else {
            self.active_users = self.active_users + customers as u32;
        }
    }

    /// Removes customers. Asking to remove no more than there are wipes
    /// both the customer and active-user counts to zero. Asking to
    /// remove more than there are cannot complete: with no customers at
    /// all, or with an active-user reduction ratio that truncates to
    /// zero, the division faults; otherwise the customer counter would
    /// go below zero. Either fault is reported and the product is left
    /// unchanged.
    pub fn remove_customers(&mut self, customers: u16) -> (r: Result<(), SoftwareError>)
        ensures
            customers <= old(self).customers ==> r == Ok::<(), SoftwareError>(())
                && final(self).customers == 0 && final(self).active_users == 0,
            customers > old(self).customers ==> *final(self) == *old(self),
            customers > old(self).customers && old(self).customers == 0 ==> r == Err::<
                (),
                SoftwareError,
            >(SoftwareError::DivisionByZero),
            customers > old(self).customers && old(self).customers > 0 && old(self).active_users
                * customers / (old(self).customers as int) == 0 ==> r == Err::<
                (),
                SoftwareError,
            >(SoftwareError::DivisionByZero),
            customers > old(self).customers && old(self).customers > 0 && old(self).active_users
                * customers / (old(self).customers as int) > 0 ==> r == Err::<
                (),
                SoftwareError,
            >(SoftwareError::InvariantViolation),
            *final(self) == (Software {
                customers: final(self).customers,
                active_users: final(self).active_users,
                ..*old(self)
            }),
    {
        if customers > self.customers {
            if self.customers == 0 {
                return Err(SoftwareError::DivisionByZero);
            }
            proof {
                lemma_mul_upper_bound(
                    self.active_users as int,
                    4294967295int,
                    customers as int,
                    65535int,
                );
            }
            let reduction: u64 = self.active_users as u64 * customers as u64
                / self.customers as u64;
            if reduction == 0 {
                Err(SoftwareError::DivisionByZero)
            } else {
                Err(SoftwareError::InvariantViolation)
            }
        } else {
            self.customers = 0;
            self.active_users = 0;
            Ok(())
        }
    }

    /// Age of the code base in weeks.
    pub fn age_of_code(&self) -> (r: u16)
        ensures
            r == self.age_of_code,
    {
        self.age_of_code
    }

    /// The complexity score.
    pub fn complexity_of_code(&self) -> (r: u16)
        ensures
            r == self.complexity_of_code,
    {
        self.complexity_of_code
    }

    /// Price of the service.
    pub fn cost_of_service(&self) -> (r: u16)
        ensures
            r == self.cost_of_service,
    {
        self.cost_of_service
    }

    /// Feature work: adds `number_of_devs * (dev_focus / 100)` (rounded
    /// toward zero) times 250 lines per day for `days` days, and resets
    /// the complexity score to 50, discarding prior complexity growth.
    pub fn work_on_features(&mut self, number_of_devs: u16, dev_focus: u16, days: u16)
        requires
            old(self).lines_of_code + number_of_devs * dev_focus / 100 * LOC_PER_DAY * days
                <= u32::MAX,
        ensures
            final(self).lines_of_code == old(self).lines_of_code + number_of_devs * dev_focus
                / 100 * LOC_PER_DAY * days,
            final(self).complexity_of_code == 50,
            *final(self) == (Software {
                lines_of_code: final(self).lines_of_code,
                complexity_of_code: 50,
                ..*old(self)
            }),
    {
        proof {
            lemma_mul_upper_bound(number_of_devs as int, 65535int, dev_focus as int, 65535int);
            lemma_div_nonincreasing(number_of_devs * dev_focus, 100);
            lemma_mul_inequality(
                number_of_devs * dev_focus / 100,
                65535int * 65535int,
                250,
            );
            lemma_mul_upper_bound(
                number_of_devs * dev_focus / 100 * 250,
                65535int * 65535int * 250,
                days as int,
                65535int,
            );
        }
        let loc_per_day: u64 = LOC_PER_DAY;
        let added: u64 = number_of_devs as u64 * dev_focus as u64 / 100 * loc_per_day
            * days as u64;
        self.lines_of_code = self.lines_of_code + added as u32;
        self.complexity_of_code = 50;
    }

    /// Refactoring: a reserved extension point; currently changes
    /// nothing.
    pub fn refactor(&mut self)
        ensures
            *final(self) == *old(self),
    {
    }

    /// Bug fixing: a reserved extension point; currently changes
    /// nothing.
    pub fn bug_fix(&mut self)
        ensures
            *final(self) == *old(self),
    {
    }

    /// Adds lines of code to the total.
    pub fn add_lines(&mut self, lines: u32)
        requires
            old(self).lines_of_code + lines <= u32::MAX,
        ensures
            final(self).lines_of_code == old(self).lines_of_code + lines,
            *final(self) == (Software { lines_of_code: final(self).lines_of_code, ..*old(self) }),
    {
        self.lines_of_code = self.lines_of_code + lines;
    }

    /// Removes lines of code from the total; removing more than there
    /// are would take the counter below zero, so that is reported as a
    /// fault and nothing changes.
    pub fn remove_lines(&mut self, lines: u32) -> (r: Result<(), SoftwareError>)
        ensures
            lines <= old(self).lines_of_code ==> r == Ok::<(), SoftwareError>(())
                && final(self).lines_of_code == old(self).lines_of_code - lines,
            lines > old(self).lines_of_code ==> r == Err::<(), SoftwareError>(
                SoftwareError::InvariantViolation,
            ) && *final(self) == *old(self),
            *final(self) == (Software { lines_of_code: final(self).lines_of_code, ..*old(self) }),
    {
        if lines <= self.lines_of_code {
            self.lines_of_code = self.lines_of_code - lines;
            Ok(())
        } else {
            Err(SoftwareError::InvariantViolation)
        }
    }

    /// Adds weeks to the age of the code.
    pub fn add_age(&mut self, age: u16)
        requires
            old(self).age_of_code + age <= u16::MAX,
        ensures
            final(self).age_of_code == old(self).age_of_code + age,
            *final(self) == (Software { age_of_code: final(self).age_of_code, ..*old(self) }),
    {
        self.age_of_code = self.age_of_code + age;
    }

    /// Adds to the complexity score.
    pub fn add_complexity(&mut self, complexity: u16)
        requires
            old(self).complexity_of_code + complexity <= u16::MAX,
        ensures
            final(self).complexity_of_code == old(self).complexity_of_code + complexity,
            *final(self) == (Software {
                complexity_of_code: final(self).complexity_of_code,
                ..*old(self)
            }),
    {
        self.complexity_of_code = self.complexity_of_code + complexity;
    }

    /// Removes from the complexity score; removing more than there is
    /// would take the counter below zero, so that is reported as a fault
    /// and nothing changes.
    pub fn remove_complexity(&mut self, complexity: u16) -> (r: Result<(), SoftwareError>)
        ensures
            complexity <= old(self).complexity_of_code ==> r == Ok::<(), SoftwareError>(())
                && final(self).complexity_of_code == old(self).complexity_of_code - complexity,
            complexity > old(self).complexity_of_code ==> r == Err::<(), SoftwareError>(
                SoftwareError::InvariantViolation,
            ) && *final(self) == *old(self),
            *final(self) == (Software {
                complexity_of_code: final(self).complexity_of_code,
                ..*old(self)
            }),
    {
        if complexity <= self.complexity_of_code {
            self.complexity_of_code = self.complexity_of_code - complexity;
            Ok(())
        } else {
            Err(SoftwareError::InvariantViolation)
        }
    }

    /// The predominant architecture.
    pub fn get_architecture(&self) -> (r: Architecture)
        ensures
            r == self.architecture,
    {
        self.architecture
    }

    /// Number of paying customers.
    pub fn customers(&self) -> (r: u16)
        ensures
            r == self.customers,
    {
        self.customers
    }

    /// Percentage of capacity taken by active users.
    pub fn capacity_percentage_active_users(&self) -> (r: u16)
        ensures
            r == self.capacity_percentage_active_users,
    {
        self.capacity_percentage_active_users
    }

    /// Sets the percentage of capacity taken by active users; supplied
    /// externally and allowed to run over 100.
    pub fn set_capacity_percentage_active_users(&mut self, users: u16)
        ensures
            final(self).capacity_percentage_active_users == users,
            *final(self) == (Software { capacity_percentage_active_users: users, ..*old(self) }),
    {
        self.capacity_percentage_active_users = users;
    }
}

} // verus!
