//! The conservation domain: budget, profile, thresholds and event history,
//! ticked with consumption.

use core::time::Duration;
use std::collections::VecDeque;
use vstd::prelude::*;

use crate::arith::{cap_u64, ceil_div, ceil_mul_div_capped};
use crate::model::{Budget, ConservationEvent, EventKind, Profile, Ternary, ThresholdSet};
use crate::time::{forever, max_duration, seconds, secs};
use crate::unit::{clamp_to, ResourceUnit};

verus! {

/// The number of events a domain's history keeps at most.
pub const MAX_HISTORY: usize = 1024;

/// Why a tick reports an event, checked in this order.
#[derive(Clone, Copy, Debug, PartialEq, Eq, Structural)]
pub enum Alarm {
    /// The budget is overdrawn: more was consumed than the total, or the
    /// remaining amount cannot be held by the unit type.
    BudgetExceeded,
    /// The remaining amount is at or below the hard floor.
    Floor,
    /// The remaining amount is at or below the critical threshold.
    Critical,
    /// The remaining amount is at or below the warning threshold.
    Warning,
}

/// What is left of `total` once `consumed` is used, as the unit type
/// computes it: `None` on an overdraft (`consumed` exceeds `total`) and
/// where the difference is too large for the type to hold.
pub open spec fn left_over<T: ResourceUnit>(total: T, consumed: T) -> Option<int> {
    let d = total.value() - consumed.value();
    if consumed.value() <= total.value() && d <= T::highest() {
        Some(d)
    } else {
        None
    }
}

/// The alarm that a remaining amount raises against `thresholds`:
/// an overdraft first, then floor, critical and warning, else none.
pub open spec fn alarm_for<T: ResourceUnit>(left: Option<int>, thresholds: ThresholdSet<T>) -> Option<Alarm> {
    match left {
        None => Some(Alarm::BudgetExceeded),
        Some(r) => if r <= thresholds.floor.value() {
            Some(Alarm::Floor)
        } else if r <= thresholds.critical.value() {
            Some(Alarm::Critical)
        } else if r <= thresholds.warning.value() {
            Some(Alarm::Warning)
        } else {
            None
        },
    }
}

/// The severity of the event an alarm reports: only a warning is `Neutral`.
pub open spec fn alarm_severity(a: Alarm) -> Ternary {
    match a {
        Alarm::Warning => Ternary::Neutral,
        _ => Ternary::Negative,
    }
}

/// The name of the threshold an alarm reports as crossed.
pub open spec fn alarm_threshold_name(a: Alarm) -> Seq<char> {
    match a {
        Alarm::Floor => "floor"@,
        Alarm::Critical => "critical"@,
        _ => "warning"@,
    }
}

/// `e` is the event that reports alarm `a` in domain `domain` at tick
/// number `tick`, with the budget's `total` and `consumed` after that tick.
pub open spec fn reports<T: ResourceUnit>(
    e: ConservationEvent<T>,
    a: Alarm,
    domain: &'static str,
    tick: u64,
    total: T,
    consumed: T,
) -> bool {
    &&& e.timestamp == secs(tick)
    &&& e.domain == domain
    &&& e.severity == alarm_severity(a)
    &&& match a {
        Alarm::BudgetExceeded => e.kind == EventKind::BudgetExceeded { actual: consumed, limit: total },
        _ => e.kind matches EventKind::ThresholdCrossed { threshold_name, value } && threshold_name@
            == alarm_threshold_name(a) && value.value() == total.value() - consumed.value(),
    }
}

/// The last `n` elements of `s` (all of `s` when it is not longer than `n`).
pub open spec fn last_n<A>(s: Seq<A>, n: nat) -> Seq<A> {
    if s.len() > n {
        s.subrange(s.len() - n, s.len() as int)
    } else {
        s
    }
}

/// The thresholds are ordered: `warning >= critical >= floor`.
pub open spec fn thresholds_ordered<T: ResourceUnit>(th: ThresholdSet<T>) -> bool {
    th.warning.value() >= th.critical.value() >= th.floor.value()
}

/// A parametric conservation domain.
///
/// Every domain follows the **Budget → Profile → Detect → Report** cycle.
/// `T` is the resource unit; `V` is the type of the profile's variance.
#[derive(Clone, Debug)]
pub struct ConservationDomain<T: ResourceUnit, V> {
    /// Human-readable domain name (e.g. "fuel", "battery_mAh", "crew_minutes").
    pub name: &'static str,
    /// The resource budget.
    pub budget: Budget<T>,
    /// Expected consumption profile.
    pub profile: Profile<T, V>,
    /// Rolling event history (capped at 1024 entries).
    pub history: VecDeque<ConservationEvent<T>>,
    /// Thresholds for alerting.
    pub thresholds: ThresholdSet<T>,
    /// Monotonic tick counter (for internal rate calculation).
    ticks: u64,
}

/// The state of a domain as contracts speak of it: its fields, with the
/// history as a sequence (oldest event first).
pub struct DomainState<T, V> {
    /// The domain's name.
    pub name: &'static str,
    /// The resource budget.
    pub budget: Budget<T>,
    /// Expected consumption profile.
    pub profile: Profile<T, V>,
    /// The recorded events, oldest first.
    pub history: Seq<ConservationEvent<T>>,
    /// Thresholds for alerting.
    pub thresholds: ThresholdSet<T>,
    /// The number of ticks processed.
    pub ticks: u64,
}

impl<T: ResourceUnit, V> DomainState<T, V> {
    /// Everything but the consumed amount, the history and the tick count
    /// is the same in `self` and `other`.
    pub open spec fn same_setup(self, other: Self) -> bool {
        &&& self.name == other.name
        &&& self.budget.total == other.budget.total
        &&& self.budget.allocated == other.budget.allocated
        &&& self.profile == other.profile
        &&& self.thresholds == other.thresholds
    }

    /// The domain's invariant: the history holds at most `MAX_HISTORY`
    /// events and the thresholds are ordered.
    pub open spec fn well_formed(self) -> bool {
        &&& self.history.len() <= MAX_HISTORY
        &&& thresholds_ordered(self.thresholds)
    }

    /// The remaining amount as `remaining` reports it: zero on an overdraft.
    pub open spec fn left(self) -> int {
        match left_over(self.budget.total, self.budget.consumed) {
            Some(r) => r,
            None => 0,
        }
    }

    /// `after` and `r` are the state and the answer of a tick of `self` with
    /// consumption `consumed`: the tick count grows by one, the consumed
    /// amount by `consumed` (clamped to the unit's range), the setup stays,
    /// and the alarm raised by what is left is reported as an event that is
    /// also appended to the history (which keeps its last `MAX_HISTORY`
    /// events); without an alarm the answer is `None` and the history stays.
    pub open spec fn ticked(
        self,
        consumed: T,
        after: Self,
        r: Option<ConservationEvent<T>>,
    ) -> bool {
        &&& after.ticks == self.ticks + 1
        &&& after.same_setup(self)
        &&& after.budget.consumed.value() == clamp_to::<T>(
            self.budget.consumed.value() + consumed.value(),
        )
        &&& match alarm_for(left_over(after.budget.total, after.budget.consumed), self.thresholds) {
            None => r is None && after.history == self.history,
            Some(a) => r matches Some(e) && reports(
                e,
                a,
                self.name,
                after.ticks,
                after.budget.total,
                after.budget.consumed,
            ) && after.history == last_n(self.history.push(e), MAX_HISTORY as nat),
        }
    }

    /// Whole ticks until depletion at the current rate (`consumed / ticks`
    /// per tick): `None` when the rate is not positive (no ticks yet, or
    /// nothing consumed), zero when nothing is left, else
    /// `left / rate` rounded up and capped at `u64::MAX`.
    pub open spec fn projection(self) -> Option<int> {
        if self.ticks == 0 || self.budget.consumed.value() <= 0 {
            None
        } else if self.left() <= 0 {
            Some(0)
        } else {
            Some(cap_u64(ceil_div(self.left() * self.ticks, self.budget.consumed.value())))
        }
    }
}

impl<T: ResourceUnit, V> View for ConservationDomain<T, V> {
    type V = DomainState<T, V>;

    closed spec fn view(&self) -> DomainState<T, V> {
        DomainState {
            name: self.name,
            budget: self.budget,
            profile: self.profile,
            history: self.history@,
            thresholds: self.thresholds,
            ticks: self.ticks,
        }
    }
}

impl<T: ResourceUnit, V> ConservationDomain<T, V> {
    /// Create a new conservation domain, with an empty history and no ticks.
    ///
    /// The thresholds must be ordered: `warning >= critical >= floor`.
    pub fn new(
        name: &'static str,
        budget: Budget<T>,
        profile: Profile<T, V>,
        thresholds: ThresholdSet<T>,
    ) -> (d: Self)
        requires
            thresholds_ordered(thresholds),
        ensures
            d@.name == name,
            d@.budget == budget,
            d@.profile == profile,
            d@.thresholds == thresholds,
            d@.history == Seq::<ConservationEvent<T>>::empty(),
            d@.ticks == 0,
            d@.well_formed(),
    {
        ConservationDomain {
            name,
            budget,
            profile,
            history: VecDeque::with_capacity(128),
            thresholds,
            ticks: 0,
        }
    }

    /// Drop the oldest events until at most `MAX_HISTORY` are left.
    fn trim_history(&mut self)
        ensures
            final(self)@.history == last_n(old(self)@.history, MAX_HISTORY as nat),
            final(self)@.same_setup(old(self)@),
            final(self)@.budget == old(self)@.budget,
            final(self)@.ticks == old(self)@.ticks,
    {
        let ghost start = self.history@;
        while self.history.len() > MAX_HISTORY
            invariant
                last_n(self.history@, MAX_HISTORY as nat) == last_n(start, MAX_HISTORY as nat),
                start == old(self)@.history,
                self@.same_setup(old(self)@),
                self@.budget == old(self)@.budget,
                self@.ticks == old(self)@.ticks,
            decreases self.history@.len(),
        {
            let ghost before = self.history@;
            let _ = self.history.pop_front();
            assert(last_n(self.history@, MAX_HISTORY as nat) =~= last_n(before, MAX_HISTORY as nat));
        }
    }

    /// Append `event` to the history, trim it, and hand the event back.
    fn record(&mut self, event: ConservationEvent<T>) -> (r: ConservationEvent<T>)
        ensures
            r == event,
            final(self)@.history == last_n(old(self)@.history.push(event), MAX_HISTORY as nat),
            final(self)@.same_setup(old(self)@),
            final(self)@.budget == old(self)@.budget,
            final(self)@.ticks == old(self)@.ticks,
    {
        self.history.push_back(event.duplicate());
        self.trim_history();
        event
    }

    /// Tick the domain: record consumption and check thresholds.
    ///
    /// The consumed amount grows by `consumed`, clamped to the unit's range.
    /// Returns `Some(event)` if the budget is overdrawn or a threshold was
    /// reached, checked in the order overdraft, floor, critical, warning;
    /// the event is also appended to the history, which keeps the last
    /// `MAX_HISTORY` events. Returns `None` for nominal consumption.
    pub fn tick(&mut self, consumed: T) -> (r: Option<ConservationEvent<T>>)
        requires
            old(self)@.ticks < u64::MAX,
        ensures
            old(self)@.ticked(consumed, final(self)@, r),
            old(self)@.well_formed() ==> final(self)@.well_formed(),
    {
        self.ticks = self.ticks + 1;
        let timestamp = seconds(self.ticks);

        // 1. Update budget consumption
        self.budget.consumed = self.budget.consumed.saturating_plus(&consumed);

        // 2. Calculate remaining
        let remaining = match self.budget.total.remaining(&self.budget.consumed) {
            Some(r) => r,
            None => {
                // Budget exceeded
                let event = ConservationEvent {
                    timestamp,
                    domain: self.name,
                    kind: EventKind::BudgetExceeded {
                        actual: self.budget.consumed,
                        limit: self.budget.total,
                    },
                    severity: Ternary::Negative,
                };
                return Some(self.record(event));
            },
        };

        // 3. Check thresholds (floor, then critical, then warning)
        if remaining.at_most(&self.thresholds.floor) {
            let event = ConservationEvent {
                timestamp,
                domain: self.name,
                kind: EventKind::ThresholdCrossed { threshold_name: "floor", value: remaining },
                severity: Ternary::Negative,
            };
            return Some(self.record(event));
        }
        if remaining.at_most(&self.thresholds.critical) {
            let event = ConservationEvent {
                timestamp,
                domain: self.name,
                kind: EventKind::ThresholdCrossed { threshold_name: "critical", value: remaining },
                severity: Ternary::Negative,
            };
            return Some(self.record(event));
        }
        if remaining.at_most(&self.thresholds.warning) {
            let event = ConservationEvent {
                timestamp,
                domain: self.name,
                kind: EventKind::ThresholdCrossed { threshold_name: "warning", value: remaining },
                severity: Ternary::Neutral,
            };
            return Some(self.record(event));
        }

        // 4. Nominal — no event
        None
    }

    /// Get the current remaining resource: `total - consumed`, or zero on an
    /// overdraft (more consumed than the total, or a difference the unit
    /// type cannot hold).
    pub fn remaining(&self) -> (r: T)
        ensures
            r.value() == self@.left(),
    {
        let remaining = self.budget.total.remaining(&self.budget.consumed);
        match remaining {
            Some(r) => r,
            None => T::zero(),
        }
    }

    /// Calculate the current consumption rate per tick, as the fraction
    /// `(numerator, denominator)`: consumed over ticks, or `0 / 1` if there
    /// have been no ticks yet.
    pub fn rate(&self) -> (r: (T, u64))
        ensures
            self@.ticks == 0 ==> r.0.value() == 0 && r.1 == 1,
            self@.ticks > 0 ==> r.0 == self@.budget.consumed && r.1 == self@.ticks,
    {
        if self.ticks == 0 {
            return (T::zero(), 1);
        }
        (self.budget.consumed, self.ticks)
    }

    /// The projected whole ticks (seconds) until depletion at the current
    /// rate: `None` if the rate is not positive (never depletes), zero if
    /// nothing is left, else the remaining amount over the rate, rounded up
    /// and capped at `u64::MAX`.
    pub fn projected_seconds(&self) -> (r: Option<u64>)
        ensures
            match self@.projection() {
                None => r is None,
                Some(k) => r == Some(k as u64),
            },
    {
        if self.ticks == 0 {
            return None;
        }
        let per = self.budget.consumed.positive_part();
        if per == 0 {
            return None;
        }
        let left = self.remaining().positive_part();
        if left == 0 {
            return Some(0);
        }
        Some(ceil_mul_div_capped(left, self.ticks, per))
    }

    /// Project time until depletion at the current rate, one second per
    /// tick: `Duration::MAX` if the rate is not positive, zero if nothing is
    /// left, else the remaining amount over the rate, rounded up.
    pub fn project_remaining(&self) -> (d: Duration)
        ensures
            d == match self@.projection() {
                None => forever(),
                Some(k) => secs(k as u64),
            },
    {
        match self.projected_seconds() {
            None => max_duration(),
            Some(k) => seconds(k),
        }
    }

    /// Get the total number of ticks processed.
    pub fn tick_count(&self) -> (r: u64)
        ensures
            r == self@.ticks,
    {
        self.ticks
    }

    /// Clear event history.
    pub fn clear_history(&mut self)
        ensures
            final(self)@.history == Seq::<ConservationEvent<T>>::empty(),
            final(self)@.same_setup(old(self)@),
            final(self)@.budget == old(self)@.budget,
            final(self)@.ticks == old(self)@.ticks,
            old(self)@.well_formed() ==> final(self)@.well_formed(),
    {
        self.history.clear();
    }
}

} // verus!
