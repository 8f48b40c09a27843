//! The data a domain is made of: budget, profile, thresholds and events.

use std::string::String;
use core::time::Duration;
use vstd::prelude::*;

verus! {

/// Three-valued severity of an event:
/// `Negative` is bad, `Neutral` is a warning, `Positive` is healthy.
#[derive(Clone, Copy, Debug, PartialEq, Eq, Structural, Hash)]
pub enum Ternary {
    /// Bad: budget exceeded, floor or critical threshold reached.
    Negative,
    /// Warning: warning threshold reached, rate anomaly.
    Neutral,
    /// Healthy: everything nominal.
    Positive,
}

/// Budget: what's allocated for a conservation domain.
#[derive(Copy, Clone, Debug, PartialEq)]
pub struct Budget<T> {
    /// Total resource available (the grant/allocation).
    pub total: T,
    /// How much was actually allocated/earmarked.
    pub allocated: T,
    /// How much has been consumed so far.
    pub consumed: T,
}

/// Profile: expected consumption patterns for a domain.
///
/// `V` is the type of the variance figure (for instance `f64`); the domain
/// carries it along without reading it.
#[derive(Copy, Clone, Debug, PartialEq)]
pub struct Profile<T, V> {
    /// Expected consumption per tick.
    pub expected_rate: T,
    /// Maximum consumption per tick (the peak).
    pub peak: T,
    /// Expected deviation (coefficient of variation-style).
    pub variance: V,
}

/// The kind of conservation event that was triggered.
#[derive(Clone, Debug, PartialEq)]
pub enum EventKind<T> {
    /// Budget was exceeded — actual consumption went over the limit.
    BudgetExceeded {
        /// What was actually consumed.
        actual: T,
        /// What the limit was.
        limit: T,
    },
    /// A rate anomaly — actual consumption deviated from expected.
    RateAnomaly {
        /// What was expected.
        expected: T,
        /// What was actually consumed.
        actual: T,
    },
    /// A threshold was crossed.
    ThresholdCrossed {
        /// Human-readable name of the threshold.
        threshold_name: &'static str,
        /// The current value when crossed.
        value: T,
    },
    /// A cascade — one domain's event triggered action in another.
    Cascade {
        /// Description of what triggered the cascade.
        trigger: String,
        /// Which domain was affected.
        affected_domain: &'static str,
    },
}

/// A conservation event — something worth reporting.
#[derive(Clone, Debug, PartialEq)]
pub struct ConservationEvent<T> {
    /// When the event occurred.
    pub timestamp: Duration,
    /// Which domain triggered this event.
    pub domain: &'static str,
    /// What kind of event.
    pub kind: EventKind<T>,
    /// Severity: Negative=bad, Neutral=warn, Positive=healthy.
    pub severity: Ternary,
}

/// ThresholdSet: when to alert.
#[derive(Copy, Clone, Debug, PartialEq)]
pub struct ThresholdSet<T> {
    /// Warning threshold — at or below this an event of `Neutral` severity is reported.
    pub warning: T,
    /// Critical threshold — at or below this an event of `Negative` severity is reported.
    pub critical: T,
    /// Hard floor — the absolute minimum before exhaustion.
    pub floor: T,
}

impl<T: Copy> EventKind<T> {
    /// A copy of this kind, equal to it.
    pub fn duplicate(&self) -> (r: Self)
        ensures
            r == *self,
    {
        match self {
            EventKind::BudgetExceeded { actual, limit } => EventKind::BudgetExceeded {
                actual: *actual,
                limit: *limit,
            },
            EventKind::RateAnomaly { expected, actual } => EventKind::RateAnomaly {
                expected: *expected,
                actual: *actual,
            },
            EventKind::ThresholdCrossed { threshold_name, value } => EventKind::ThresholdCrossed {
                threshold_name: *threshold_name,
                value: *value,
            },
            EventKind::Cascade { trigger, affected_domain } => EventKind::Cascade {
                trigger: trigger.clone(),
                affected_domain: *affected_domain,
            },
        }
    }
}

impl<T: Copy> ConservationEvent<T> {
    /// A copy of this event, equal to it.
    pub fn duplicate(&self) -> (r: Self)
        ensures
            r == *self,
    {
        ConservationEvent {
            timestamp: self.timestamp,
            domain: self.domain,
            kind: self.kind.duplicate(),
            severity: self.severity,
        }
    }
}

} // verus!
