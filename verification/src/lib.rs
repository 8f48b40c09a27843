//! Parametric conservation across resource domains.
//!
//! A [`ConservationDomain`] holds a finite, depletable budget of some
//! resource unit and is *ticked* with consumption.  Each tick updates the
//! budget and, when the remaining amount crosses a threshold or the budget
//! runs out, reports a [`ConservationEvent`] whose severity is a [`Ternary`].
//!
//! The cycle is Budget → Profile → Detect → Report.

pub mod arith;
pub mod domain;
pub mod laws;
pub mod model;
pub mod time;
pub mod unit;

pub use model::{Budget, ConservationEvent, EventKind, Profile, Ternary, ThresholdSet};
pub use domain::{Alarm, ConservationDomain, MAX_HISTORY};
pub use unit::ResourceUnit;
