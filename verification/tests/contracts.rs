use std::time::Duration;

use ternary_conserve::{
    Budget, ConservationDomain, EventKind, Profile, ResourceUnit, Ternary, ThresholdSet,
    MAX_HISTORY,
};

fn domain<T: ResourceUnit>(total: T, warning: T, critical: T, floor: T) -> ConservationDomain<T, f64> {
    ConservationDomain::new(
        "probe",
        Budget { total, allocated: total, consumed: T::zero() },
        Profile { expected_rate: T::zero(), peak: T::zero(), variance: 0.0 },
        ThresholdSet { warning, critical, floor },
    )
}

#[test]
fn readme_fuel_nominal_tick() {
    let mut fuel = domain(100u64, 30, 15, 5);
    assert!(fuel.tick(10).is_none());
    assert_eq!(fuel.remaining(), 90);
}

#[test]
fn guide_peak_is_not_a_threshold_then_critical() {
    let mut fuel = domain(100u64, 30, 15, 5);
    assert!(fuel.tick(10).is_none());
    assert!(fuel.tick(20).is_none());
    for _ in 0..5 {
        fuel.tick(10);
    }
    assert_eq!(fuel.remaining(), 20);
    let event = fuel.tick(5).unwrap();
    assert_eq!(event.severity, Ternary::Negative);
    assert_eq!(event.domain, "probe");
    assert_eq!(
        event.kind,
        EventKind::ThresholdCrossed { threshold_name: "critical", value: 15 }
    );
}

#[test]
fn guide_fish_season_is_nominal() {
    let mut fishery = ConservationDomain::new(
        "cod_stock",
        Budget { total: 500_000_u32, allocated: 450_000, consumed: 0 },
        Profile { expected_rate: 10_000, peak: 25_000, variance: 0.3 },
        ThresholdSet { warning: 100_000, critical: 50_000, floor: 20_000 },
    );
    for catch in [12_000, 14_000, 9_000, 30_000, 11_000] {
        assert!(fishery.tick(catch).is_none());
    }
    assert_eq!(fishery.remaining(), 424_000);
    // 76_000 over 5 ticks: 424_000 / 15_200 = 27.9 → 28
    assert_eq!(fishery.project_remaining(), Duration::from_secs(28));
}

#[test]
fn doc_new_and_remaining() {
    let mut d = ConservationDomain::new(
        "test",
        Budget { total: 100_u32, allocated: 80, consumed: 0 },
        Profile { expected_rate: 10_u32, peak: 25, variance: 0.2 },
        ThresholdSet { warning: 30, critical: 15, floor: 5 },
    );
    assert_eq!(d.name, "test");
    assert_eq!(d.remaining(), 100);
    let _ = d.tick(20);
    assert_eq!(d.remaining(), 80);
    assert!(d.history.is_empty());
}

#[test]
fn floor_event_reports_remaining_value_and_timestamp() {
    let mut d = domain(100u32, 30, 15, 5);
    let _ = d.tick(50);
    let e = d.tick(46).unwrap();
    assert_eq!(e.kind, EventKind::ThresholdCrossed { threshold_name: "floor", value: 4 });
    assert_eq!(e.severity, Ternary::Negative);
    assert_eq!(e.timestamp, Duration::from_secs(2));
    assert_eq!(d.history.len(), 1);
    assert_eq!(d.history[0], e);
}

#[test]
fn warning_at_exactly_the_threshold() {
    let mut d = domain(100u32, 30, 15, 5);
    let e = d.tick(70).unwrap();
    assert_eq!(e.kind, EventKind::ThresholdCrossed { threshold_name: "warning", value: 30 });
    assert_eq!(e.severity, Ternary::Neutral);
    assert_eq!(e.timestamp, Duration::from_secs(1));
}

#[test]
fn nominal_tick_leaves_history() {
    let mut d = domain(100u32, 30, 15, 5);
    assert!(d.tick(69).is_none());
    assert!(d.history.is_empty());
    assert_eq!(d.tick_count(), 1);
}

#[test]
fn overdraft_persists_with_idle_ticks() {
    let mut d = domain(10u16, 3, 2, 1);
    let e = d.tick(11).unwrap();
    assert_eq!(e.kind, EventKind::BudgetExceeded { actual: 11, limit: 10 });
    assert_eq!(d.remaining(), 0);
    for i in 2..6u64 {
        let e = d.tick(0).unwrap();
        assert_eq!(e.kind, EventKind::BudgetExceeded { actual: 11, limit: 10 });
        assert_eq!(e.severity, Ternary::Negative);
        assert_eq!(e.timestamp, Duration::from_secs(i));
    }
    assert_eq!(d.history.len(), 5);
}

#[test]
fn idle_tick_repeats_floor() {
    let mut d = domain(100u64, 30, 15, 5);
    let _ = d.tick(96);
    for _ in 0..3 {
        let e = d.tick(0).unwrap();
        assert_eq!(e.kind, EventKind::ThresholdCrossed { threshold_name: "floor", value: 4 });
    }
    assert_eq!(d.budget.consumed, 96);
}

#[test]
fn alarms_escalate_with_consumption() {
    let mut d = domain(100u32, 30, 15, 5);
    assert!(d.tick(60).is_none());
    assert_eq!(d.tick(15).unwrap().severity, Ternary::Neutral); // 25 left
    assert_eq!(
        d.tick(12).unwrap().kind,
        EventKind::ThresholdCrossed { threshold_name: "critical", value: 13 }
    );
    assert_eq!(
        d.tick(9).unwrap().kind,
        EventKind::ThresholdCrossed { threshold_name: "floor", value: 4 }
    );
    assert_eq!(
        d.tick(5).unwrap().kind,
        EventKind::BudgetExceeded { actual: 101, limit: 100 }
    );
}

#[test]
fn history_keeps_the_newest_events() {
    let mut d = domain(100u64, 30, 15, 5);
    let _ = d.tick(96);
    for _ in 0..1100 {
        let _ = d.tick(0);
    }
    assert_eq!(d.history.len(), MAX_HISTORY);
    assert_eq!(d.history[MAX_HISTORY - 1].timestamp, Duration::from_secs(1101));
    assert_eq!(d.history[0].timestamp, Duration::from_secs(1101 - 1023));
}

#[test]
fn clear_history_keeps_the_budget() {
    let mut d = domain(100u64, 30, 15, 5);
    let _ = d.tick(90);
    d.clear_history();
    assert!(d.history.is_empty());
    assert_eq!(d.budget.consumed, 90);
    assert_eq!(d.tick_count(), 1);
}

#[test]
fn signed_overspending_is_an_overdraft() {
    let mut d = domain(10i32, 3, 2, 1);
    let e = d.tick(15).unwrap();
    assert_eq!(e.kind, EventKind::BudgetExceeded { actual: 15, limit: 10 });
    assert_eq!(e.severity, Ternary::Negative);
    assert_eq!(d.remaining(), 0);
    assert_eq!(d.project_remaining(), Duration::ZERO);
    assert_eq!(d.projected_seconds(), Some(0));
}

#[test]
fn signed_budget_reaching_zero_is_the_floor() {
    let mut d = domain(10i64, 3, 2, 0);
    let e = d.tick(10).unwrap();
    assert_eq!(e.kind, EventKind::ThresholdCrossed { threshold_name: "floor", value: 0 });
    assert_eq!(d.remaining(), 0);
}

#[test]
fn signed_difference_out_of_range_is_an_overdraft() {
    let mut d = domain(100i8, 3, 2, 1);
    let e = d.tick(-100).unwrap();
    assert_eq!(e.kind, EventKind::BudgetExceeded { actual: -100, limit: 100 });
    assert_eq!(d.remaining(), 0);
    // negative consumption: the rate is not positive
    assert_eq!(d.project_remaining(), Duration::MAX);
}

#[test]
fn consumption_saturates_at_the_type_maximum() {
    let mut d = domain(200u8, 30, 15, 5);
    let _ = d.tick(200);
    let e = d.tick(100).unwrap();
    assert_eq!(e.kind, EventKind::BudgetExceeded { actual: 255, limit: 200 });
    assert_eq!(d.budget.consumed, 255);
}

#[test]
fn signed_consumption_saturates_at_the_type_minimum() {
    let mut d = domain(0i16, -10, -20, -30);
    let _ = d.tick(i16::MIN);
    let _ = d.tick(-5);
    assert_eq!(d.budget.consumed, i16::MIN);
}

#[test]
fn rate_is_consumed_over_ticks() {
    let mut d = domain(100u32, 30, 15, 5);
    assert_eq!(d.rate(), (0, 1));
    d.tick(7);
    d.tick(8);
    assert_eq!(d.rate(), (15, 2));
}

#[test]
fn projection_rounds_up() {
    let mut d = domain(10u32, 3, 2, 1);
    d.tick(3); // 7 left at 3 per tick: 2.33 → 3
    assert_eq!(d.project_remaining(), Duration::from_secs(3));
    assert_eq!(d.project_remaining().subsec_nanos(), 0);
}

#[test]
fn projection_is_zero_when_nothing_is_left() {
    let mut d = domain(10u32, 3, 2, 1);
    d.tick(10);
    assert_eq!(d.project_remaining(), Duration::ZERO);
}

#[test]
fn projection_is_capped_at_u64_max_seconds() {
    let mut d = domain(u128::MAX, 3, 2, 1);
    d.tick(1);
    assert_eq!(d.project_remaining(), Duration::from_secs(u64::MAX));
}

#[test]
fn projection_with_wide_values() {
    let unit: u128 = 1 << 90;
    let mut d = domain(10 * unit, 3, 2, 1);
    d.tick(unit);
    d.tick(unit);
    d.tick(unit);
    // 7 units left at 1 unit per tick
    assert_eq!(d.project_remaining(), Duration::from_secs(7));
    d.tick(unit / 2);
    // 6.5 units left at 3.5 units over 4 ticks: 6.5 * 4 / 3.5 = 7.43 → 8
    assert_eq!(d.project_remaining(), Duration::from_secs(8));
}

#[test]
fn unit_operations() {
    assert_eq!(u32::zero(), 0);
    assert_eq!(5u32.remaining(&7), None);
    assert_eq!(7u32.remaining(&5), Some(2));
    assert_eq!(5i32.remaining(&7), None);
    assert_eq!(7i32.remaining(&5), Some(2));
    assert_eq!((-3i32).remaining(&-5), Some(2));
    assert_eq!(i8::MIN.remaining(&1), None);
    assert_eq!(100i8.remaining(&-100), None);
    assert_eq!(9u64.partial_max(), Some(9));
    assert_eq!(250u8.saturating_plus(&10), 255);
    assert_eq!((-120i8).saturating_plus(&-10), -128);
    assert_eq!(3i64.saturating_plus(&-5), -2);
    assert!(3usize.at_most(&3));
    assert!(!4isize.at_most(&3));
    assert_eq!((-4i128).positive_part(), 0);
    assert_eq!(u128::MAX.positive_part(), u128::MAX);
    assert_eq!(i128::MAX.positive_part(), i128::MAX as u128);
}

#[test]
fn projected_seconds_matches_the_duration() {
    let mut d = domain(100u64, 30, 15, 5);
    assert_eq!(d.projected_seconds(), None);
    d.tick(10);
    d.tick(10);
    assert_eq!(d.projected_seconds(), Some(8));
    assert_eq!(d.project_remaining(), Duration::from_secs(8));
    d.tick(80);
    assert_eq!(d.projected_seconds(), Some(0));
    assert_eq!(d.project_remaining(), Duration::ZERO);
}

#[test]
fn constant_consumption_has_that_rate() {
    let mut d = domain(1000u32, 30, 15, 5);
    for _ in 0..7 {
        d.tick(13);
    }
    assert_eq!(d.rate(), (91, 7));
    assert_eq!(d.tick_count(), 7);
}
