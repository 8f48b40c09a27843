use std::time::Duration;

use ternary_conserve::{
    Budget, ConservationDomain, ConservationEvent, EventKind, Profile, Ternary, ThresholdSet,
};

/// Helper to create a test domain
fn test_domain() -> ConservationDomain<u64, f64> {
    ConservationDomain::new(
        "test_domain",
        Budget {
            total: 100,
            allocated: 100,
            consumed: 0,
        },
        Profile {
            expected_rate: 10,
            peak: 20,
            variance: 0.1,
        },
        ThresholdSet {
            warning: 30,
            critical: 15,
            floor: 5,
        },
    )
}

/// The rate as a floating-point number: numerator over denominator.
fn rate_of(d: &ConservationDomain<u64, f64>) -> f64 {
    let (n, k) = d.rate();
    n as f64 / k as f64
}

#[test]
fn test_budget_tracking() {
    let mut d = test_domain();

    assert_eq!(d.remaining(), 100);
    assert_eq!(d.budget.consumed, 0);

    // Tick some consumption
    let _ = d.tick(10);
    assert_eq!(d.budget.consumed, 10);
    assert_eq!(d.remaining(), 90);

    let _ = d.tick(20);
    assert_eq!(d.budget.consumed, 30);
    assert_eq!(d.remaining(), 70);
}

#[test]
fn test_threshold_crossing_warning() {
    let mut d = test_domain();

    // Consume down to warning threshold (30)
    let _ = d.tick(30); // consumed = 30, remaining = 70
    let _ = d.tick(30); // consumed = 60, remaining = 40 — still > 30
    assert!(d.remaining() > 30 || d.remaining() == 30);

    // One more tick should cross into warning
    let _ = d.tick(10); // consumed = 70, remaining = 30
    assert_eq!(d.remaining(), 30); // exactly at warning

    // Cross warning
    let event = d.tick(5); // consumed = 75, remaining = 25 < 30
    assert!(event.is_some());
    if let Some(evt) = event {
        assert_eq!(evt.severity, Ternary::Neutral);
        match &evt.kind {
            EventKind::ThresholdCrossed { threshold_name, .. } => {
                assert_eq!(*threshold_name, "warning");
            }
            other => panic!("Expected ThresholdCrossed, got {:?}", other),
        }
    }
}

#[test]
fn test_threshold_crossing_critical() {
    let mut d = test_domain();

    // Blast through to critical
    let _ = d.tick(50); // consumed=50, remaining=50
    let _ = d.tick(40); // consumed=90, remaining=10 < 15 (critical)

    let event = d.tick(0);
    assert!(event.is_some());
    if let Some(evt) = event {
        assert_eq!(evt.severity, Ternary::Negative);
        match &evt.kind {
            EventKind::ThresholdCrossed { threshold_name, .. } => {
                assert_eq!(*threshold_name, "critical");
            }
            other => panic!("Expected ThresholdCrossed, got {:?}", other),
        }
    }
}

#[test]
fn test_budget_exceeded() {
    let mut d = test_domain();

    // Consume everything
    let _ = d.tick(50);
    let _ = d.tick(50); // consumed=100, remaining=0

    // Exceed
    let event = d.tick(1);
    assert!(event.is_some());
    if let Some(evt) = event {
        assert_eq!(evt.severity, Ternary::Negative);
        match &evt.kind {
            EventKind::BudgetExceeded { actual, limit } => {
                assert_eq!(*actual, 101);
                assert_eq!(*limit, 100);
            }
            other => panic!("Expected BudgetExceeded, got {:?}", other),
        }
    }
}

#[test]
fn test_empty_to_empty() {
    // An already-empty budget: tick should immediately report
    let mut d = ConservationDomain::new(
        "empty",
        Budget {
            total: 0_u32,
            allocated: 0,
            consumed: 0,
        },
        Profile {
            expected_rate: 0,
            peak: 0,
            variance: 0.0,
        },
        ThresholdSet {
            warning: 0,
            critical: 0,
            floor: 0,
        },
    );
    let event = d.tick(1);
    assert!(event.is_some());
}

#[test]
fn test_rate_calculation() {
    let mut d = test_domain();
    assert_eq!(rate_of(&d), 0.0);

    d.tick(10);
    assert!((rate_of(&d) - 10.0).abs() < 0.01);

    d.tick(20);
    assert!((rate_of(&d) - 15.0).abs() < 0.01);

    d.tick(15);
    assert!((rate_of(&d) - 15.0).abs() < 0.01);
}

#[test]
fn test_project_remaining() {
    let mut d = test_domain();

    // No consumption = max duration
    assert_eq!(d.project_remaining(), Duration::MAX);

    d.tick(10);
    d.tick(10);

    let proj = d.project_remaining();
    assert!(proj > Duration::ZERO);
    // At rate=10, remaining=80 => 8 ticks
    assert_eq!(proj.as_secs(), 8);
}

#[test]
fn test_history_actually_capped_at_1024() {
    // Once `remaining` drops to/below the floor, every subsequent tick —
    // even of zero — re-emits a floor event, so far more than the cap can
    // accumulate on one domain.
    let mut d = test_domain();
    // total=100, floor=5: consume 96 so remaining=4 <= 5  (floor event #1)
    let _ = d.tick(96);
    // remaining stays at 4, so each of these re-emits a floor event
    for _ in 0..2000 {
        let _ = d.tick(0);
    }
    assert!(
        d.history.len() <= 1024,
        "history must be capped at 1024, got {}",
        d.history.len()
    );
    assert!(
        d.history.len() > 512,
        "history should have accumulated many events, got {}",
        d.history.len()
    );
}

#[test]
fn test_integer_resource_unit() {
    let mut d: ConservationDomain<u32, f64> = ConservationDomain::new(
        "fuel_liters",
        Budget {
            total: 50,
            allocated: 50,
            consumed: 0,
        },
        Profile {
            expected_rate: 5,
            peak: 10,
            variance: 0.2,
        },
        ThresholdSet {
            warning: 15,
            critical: 8,
            floor: 3,
        },
    );

    assert_eq!(d.remaining(), 50);
    let _ = d.tick(5);
    assert_eq!(d.remaining(), 45);
    let _ = d.tick(5);
    assert_eq!(d.remaining(), 40);

    // Warning threshold
    let _ = d.tick(10); // remaining 30
    let _ = d.tick(10); // remaining 20
    let event = d.tick(10); // remaining 10 < 15
    assert!(event.is_some());
}

#[test]
fn test_cascade_event() {
    // Cascade events are constructed manually for cross-domain scenarios
    let cascade: ConservationEvent<f64> = ConservationEvent {
        timestamp: Duration::from_secs(42),
        domain: "fuel",
        kind: EventKind::Cascade {
            trigger: "battery depleted, drawing from fuel reserve".into(),
            affected_domain: "battery",
        },
        severity: Ternary::Negative,
    };
    assert_eq!(cascade.domain, "fuel");
    match &cascade.kind {
        EventKind::Cascade {
            trigger,
            affected_domain,
        } => {
            assert!(trigger.contains("battery"));
            assert_eq!(*affected_domain, "battery");
        }
        _ => panic!("expected Cascade"),
    }
}

#[test]
fn test_tick_count() {
    let mut d = test_domain();
    assert_eq!(d.tick_count(), 0);
    d.tick(10);
    assert_eq!(d.tick_count(), 1);
    d.tick(10);
    assert_eq!(d.tick_count(), 2);
}

#[test]
fn test_clear_history() {
    let mut d = test_domain();
    // Force a threshold event
    let _ = d.tick(90);
    assert!(!d.history.is_empty());
    d.clear_history();
    assert!(d.history.is_empty());
}
