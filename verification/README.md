# ternary-conserve

Parametric conservation across resource domains: a budget of some integer
resource unit is ticked with consumption, and crossing a threshold or
overdrawing the budget is reported as an event with a three-valued severity.

Layout:

- `src/unit.rs` — the `ResourceUnit` trait and its implementations for the
  primitive integer types, each with its contract over the unit's value.
- `src/model.rs` — `Budget`, `Profile`, `ThresholdSet`, `EventKind`,
  `ConservationEvent` and the `Ternary` severity.
- `src/domain.rs` — `ConservationDomain`, its state model (`DomainState`) and
  the contracts of `new`, `tick`, `remaining`, `rate`, `project_remaining`,
  `tick_count` and `clear_history`.
- `src/arith.rs` — the exact, overflow-free ceiling of `left * ticks / rate`
  used by the depletion projection.
- `src/time.rs` — `Duration` values built from seconds.
- `src/laws.rs` — properties that hold across ticks (history cap, severity
  table, overdraft persistence, alarm escalation, projection minimality).
- `app/` — serde-enabled copies of the configuration types and the
  floating-point rate.
