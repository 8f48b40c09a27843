//! Properties that hold across ticks of a domain.

use vstd::prelude::*;

use crate::arith::{cap_u64, ceil_div};
use crate::time::secs;
use core::time::Duration;
use vstd::arithmetic::div_mod::lemma_fundamental_div_mod_converse;
use crate::domain::{alarm_for, last_n, left_over, Alarm, DomainState, MAX_HISTORY};
use crate::model::{ConservationEvent, EventKind, Ternary};
use crate::unit::{representable, ResourceUnit};

verus! {

/// How serious an alarm is: no alarm, warning, critical, floor, overdraft.
pub open spec fn alarm_rank(a: Option<Alarm>) -> int {
    match a {
        None => 0,
        Some(Alarm::Warning) => 1,
        Some(Alarm::Critical) => 2,
        Some(Alarm::Floor) => 3,
        Some(Alarm::BudgetExceeded) => 4,
    }
}

/// Trimming to the last `MAX_HISTORY` events keeps `min(n, MAX_HISTORY)`
/// of `n` events: the newest, in order, with the oldest dropped from the
/// front.
pub proof fn law_trim_keeps_newest<A>(s: Seq<A>)
    ensures
        last_n(s, MAX_HISTORY as nat).len() == if s.len() < MAX_HISTORY {
            s.len()
        } else {
            MAX_HISTORY as nat
        },
        last_n(s, MAX_HISTORY as nat) == s.subrange(
            s.len() - last_n(s, MAX_HISTORY as nat).len(),
            s.len() as int,
        ),
{
    if s.len() <= MAX_HISTORY {
        assert(s.subrange(0, s.len() as int) =~= s);
    }
}

/// A tick without an event leaves the history alone. A tick with an event
/// appends it: the history then holds `min(n + 1, MAX_HISTORY)` events of
/// the `n` before plus the new one, the newest in order, ending with that
/// event; so the history never grows past `MAX_HISTORY` once within it.
pub proof fn law_history_capped<T: ResourceUnit, V>(
    before: DomainState<T, V>,
    consumed: T,
    after: DomainState<T, V>,
    r: Option<ConservationEvent<T>>,
)
    requires
        before.ticked(consumed, after, r),
    ensures
        r is None ==> after.history == before.history,
        r matches Some(e) ==> {
            &&& after.history.len() == if before.history.len() + 1 < MAX_HISTORY {
                before.history.len() + 1
            } else {
                MAX_HISTORY as nat
            }
            &&& after.history == before.history.push(e).subrange(
                before.history.len() + 1 - after.history.len(),
                (before.history.len() + 1) as int,
            )
            &&& after.history.last() == e
        },
        before.history.len() <= MAX_HISTORY ==> after.history.len() <= MAX_HISTORY,
{
    if let Some(e) = r {
        law_trim_keeps_newest(before.history.push(e));
    }
}

/// The severity of a reported event follows the table: an overdraft, the
/// floor and the critical threshold are `Negative`, the warning threshold is
/// `Neutral`; a tick never reports `Positive`.
pub proof fn law_severity_mapping<T: ResourceUnit, V>(
    before: DomainState<T, V>,
    consumed: T,
    after: DomainState<T, V>,
    r: Option<ConservationEvent<T>>,
)
    requires
        before.ticked(consumed, after, r),
    ensures
        r matches Some(e) ==> {
            &&& e.severity != Ternary::Positive
            &&& e.kind is BudgetExceeded ==> e.severity == Ternary::Negative
            &&& e.kind matches EventKind::ThresholdCrossed { threshold_name, value } ==> (
            e.severity == Ternary::Neutral <==> threshold_name@ == "warning"@)
        },
{
    reveal_strlit("warning");
    reveal_strlit("critical");
    reveal_strlit("floor");
    assert("floor"@.len() != "warning"@.len());
    assert("critical"@.len() != "warning"@.len());
}

/// The budget is overdrawn exactly when more was consumed than the total,
/// or when what is left is too large for the unit type (possible only for
/// signed units after negative consumption); for unsigned units, exactly
/// when more was consumed than the total.
pub proof fn law_overdraft_condition<T: ResourceUnit>(total: T, consumed: T)
    ensures
        left_over(total, consumed) is None <==> (consumed.value() > total.value()
            || total.value() - consumed.value() > T::highest()),
        T::lowest() == 0 ==> (left_over(total, consumed) is None <==> consumed.value()
            > total.value()),
{
    T::lemma_value(total, consumed);
    T::lemma_value(consumed, total);
}

/// While the consumed amount does not saturate and the budget is not
/// overdrawn, a tick lowers the remaining amount by exactly the consumption.
pub proof fn law_remaining_falls_by_consumption<T: ResourceUnit, V>(
    before: DomainState<T, V>,
    consumed: T,
    after: DomainState<T, V>,
    r: Option<ConservationEvent<T>>,
)
    requires
        before.ticked(consumed, after, r),
        representable::<T>(before.budget.consumed.value() + consumed.value()),
        left_over(before.budget.total, before.budget.consumed) is Some,
        left_over(after.budget.total, after.budget.consumed) is Some,
    ensures
        after.left() == before.left() - consumed.value(),
{
}

/// With non-negative consumption the consumed amount never falls.
pub proof fn law_consumption_never_falls<T: ResourceUnit, V>(
    before: DomainState<T, V>,
    consumed: T,
    after: DomainState<T, V>,
    r: Option<ConservationEvent<T>>,
)
    requires
        before.ticked(consumed, after, r),
        consumed.value() >= 0,
    ensures
        after.budget.consumed.value() >= before.budget.consumed.value(),
{
    T::lemma_value(before.budget.consumed, consumed);
}

/// Once more has been consumed than the total, every tick with
/// non-negative consumption reports the overdraft again, with `Negative`
/// severity, and `remaining` reports zero.
pub proof fn law_overdraft_persists<T: ResourceUnit, V>(
    before: DomainState<T, V>,
    consumed: T,
    after: DomainState<T, V>,
    r: Option<ConservationEvent<T>>,
)
    requires
        before.ticked(consumed, after, r),
        consumed.value() >= 0,
        before.budget.consumed.value() > before.budget.total.value(),
    ensures
        r matches Some(e) && e.kind is BudgetExceeded && e.severity == Ternary::Negative,
        after.left() == 0,
{
    T::lemma_value(before.budget.consumed, consumed);
    T::lemma_value(before.budget.total, consumed);
}

/// A tick that consumes nothing keeps the budget and raises the same alarm
/// as the state before it: once at or below the floor, every later idle
/// tick reports the floor again.
pub proof fn law_idle_tick_repeats_alarm<T: ResourceUnit, V>(
    before: DomainState<T, V>,
    consumed: T,
    after: DomainState<T, V>,
    r: Option<ConservationEvent<T>>,
)
    requires
        before.ticked(consumed, after, r),
        consumed.value() == 0,
    ensures
        after.budget == before.budget,
        alarm_for(left_over(after.budget.total, after.budget.consumed), after.thresholds)
            == alarm_for(left_over(before.budget.total, before.budget.consumed), before.thresholds),
        r is Some <==> alarm_for(
            left_over(before.budget.total, before.budget.consumed),
            before.thresholds,
        ) is Some,
{
    T::lemma_value(before.budget.consumed, after.budget.consumed);
    T::lemma_value(consumed, consumed);
}

/// With non-negative consumption, alarms only escalate: no alarm, warning,
/// critical, floor, overdraft. (The difference `total - consumed` must not
/// lie above the unit's range, which always holds for unsigned units.)
pub proof fn law_alarms_escalate<T: ResourceUnit, V>(
    before: DomainState<T, V>,
    consumed: T,
    after: DomainState<T, V>,
    r: Option<ConservationEvent<T>>,
)
    requires
        before.ticked(consumed, after, r),
        consumed.value() >= 0,
        before.budget.total.value() - before.budget.consumed.value() <= T::highest(),
    ensures
        alarm_rank(alarm_for(left_over(after.budget.total, after.budget.consumed), after.thresholds))
            >= alarm_rank(
            alarm_for(left_over(before.budget.total, before.budget.consumed), before.thresholds),
        ),
{
    T::lemma_value(before.budget.consumed, consumed);
    T::lemma_value(before.budget.total, consumed);
}

/// A run of ticks from a fresh domain (no ticks, nothing consumed), each
/// consuming `x`: after `n` of them the domain has `n` ticks and `n * x`
/// consumed.
proof fn constant_rate_prefix<T: ResourceUnit, V>(
    states: Seq<DomainState<T, V>>,
    answers: Seq<Option<ConservationEvent<T>>>,
    x: T,
    n: int,
)
    requires
        states.len() >= 2,
        answers.len() == states.len() - 1,
        states[0].ticks == 0,
        states[0].budget.consumed.value() == 0,
        forall|i: int|
            #![trigger answers[i]]
            0 <= i < states.len() - 1 ==> states[i].ticked(x, states[i + 1], answers[i]),
        representable::<T>((states.len() - 1) * x.value()),
        0 <= n < states.len(),
    ensures
        states[n].ticks == n,
        states[n].budget.consumed.value() == n * x.value(),
    decreases n,
{
    if n > 0 {
        constant_rate_prefix(states, answers, x, n - 1);
        assert(states[n - 1].ticked(x, states[n], answers[n - 1]));
        T::lemma_value(x, x);
        let m = states.len() - 1;
        let v = x.value();
        assert(T::lowest() <= n * v <= T::highest()) by (nonlinear_arith)
            requires
                0 < n <= m,
                T::lowest() <= m * v <= T::highest(),
                T::lowest() <= 0 < T::highest(),
        ;
        assert((n - 1) * v + v == n * v) by (nonlinear_arith);
    }
}

/// Ticking a fresh domain (no ticks, nothing consumed) `k >= 1` times with
/// the same consumption `x`, where the running total `k * x` fits the unit
/// type, leaves `k` ticks and `k * x` consumed: the rate `rate` reports,
/// consumed over ticks, is exactly `x`.
pub proof fn law_constant_rate<T: ResourceUnit, V>(
    states: Seq<DomainState<T, V>>,
    answers: Seq<Option<ConservationEvent<T>>>,
    x: T,
)
    requires
        states.len() >= 2,
        answers.len() == states.len() - 1,
        states[0].ticks == 0,
        states[0].budget.consumed.value() == 0,
        forall|i: int|
            #![trigger answers[i]]
            0 <= i < states.len() - 1 ==> states[i].ticked(x, states[i + 1], answers[i]),
        representable::<T>((states.len() - 1) * x.value()),
    ensures
        states.last().ticks == states.len() - 1,
        states.last().budget.consumed.value() == states.last().ticks * x.value(),
        states.last().budget.consumed.value() / (states.last().ticks as int) == x.value(),
{
    let k = states.len() - 1;
    constant_rate_prefix(states, answers, x, k);
    let c = states.last().budget.consumed.value();
    assert(c == x.value() * k + 0) by (nonlinear_arith)
        requires
            c == k * x.value(),
    ;
    lemma_fundamental_div_mod_converse(c, k, x.value(), 0);
}

/// The projection's edges: there is none (the domain never depletes)
/// exactly when the rate is not positive (no ticks yet, or nothing
/// consumed); it is zero exactly when the rate is positive and nothing is
/// left; otherwise it is at least one tick.
pub proof fn law_projection_edges<T: ResourceUnit, V>(s: DomainState<T, V>)
    ensures
        s.projection() is None <==> (s.ticks == 0 || s.budget.consumed.value() <= 0),
        s.projection() == Some(0int) <==> (s.ticks > 0 && s.budget.consumed.value() > 0
            && s.left() <= 0),
        s.left() > 0 ==> (s.projection() matches Some(k) ==> k >= 1),
{
    if s.ticks > 0 && s.budget.consumed.value() > 0 && s.left() > 0 {
        let n = s.left() * s.ticks;
        let c = s.budget.consumed.value();
        assert(n >= 1) by (nonlinear_arith)
            requires
                s.left() > 0,
                s.ticks > 0,
                n == s.left() * s.ticks,
        ;
        assert(ceil_div(n, c) >= 1) by {
            vstd::arithmetic::div_mod::lemma_div_is_ordered(c, n + c - 1, c);
            vstd::arithmetic::div_mod::lemma_div_by_self(c);
        }
    }
}

/// The projected number of ticks is the least that, at the current rate,
/// uses up what is left: `k - 1` ticks never consume the remaining amount,
/// and `k` ticks do unless `k` is `u64::MAX`, which is reported only when
/// even `u64::MAX - 1` ticks fall short (the true projection exceeds what a
/// `u64` holds).
pub proof fn law_projection_is_least_sufficient<T: ResourceUnit, V>(s: DomainState<T, V>, k: int)
    requires
        s.projection() == Some(k),
        s.left() > 0,
    ensures
        0 < k <= u64::MAX,
        (k - 1) * s.budget.consumed.value() < s.left() * s.ticks,
        k < u64::MAX ==> k * s.budget.consumed.value() >= s.left() * s.ticks,
{
    let n = s.left() * s.ticks;
    let c = s.budget.consumed.value();
    let q = ceil_div(n, c);
    assert(k == cap_u64(q));
    vstd::arithmetic::div_mod::lemma_fundamental_div_mod(n + c - 1, c);
    let m = (n + c - 1) % c;
    assert(0 <= m < c) by {
        vstd::arithmetic::div_mod::lemma_mod_bound(n + c - 1, c);
    }
    assert(n >= 1) by (nonlinear_arith)
        requires
            s.left() > 0,
            s.ticks > 0,
            n == s.left() * s.ticks,
    ;
    assert(q * c >= n) by (nonlinear_arith)
        requires
            n + c - 1 == c * q + m,
            m < c,
    ;
    assert((q - 1) * c < n) by (nonlinear_arith)
        requires
            n + c - 1 == c * q + m,
            0 <= m,
    ;
    assert(q >= 1) by (nonlinear_arith)
        requires
            q * c >= n,
            n >= 1,
            c > 0,
    ;
    if q > u64::MAX {
        assert((k - 1) * c < (q - 1) * c) by (nonlinear_arith)
            requires
                k < q,
                c > 0,
        ;
    }
}

/// What a tick reports, in terms of the budget after it and the
/// thresholds: an overdraft (more consumed than the total, or a remaining
/// amount the unit cannot hold) is a `BudgetExceeded` event carrying the
/// consumed amount and the total; otherwise the remaining amount
/// `total - consumed` is reported against the floor, then the critical
/// threshold, then the warning threshold, each compared with its own value,
/// in an event carrying that remaining amount; above all three nothing is
/// reported. Events are stamped with the new tick count and the domain name.
pub proof fn law_tick_reports<T: ResourceUnit, V>(
    before: DomainState<T, V>,
    consumed: T,
    after: DomainState<T, V>,
    r: Option<ConservationEvent<T>>,
)
    requires
        before.ticked(consumed, after, r),
    ensures
        ({
            let total = after.budget.total.value();
            let used = after.budget.consumed.value();
            let rem = total - used;
            let floor = before.thresholds.floor.value();
            let critical = before.thresholds.critical.value();
            let warning = before.thresholds.warning.value();
            &&& (used > total || rem > T::highest()) ==> r == Some(
                ConservationEvent {
                    timestamp: e_timestamp(r),
                    domain: before.name,
                    kind: EventKind::BudgetExceeded {
                        actual: after.budget.consumed,
                        limit: after.budget.total,
                    },
                    severity: Ternary::Negative,
                },
            )
            &&& (used <= total && rem <= T::highest() && rem <= floor) ==> (r matches Some(e)
                && e.kind matches EventKind::ThresholdCrossed { threshold_name, value }
                && threshold_name@ == "floor"@ && value.value() == rem && e.severity
                == Ternary::Negative)
            &&& (used <= total && rem <= T::highest() && floor < rem <= critical) ==> (r matches Some(
                e,
            ) && e.kind matches EventKind::ThresholdCrossed { threshold_name, value }
                && threshold_name@ == "critical"@ && value.value() == rem && e.severity
                == Ternary::Negative)
            &&& (used <= total && rem <= T::highest() && floor < rem && critical < rem && rem
                <= warning) ==> (r matches Some(e) && e.kind matches EventKind::ThresholdCrossed {
                threshold_name,
                value,
            } && threshold_name@ == "warning"@ && value.value() == rem && e.severity
                == Ternary::Neutral)
            &&& (used <= total && rem <= T::highest() && floor < rem && critical < rem && warning
                < rem) ==> r is None
        }),
        r matches Some(e) ==> e.timestamp == secs(after.ticks) && e.domain == before.name,
{
}

/// The timestamp of an event, if there is one.
pub open spec fn e_timestamp<T>(r: Option<ConservationEvent<T>>) -> Duration {
    match r {
        Some(e) => e.timestamp,
        None => secs(0),
    }
}

/// What a tick does to the budget and the counter: one more tick, the
/// consumed amount grows by `consumed` exactly when the sum fits the unit
/// type and is clamped to the type's bound otherwise, and the total, the
/// allocation, the name, the profile and the thresholds stay.
pub proof fn law_tick_consumption<T: ResourceUnit, V>(
    before: DomainState<T, V>,
    consumed: T,
    after: DomainState<T, V>,
    r: Option<ConservationEvent<T>>,
)
    requires
        before.ticked(consumed, after, r),
    ensures
        after.ticks == before.ticks + 1,
        T::lowest() <= before.budget.consumed.value() + consumed.value() <= T::highest()
            ==> after.budget.consumed.value() == before.budget.consumed.value()
            + consumed.value(),
        before.budget.consumed.value() + consumed.value() > T::highest()
            ==> after.budget.consumed.value() == T::highest(),
        before.budget.consumed.value() + consumed.value() < T::lowest()
            ==> after.budget.consumed.value() == T::lowest(),
        after.budget.total == before.budget.total,
        after.budget.allocated == before.budget.allocated,
        after.name == before.name,
        after.profile == before.profile,
        after.thresholds == before.thresholds,
{
    T::lemma_value(consumed, consumed);
}

/// What `remaining` reports: `total - consumed` when the total covers the
/// consumption and the unit type holds the difference, zero otherwise.
pub proof fn law_remaining_value<T: ResourceUnit, V>(s: DomainState<T, V>)
    ensures
        s.left() == if s.budget.consumed.value() <= s.budget.total.value()
            && s.budget.total.value() - s.budget.consumed.value() <= T::highest() {
            s.budget.total.value() - s.budget.consumed.value()
        } else {
            0
        },
{
}

} // verus!
