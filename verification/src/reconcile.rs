//! The reconciler: one poll cycle's decision.
//!
//! Each cycle observes a pair of addresses — the router's WAN address and the
//! address DNS publishes — either of which may be absent, and the current
//! alert state.  The reconciler classifies the pair, says which notification
//! (if any) this cycle must attempt, and computes the state that follows once
//! the notification's fate is known.  The governing invariant: notify once
//! when a divergence starts, once when it ends, and never in between; a
//! failed delivery leaves the state alone so the next cycle retries.

use vstd::prelude::*;

use crate::state::{opt_text, AlertState};
use crate::timefmt::valid_timestamp;

verus! {

/// How one cycle's observed address pair classifies.
#[derive(Clone, Copy, Debug, PartialEq, Eq, Structural)]
pub enum Outcome {
    /// At least one lookup failed; nothing can be concluded this cycle.
    Indeterminate,
    /// Both addresses are present and equal.
    Matched,
    /// Both addresses are present and differ: the DNS record is stale.
    Mismatched,
}

/// The notification a cycle attempts.
#[derive(Clone, Copy, Debug, PartialEq, Eq, Structural)]
pub enum NotifyKind {
    /// The addresses diverged and no alert is active yet.
    Mismatch,
    /// The addresses converged again while an alert was active.
    Recovered,
}

/// Classification of an observed address pair.  Absence is not an address:
/// it equals nothing, not even another absence.
pub open spec fn spec_outcome(router_ip: Option<Seq<char>>, dns_ip: Option<Seq<char>>) -> Outcome {
    match (router_ip, dns_ip) {
        (Some(r), Some(d)) => if r == d {
            Outcome::Matched
        } else {
            Outcome::Mismatched
        },
        _ => Outcome::Indeterminate,
    }
}

/// The decision table's notification column: which notification the cycle
/// attempts, given the observed pair and whether an alert is active.
pub open spec fn spec_decide(
    router_ip: Option<Seq<char>>,
    dns_ip: Option<Seq<char>>,
    active: bool,
) -> Option<NotifyKind> {
    match spec_outcome(router_ip, dns_ip) {
        Outcome::Indeterminate => None,
        Outcome::Matched => if active {
            Some(NotifyKind::Recovered)
        } else {
            None
        },
        Outcome::Mismatched => if active {
            None
        } else {
            Some(NotifyKind::Mismatch)
        },
    }
}

/// The state that follows an attempted notification.  Only a delivered
/// notification moves the state: a mismatch alert raises it with the cycle's
/// clock reading, a recovery clears it, and a failed delivery leaves it
/// untouched so the next cycle retries.
pub open spec fn spec_apply(
    state: AlertState,
    kind: NotifyKind,
    delivered: bool,
    now: i64,
) -> AlertState {
    if delivered {
        match kind {
            NotifyKind::Mismatch => AlertState::Active { raised_at: now },
            NotifyKind::Recovered => AlertState::Inactive,
        }
    } else {
        state
    }
}

/// One whole cycle over the model: the notification attempted (`None` for a
/// silent cycle) and the state that follows, `delivered` telling how the
/// attempt — if there was one — fared.
pub open spec fn spec_cycle(
    router_ip: Option<Seq<char>>,
    dns_ip: Option<Seq<char>>,
    state: AlertState,
    delivered: bool,
    now: i64,
) -> (AlertState, Option<NotifyKind>) {
    match spec_decide(router_ip, dns_ip, state.is_active()) {
        None => (state, None),
        Some(kind) => (spec_apply(state, kind, delivered, now), Some(kind)),
    }
}

/// Classify one cycle's observed address pair.
pub fn classify(router_ip: &Option<String>, dns_ip: &Option<String>) -> (r: Outcome)
    ensures
        r == spec_outcome(opt_text(*router_ip), opt_text(*dns_ip)),
{
    match (router_ip, dns_ip) {
        (Some(r), Some(d)) => if *r == *d {
            Outcome::Matched
        } else {
            Outcome::Mismatched
        },
        _ => Outcome::Indeterminate,
    }
}

/// Decide which notification this cycle must attempt: a mismatch alert on
/// transition into divergence, a recovery on transition out of it, nothing
/// while a lookup failed, while the addresses agree quietly, or while the
/// divergence is already known.
pub fn decide(
    router_ip: &Option<String>,
    dns_ip: &Option<String>,
    state: &AlertState,
) -> (r: Option<NotifyKind>)
    ensures
        r == spec_decide(opt_text(*router_ip), opt_text(*dns_ip), state.is_active()),
{
    match classify(router_ip, dns_ip) {
        Outcome::Indeterminate => None,
        Outcome::Matched => if state.active() {
            Some(NotifyKind::Recovered)
        } else {
            None
        },
        Outcome::Mismatched => if state.active() {
            None
        } else {
            Some(NotifyKind::Mismatch)
        },
    }
}

/// Advance the alert state after a notification attempt of kind `kind`,
/// `delivered` saying whether the message went through, `now` the cycle's
/// clock reading.
pub fn apply(state: &AlertState, kind: NotifyKind, delivered: bool, now: i64) -> (r: AlertState)
    requires
        state.wf(),
        valid_timestamp(now),
    ensures
        r == spec_apply(*state, kind, delivered, now),
        r.wf(),
{
    if delivered {
        match kind {
            NotifyKind::Mismatch => AlertState::Active { raised_at: now },
            NotifyKind::Recovered => AlertState::Inactive,
        }
    } else {
        *state
    }
}

/// An absent address on either side leaves the cycle silent and the state
/// untouched, whatever the state and however a notification would have
/// fared: a lookup failure must never raise, clear or re-raise an alert.
pub proof fn lemma_absent_address_is_inert(
    router_ip: Option<Seq<char>>,
    dns_ip: Option<Seq<char>>,
    state: AlertState,
    delivered: bool,
    now: i64,
)
    requires
        router_ip is None || dns_ip is None,
    ensures
        spec_cycle(router_ip, dns_ip, state, delivered, now) == (state, None::<NotifyKind>),
{
}

/// Equal addresses with no alert active are the steady state: no
/// notification is attempted and the state stays inactive.
pub proof fn lemma_steady_match_is_silent(
    router_ip: Option<Seq<char>>,
    dns_ip: Option<Seq<char>>,
    state: AlertState,
    delivered: bool,
    now: i64,
)
    requires
        router_ip is Some,
        router_ip == dns_ip,
        !state.is_active(),
    ensures
        spec_cycle(router_ip, dns_ip, state, delivered, now) == (state, None::<NotifyKind>),
{
}

/// Equal addresses with an alert active attempt exactly one recovery
/// notification; the alert clears iff that notification is delivered, and
/// otherwise stays as it was so the next cycle retries.
pub proof fn lemma_convergence_clears_once(
    router_ip: Option<Seq<char>>,
    dns_ip: Option<Seq<char>>,
    state: AlertState,
    delivered: bool,
    now: i64,
)
    requires
        router_ip is Some,
        router_ip == dns_ip,
        state.is_active(),
    ensures
        spec_cycle(router_ip, dns_ip, state, delivered, now).1 == Some(NotifyKind::Recovered),
        delivered ==> spec_cycle(router_ip, dns_ip, state, delivered, now).0 == AlertState::Inactive,
        !delivered ==> spec_cycle(router_ip, dns_ip, state, delivered, now).0 == state,
{
}

/// Unequal addresses with no alert active attempt exactly one mismatch
/// notification; the alert becomes active with the cycle's clock reading iff
/// that notification is delivered, and otherwise the state stays as it was
/// so the next cycle retries.
pub proof fn lemma_divergence_raises_once(
    router_ip: Option<Seq<char>>,
    dns_ip: Option<Seq<char>>,
    state: AlertState,
    delivered: bool,
    now: i64,
)
    requires
        router_ip is Some,
        dns_ip is Some,
        router_ip != dns_ip,
        !state.is_active(),
    ensures
        spec_cycle(router_ip, dns_ip, state, delivered, now).1 == Some(NotifyKind::Mismatch),
        delivered ==> spec_cycle(router_ip, dns_ip, state, delivered, now).0 == (AlertState::Active {
            raised_at: now,
        }),
        !delivered ==> spec_cycle(router_ip, dns_ip, state, delivered, now).0 == state,
{
}

/// Unequal addresses with an alert already active are suppressed: no further
/// notification is attempted and the state is untouched, so repeating the
/// same divergent cycle any number of times changes nothing.
pub proof fn lemma_known_divergence_is_suppressed(
    router_ip: Option<Seq<char>>,
    dns_ip: Option<Seq<char>>,
    state: AlertState,
    delivered: bool,
    now: i64,
)
    requires
        router_ip is Some,
        dns_ip is Some,
        router_ip != dns_ip,
        state.is_active(),
    ensures
        spec_cycle(router_ip, dns_ip, state, delivered, now) == (state, None::<NotifyKind>),
        spec_cycle(
            router_ip,
            dns_ip,
            spec_cycle(router_ip, dns_ip, state, delivered, now).0,
            delivered,
            now,
        ) == (state, None::<NotifyKind>),
{
}

} // verus!
