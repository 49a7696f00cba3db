use dns_checker::reconcile::{apply, classify, decide, NotifyKind, Outcome};
use dns_checker::state::AlertState;

fn addr(s: &str) -> Option<String> {
    Some(String::from(s))
}

#[test]
fn classification_of_pairs() {
    assert_eq!(classify(&addr("1.2.3.4"), &addr("1.2.3.4")), Outcome::Matched);
    assert_eq!(classify(&addr("1.2.3.4"), &addr("5.6.7.8")), Outcome::Mismatched);
    assert_eq!(classify(&None, &addr("5.6.7.8")), Outcome::Indeterminate);
    assert_eq!(classify(&addr("1.2.3.4"), &None), Outcome::Indeterminate);
    assert_eq!(classify(&None, &None), Outcome::Indeterminate);
    // Absence equals nothing, and the empty string is still a string.
    assert_eq!(classify(&addr(""), &addr("")), Outcome::Matched);
}

#[test]
fn steady_match_stays_silent() {
    // router="1.2.3.4", dns="1.2.3.4", active=false: no notify, still inactive.
    let state = AlertState::Inactive;
    assert_eq!(decide(&addr("1.2.3.4"), &addr("1.2.3.4"), &state), None);
    assert!(!state.active());
}

#[test]
fn fresh_mismatch_notifies_and_raises() {
    // router="1.2.3.4", dns="5.6.7.8", active=false, notify succeeds:
    // one mismatch notification, then active with the cycle's timestamp.
    let state = AlertState::Inactive;
    let kind = decide(&addr("1.2.3.4"), &addr("5.6.7.8"), &state);
    assert_eq!(kind, Some(NotifyKind::Mismatch));
    let next = apply(&state, NotifyKind::Mismatch, true, 1_700_000_000);
    assert_eq!(next, AlertState::Active { raised_at: 1_700_000_000 });
}

#[test]
fn repeated_mismatch_is_suppressed() {
    // The same mismatch one cycle later, alert already active: zero
    // further notifications, state untouched.
    let state = AlertState::Active { raised_at: 1_700_000_000 };
    assert_eq!(decide(&addr("1.2.3.4"), &addr("5.6.7.8"), &state), None);
    assert!(state.active());
}

#[test]
fn convergence_notifies_and_clears() {
    // Addresses converge again, alert active, notify succeeds: one
    // recovery notification, then inactive.
    let state = AlertState::Active { raised_at: 1_700_000_000 };
    let kind = decide(&addr("1.2.3.4"), &addr("1.2.3.4"), &state);
    assert_eq!(kind, Some(NotifyKind::Recovered));
    let next = apply(&state, NotifyKind::Recovered, true, 1_700_000_600);
    assert_eq!(next, AlertState::Inactive);
}

#[test]
fn absent_router_address_is_inert() {
    // A failed router fetch: zero notifications, state untouched,
    // whatever it was.
    let inactive = AlertState::Inactive;
    let active = AlertState::Active { raised_at: 1_700_000_000 };
    assert_eq!(decide(&None, &addr("5.6.7.8"), &inactive), None);
    assert_eq!(decide(&None, &addr("5.6.7.8"), &active), None);
    assert_eq!(decide(&None, &None, &active), None);
}

#[test]
fn absent_dns_address_is_inert() {
    let inactive = AlertState::Inactive;
    let active = AlertState::Active { raised_at: 1_700_000_000 };
    assert_eq!(decide(&addr("1.2.3.4"), &None, &inactive), None);
    assert_eq!(decide(&addr("1.2.3.4"), &None, &active), None);
}

#[test]
fn failed_delivery_keeps_the_state_for_retry() {
    // A mismatch notification that does not go through leaves the state
    // inactive, so the next cycle notifies again.
    let inactive = AlertState::Inactive;
    assert_eq!(apply(&inactive, NotifyKind::Mismatch, false, 1_700_000_000), inactive);
    // A recovery notification that does not go through keeps the alert
    // active, so the next cycle tries to clear it again.
    let active = AlertState::Active { raised_at: 1_700_000_000 };
    assert_eq!(apply(&active, NotifyKind::Recovered, false, 1_700_000_600), active);
}
