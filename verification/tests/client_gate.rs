use monoio::client_gate::{
    client_in_flight, client_request_begin, client_request_end, gated_out, is_gate_shut, ClientGate,
};

#[test]
fn begin_end_balance_returns_to_zero() {
    let mut gate = ClientGate::new();
    assert_eq!(gate.count(), 0);

    client_request_begin(&mut gate);
    assert_eq!(gate.count(), 1);

    client_request_begin(&mut gate);
    assert_eq!(gate.count(), 2, "nested/concurrent requests stack");

    client_request_end(&mut gate);
    assert_eq!(gate.count(), 1);

    client_request_end(&mut gate);
    assert_eq!(gate.count(), 0, "balanced begin/end returns to idle");
}

#[test]
fn end_saturates_at_zero() {
    let mut gate = ClientGate::new();
    assert_eq!(gate.count(), 0);
    // An unbalanced extra end must NOT wrap to u32::MAX.
    client_request_end(&mut gate);
    assert_eq!(gate.count(), 0, "saturating_sub floors at zero");
}

#[test]
fn gating_decision_matches_spin_predicate() {
    let mut gate = ClientGate::new();
    assert_eq!(gate.count(), 0);

    // Gate off: never gated out, spin always runs.
    assert!(!gated_out(false, &gate), "gate disabled => spin runs unconditionally");

    // Gate on + no client in flight: gated out, spin is skipped.
    assert!(gated_out(true, &gate), "gate on + idle => spin skipped, park instead");

    // Gate on + client in flight: not gated out, spin runs.
    client_request_begin(&mut gate);
    assert!(!gated_out(true, &gate), "gate on + client in flight => spin runs");
    client_request_end(&mut gate);
}

#[test]
fn in_flight_follows_the_count() {
    let mut gate = ClientGate::new();
    assert!(!client_in_flight(&gate));
    client_request_begin(&mut gate);
    assert!(client_in_flight(&gate));
    client_request_end(&mut gate);
    client_request_end(&mut gate);
    assert!(!client_in_flight(&gate));
    // The extra end was absorbed: one begin raises the counter again.
    client_request_begin(&mut gate);
    assert!(client_in_flight(&gate));
    assert_eq!(gate.count(), 1);
}

#[test]
fn gate_shuts_only_while_enabled_and_idle() {
    assert!(is_gate_shut(true, false));
    assert!(!is_gate_shut(true, true));
    assert!(!is_gate_shut(false, false));
    assert!(!is_gate_shut(false, true));
}
