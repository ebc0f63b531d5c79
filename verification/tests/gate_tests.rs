use hachi::gate::AudioGate;
use hachi::gate::GateAction;
use hachi::gate::HOLD_MILLIS;

#[test]
fn gate_starts_on_rising_edge() {
    let mut gate = AudioGate::new();
    assert_eq!(gate.update(true), GateAction::StartAndHold);
}

#[test]
fn gate_repeated_high_is_a_no_op() {
    let mut gate = AudioGate::new();
    assert_eq!(gate.update(true), GateAction::StartAndHold);
    assert_eq!(gate.update(true), GateAction::Stay);
    assert_eq!(gate.update(true), GateAction::Stay);
}

#[test]
fn gate_stops_on_low() {
    let mut gate = AudioGate::new();
    gate.update(true);
    assert_eq!(gate.update(false), GateAction::Stop);
}

#[test]
fn gate_stop_is_idempotent() {
    let mut gate = AudioGate::new();
    assert_eq!(gate.update(false), GateAction::Stop);
    assert_eq!(gate.update(false), GateAction::Stop);
}

#[test]
fn gate_restarts_after_a_low() {
    let mut gate = AudioGate::new();
    gate.update(true);
    gate.update(false);
    assert_eq!(gate.update(true), GateAction::StartAndHold);
}

#[test]
fn hold_delay_is_fifty_milliseconds() {
    assert_eq!(HOLD_MILLIS, 50);
}
