//! The tone gate: a level-triggered controller that starts and stops
//! continuous tone output from the machine's polled audio flag, holding a
//! freshly started tone for a short fixed delay so that very short sound
//! pulses stay audible.

use vstd::prelude::*;

verus! {

/// How long the caller must hold a freshly started tone before going on,
/// in milliseconds.
pub const HOLD_MILLIS: u64 = 50;

/// What the caller must do to the tone device after an update.
#[derive(Clone, Copy, Debug, PartialEq, Eq, Structural)]
pub enum GateAction {
    /// Start tone output, then hold for `HOLD_MILLIS` before going on.
    StartAndHold,
    /// Stop tone output; harmless if it is already stopped.
    Stop,
    /// Leave the tone device as it is.
    Stay,
}

/// One update of the tone controller: what `active` becomes, and what the
/// caller must do to the tone device, for a given flag value. Level-triggered:
/// only a rising edge starts the tone (and holds), a high level
/// thereafter is a no-op, and a low level always stops.
pub open spec fn gate_step(active: bool, flag: bool) -> (bool, GateAction) {
    if flag && !active {
        (true, GateAction::StartAndHold)
    } else if flag {
        (active, GateAction::Stay)
    } else {
        (false, GateAction::Stop)
    }
}

/// The tone controller's state: `active` is true while the tone device is
/// producing output. At most one tone-producing state exists at a time.
pub struct AudioGate {
    active: bool,
}

impl AudioGate {
    /// Whether the tone device is currently producing output.
    pub closed spec fn is_active(self) -> bool {
        self.active
    }

    /// A fresh gate: the tone device starts silent.
    pub fn new() -> (g: AudioGate)
        ensures
            !g.is_active(),
    {
        AudioGate { active: false }
    }

    /// Feeds one frame's audio flag into the controller; the result tells
    /// the caller what to do to the tone device.
    pub fn update(&mut self, flag: bool) -> (action: GateAction)
        ensures
            final(self).is_active() == gate_step(old(self).is_active(), flag).0,
            action == gate_step(old(self).is_active(), flag).1,
            final(self).is_active() == flag,
    {
        if flag {
            if !self.active {
                self.active = true;
                GateAction::StartAndHold
            } else {
                GateAction::Stay
            }
        } else {
            self.active = false;
            GateAction::Stop
        }
    }
}

/// Debouncing law: from inactive, a true flag makes the controller active
/// with a held tone start; an immediately repeated true flag is a no-op
/// with no further hold.
pub proof fn lemma_gate_debounce(active: bool)
    requires
        !active,
    ensures
        gate_step(active, true) == (true, GateAction::StartAndHold),
        gate_step(gate_step(active, true).0, true) == (true, GateAction::Stay),
{
}

} // verus!
