//! The synchronization loop: per displayed frame it drains the pending
//! input, orders a fixed number of machine steps plus one timer advance,
//! drives the tone gate from the machine's audio flag, and lays the
//! framebuffer out as rectangles. The surrounding program carries the
//! orders out against the engine, the tone device and the display, and
//! blocks until the next frame boundary.

use vstd::prelude::*;
use crate::gate::AudioGate;
use crate::gate::GateAction;
use crate::gate::gate_step;
use crate::input::InputEvent;
use crate::input::KeyCommand;
use crate::input::commands_of;
use crate::input::has_exit;
use crate::input::process_events;
use crate::present::DISPLAY_HEIGHT;
use crate::present::DISPLAY_WIDTH;
use crate::present::RectSpec;
use crate::present::rects_of;
use crate::present::render_rects;

verus! {

/// Logical machine steps per displayed frame: decouples the machine's
/// instruction rate from the display refresh rate.
pub const STEPS_PER_FRAME: usize = 10;

/// One engine operation the loop orders for a frame.
#[derive(Clone, Copy, Debug, PartialEq, Eq, Structural)]
pub enum EngineAction {
    /// Execute exactly one machine instruction.
    Step,
    /// Decrement the delay and sound timers by one tick each, floored at
    /// zero.
    AdvanceTimers,
}

/// The engine work of one running frame: exactly STEPS_PER_FRAME steps,
/// then exactly one timer advance.
pub open spec fn frame_actions() -> Seq<EngineAction> {
    Seq::new(STEPS_PER_FRAME as nat, |i: int| EngineAction::Step).push(
        EngineAction::AdvanceTimers,
    )
}

/// A running frame orders exactly STEPS_PER_FRAME machine steps and exactly
/// one timer advance, whatever the frame's input volume.
pub proof fn lemma_frame_actions_shape()
    ensures
        frame_actions().len() == STEPS_PER_FRAME + 1,
        forall|i: int|
            0 <= i < STEPS_PER_FRAME ==> #[trigger] frame_actions()[i] == EngineAction::Step,
        frame_actions()[STEPS_PER_FRAME as int] == EngineAction::AdvanceTimers,
{
}

/// What the loop decided for the first half of a frame: the keypad
/// commands the drained events stand for, then the engine work to run.
pub struct FramePlan {
    /// Level-set keypad commands, in event order, up to any exit event.
    pub commands: Vec<KeyCommand>,
    /// The engine operations to carry out, in order; empty when the loop
    /// stopped this frame.
    pub actions: Vec<EngineAction>,
}

/// What the loop decided for the second half of a frame.
pub struct FrameOutput {
    /// What to do to the tone device.
    pub gate_action: GateAction,
    /// The filled rectangles of the composed frame.
    pub rects: Vec<RectSpec>,
}

/// The loop's own state: whether it is still running, and the tone gate it
/// drives. `Stopped` (running == false) is terminal.
pub struct SyncLoop {
    running: bool,
    gate: AudioGate,
}

impl SyncLoop {
    /// Whether the loop is still in its `Running` state.
    pub closed spec fn is_running(self) -> bool {
        self.running
    }

    /// Whether the tone device is currently producing output.
    pub closed spec fn gate_active(self) -> bool {
        self.gate.is_active()
    }

    /// Whether the loop is still running, for the caller's own control
    /// flow: once false, no further frame may be opened.
    pub fn running(&self) -> (r: bool)
        ensures
            r == self.is_running(),
    {
        self.running
    }

    /// A fresh loop: running, with the tone silent.
    pub fn new() -> (s: SyncLoop)
        ensures
            s.is_running(),
            !s.gate_active(),
    {
        SyncLoop { running: true, gate: AudioGate::new() }
    }

    /// Opens a frame: drains the frame's events into keypad commands and
    /// orders the engine work. A quit request or the exit key stops the
    /// loop at once: later events are not translated and no engine work at
    /// all is ordered that frame; otherwise the plan is exactly
    /// STEPS_PER_FRAME steps followed by one timer advance.
    pub fn begin_frame(&mut self, events: &Vec<InputEvent>) -> (plan: FramePlan)
        requires
            old(self).is_running(),
        ensures
            final(self).is_running() == !has_exit(events@),
            final(self).gate_active() == old(self).gate_active(),
            plan.commands@ == commands_of(events@),
            final(self).is_running() ==> plan.actions@ == frame_actions(),
            !final(self).is_running() ==> plan.actions@ == Seq::<EngineAction>::empty(),
    {
        let outcome = process_events(events);
        let mut actions: Vec<EngineAction> = Vec::new();
        if !outcome.running {
            self.running = false;
            return FramePlan { commands: outcome.commands, actions };
        }
        let mut i: usize = 0;
        while i < STEPS_PER_FRAME
            invariant
                i <= STEPS_PER_FRAME,
                actions@ =~= Seq::new(i as nat, |j: int| EngineAction::Step),
            decreases STEPS_PER_FRAME - i,
        {
            actions.push(EngineAction::Step);
            i += 1;
        }
        actions.push(EngineAction::AdvanceTimers);
        proof {
            assert(actions@ =~= frame_actions());
        }
        FramePlan { commands: outcome.commands, actions }
    }

    /// Closes a running frame once the ordered engine work is done: drives
    /// the tone gate from the machine's audio flag and lays the queried
    /// framebuffer out as one rectangle per lit cell. The caller then acts
    /// on the tone device, draws and presents the frame, and waits for the
    /// next frame boundary.
    pub fn finish_frame(&mut self, audio_flag: bool, buffer: &Vec<bool>) -> (out: FrameOutput)
        requires
            old(self).is_running(),
            buffer@.len() == DISPLAY_WIDTH * DISPLAY_HEIGHT,
        ensures
            final(self).is_running(),
            final(self).gate_active() == gate_step(old(self).gate_active(), audio_flag).0,
            out.gate_action == gate_step(old(self).gate_active(), audio_flag).1,
            out.rects@ == rects_of(buffer@),
    {
        let gate_action = self.gate.update(audio_flag);
        let rects = render_rects(buffer);
        FrameOutput { gate_action, rects }
    }
}

} // verus!
