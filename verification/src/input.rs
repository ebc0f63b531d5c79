//! The input-edge translator: one frame's raw events become level-set
//! commands for the engine's keypad, and a quit request or the exit key
//! halts processing on the spot.

use vstd::prelude::*;
use crate::keymap::Key;
use crate::keymap::key_index;
use crate::keymap::lookup;

verus! {

/// A raw input event as the surrounding program hands it in.
#[derive(Clone, Copy, Debug, PartialEq, Eq, Structural)]
pub enum InputEvent {
    /// The window system asks the program to quit.
    Quit,
    /// A physical key went down.
    KeyDown(Key),
    /// A physical key came up.
    KeyUp(Key),
    /// Any other event; ignored.
    Other,
}

/// A level-set command for the engine's keypad: hold line `index` at
/// `pressed` until countermanded.
#[derive(Clone, Copy, Debug, PartialEq, Eq, Structural)]
pub struct KeyCommand {
    pub index: u8,
    pub pressed: bool,
}

/// What one frame's input processing decided.
pub struct InputOutcome {
    /// False as soon as a quit request or the exit key was seen.
    pub running: bool,
    /// The keypad commands for the events before any exit, in order.
    pub commands: Vec<KeyCommand>,
}

/// An event that ends the program: a quit request, or the exit key going
/// down. This check dominates all others.
pub open spec fn is_exit(e: InputEvent) -> bool {
    e == InputEvent::Quit || e == InputEvent::KeyDown(Key::Escape)
}

/// The keypad command a single event stands for, if any: a mapped key going
/// down presses its line, coming up releases it, everything else is ignored.
pub open spec fn event_command(e: InputEvent) -> Option<KeyCommand> {
    match e {
        InputEvent::KeyDown(k) => match key_index(k) {
            Some(i) => Some(KeyCommand { index: i, pressed: true }),
            None => None,
        },
        InputEvent::KeyUp(k) => match key_index(k) {
            Some(i) => Some(KeyCommand { index: i, pressed: false }),
            None => None,
        },
        _ => None,
    }
}

/// Whether the frame's events hold an exit event anywhere.
pub open spec fn has_exit(es: Seq<InputEvent>) -> bool {
    exists|i: int| 0 <= i < es.len() && is_exit(#[trigger] es[i])
}

/// The keypad commands of a frame's events, in order, up to but not
/// including the first exit event.
pub open spec fn commands_of(es: Seq<InputEvent>) -> Seq<KeyCommand>
    decreases es.len(),
{
    if es.len() == 0 {
        Seq::empty()
    } else if is_exit(es[0]) {
        Seq::empty()
    } else {
        match event_command(es[0]) {
            Some(c) => seq![c] + commands_of(es.drop_first()),
            None => commands_of(es.drop_first()),
        }
    }
}

/// Appending one event to an exit-free frame extends its commands by that
/// event's command, if it has one.
pub proof fn lemma_commands_of_push(es: Seq<InputEvent>, e: InputEvent)
    requires
        !has_exit(es),
    ensures
        commands_of(es.push(e)) == (match event_command(e) {
            Some(c) => commands_of(es).push(c),
            None => commands_of(es),
        }),
    decreases es.len(),
{
    if es.len() == 0 {
        assert(es.push(e)[0] == e);
        assert(es.push(e).drop_first() =~= Seq::<InputEvent>::empty());
        assert(commands_of(es.push(e).drop_first()) =~= Seq::<KeyCommand>::empty());
        assert(commands_of(es) =~= Seq::<KeyCommand>::empty());
        if !is_exit(e) {
            match event_command(e) {
                Some(c) => {
                    assert(commands_of(es.push(e)) =~= commands_of(es).push(c));
                }
                None => {
                    assert(commands_of(es.push(e)) =~= commands_of(es));
                }
            }
        } else {
            // the exit event contributes no command either way
            assert(event_command(e) is None);
            assert(commands_of(es.push(e)) =~= commands_of(es));
        }
    } else {
        assert(!is_exit(es[0]));
        assert(es.push(e)[0] == es[0]);
        assert(es.push(e).drop_first() =~= es.drop_first().push(e));
        assert(!has_exit(es.drop_first())) by {
            assert forall|j: int| 0 <= j < es.drop_first().len() implies !is_exit(
                #[trigger] es.drop_first()[j],
            ) by {
                assert(es.drop_first()[j] == es[j + 1]);
            }
        }
        lemma_commands_of_push(es.drop_first(), e);
        match event_command(es[0]) {
            Some(c) => {
                match event_command(e) {
                    Some(c2) => {
                        assert(commands_of(es.push(e)) =~= commands_of(es).push(c2));
                    }
                    None => {}
                }
            }
            None => {}
        }
    }
}

/// Events at or after the first exit event contribute no commands.
pub proof fn lemma_commands_of_stops(es: Seq<InputEvent>, i: int)
    requires
        0 <= i < es.len(),
        is_exit(es[i]),
        !has_exit(es.take(i)),
    ensures
        commands_of(es) == commands_of(es.take(i)),
    decreases i,
{
    if i == 0 {
        assert(es.take(0) =~= Seq::<InputEvent>::empty());
    } else {
        assert(!is_exit(es[0])) by {
            assert(es.take(i)[0] == es[0]);
        }
        assert(es.drop_first()[i - 1] == es[i]);
        assert(!has_exit(es.drop_first().take(i - 1))) by {
            assert forall|j: int| 0 <= j < i - 1 implies !is_exit(
                #[trigger] es.drop_first().take(i - 1)[j],
            ) by {
                assert(es.drop_first().take(i - 1)[j] == es.take(i)[j + 1]);
            }
        }
        lemma_commands_of_stops(es.drop_first(), i - 1);
        assert(es.take(i)[0] == es[0]);
        assert(es.take(i).drop_first() =~= es.drop_first().take(i - 1));
    }
}

/// The engine's keypad, modelled as sixteen pressed levels, after one
/// level-set command.
pub open spec fn apply_command(keys: Seq<bool>, c: KeyCommand) -> Seq<bool> {
    keys.update(c.index as int, c.pressed)
}

/// A key-down command for an already-pressed key (and likewise a key-up for
/// an already-released one) leaves the keypad state unchanged: commands set
/// levels, they do not pulse.
pub proof fn lemma_command_idempotent(keys: Seq<bool>, c: KeyCommand)
    requires
        (c.index as int) < keys.len(),
        keys[c.index as int] == c.pressed,
    ensures
        apply_command(keys, c) == keys,
{
    assert(apply_command(keys, c) =~= keys);
}

/// Applying the same level-set command twice is the same as applying it
/// once: a repeated key-down is harmless.
pub proof fn lemma_command_repeat(keys: Seq<bool>, c: KeyCommand)
    requires
        (c.index as int) < keys.len(),
    ensures
        apply_command(apply_command(keys, c), c) == apply_command(keys, c),
{
    assert(apply_command(apply_command(keys, c), c) =~= apply_command(keys, c));
}

/// Processes one frame's events in order. A quit request or the exit key
/// going down halts processing at once; before that, each mapped key event
/// becomes a level-set command for the engine's keypad, and unmapped or
/// other events are ignored.
pub fn process_events(events: &Vec<InputEvent>) -> (out: InputOutcome)
    ensures
        out.running == !has_exit(events@),
        out.commands@ == commands_of(events@),
{
    let mut commands: Vec<KeyCommand> = Vec::new();
    let mut i: usize = 0;
    while i < events.len()
        invariant
            i <= events@.len(),
            !has_exit(events@.take(i as int)),
            commands@ == commands_of(events@.take(i as int)),
        decreases events@.len() - i,
    {
        let e = events[i];
        if e == InputEvent::Quit || e == InputEvent::KeyDown(Key::Escape) {
            proof {
                assert(is_exit(events@[i as int]));
                lemma_commands_of_stops(events@, i as int);
            }
            return InputOutcome { running: false, commands };
        }
        match e {
            InputEvent::KeyDown(k) => {
                if let Some(idx) = lookup(k) {
                    commands.push(KeyCommand { index: idx, pressed: true });
                }
            }
            InputEvent::KeyUp(k) => {
                if let Some(idx) = lookup(k) {
                    commands.push(KeyCommand { index: idx, pressed: false });
                }
            }
            _ => {}
        }
        proof {
            lemma_commands_of_push(events@.take(i as int), events@[i as int]);
            assert(events@.take(i as int + 1) =~= events@.take(i as int).push(events@[i as int]));
            assert(!has_exit(events@.take(i as int + 1))) by {
                assert forall|j: int| 0 <= j < i as int + 1 implies !is_exit(
                    #[trigger] events@.take(i as int + 1)[j],
                ) by {
                    if j < i as int {
                        assert(events@.take(i as int + 1)[j] == events@.take(i as int)[j]);
                    } else {
                        assert(events@.take(i as int + 1)[j] == events@[i as int]);
                    }
                }
            }
        }
        i += 1;
    }
    proof {
        assert(events@.take(events@.len() as int) =~= events@);
    }
    InputOutcome { running: true, commands }
}

} // verus!
