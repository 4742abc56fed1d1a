//! The Plethora multi-effect board.
use vstd::prelude::*;

use crate::devices::{
    cc, control_change_message, pc, program_change_message, Direction, MidiMessage, MidiMessages,
};

verus! {

/// MIDI channel of the board.
pub const PLETHORA_CHANNEL: u8 = 1;

/// What to ask of the board.
#[derive(Clone, Copy, Debug, PartialEq, Eq, Structural)]
pub enum PlethoraAction {
    /// Go to a board, counted from 1.
    GoToBoard(u8),
    /// Go to the next or the previous board.
    Board(Direction),
    /// Turn a hot knob, counted from 0, to a 7-bit value.
    HotKnob(u8, u8),
}

/// Board numbers start at 1; hot knob controllers must not pass 255.
pub open spec fn plethora_action_ok(act: PlethoraAction) -> bool {
    match act {
        PlethoraAction::GoToBoard(nr) => nr >= 1,
        PlethoraAction::HotKnob(nr, _) => nr <= 149,
        _ => true,
    }
}

/// The messages for an action: a board change clears controllers 102 to 104
/// and then selects the board's program.
pub open spec fn plethora_messages(act: PlethoraAction) -> Seq<MidiMessage> {
    match act {
        PlethoraAction::Board(Direction::Up) => seq![cc(PLETHORA_CHANNEL, 95, 127)],
        PlethoraAction::Board(Direction::Down) => seq![cc(PLETHORA_CHANNEL, 94, 127)],
        PlethoraAction::GoToBoard(nr) => seq![
            cc(PLETHORA_CHANNEL, 102, 0),
            cc(PLETHORA_CHANNEL, 103, 0),
            cc(PLETHORA_CHANNEL, 104, 0),
            pc(PLETHORA_CHANNEL, (nr - 1) as u8),
        ],
        PlethoraAction::HotKnob(nr, value) => seq![cc(PLETHORA_CHANNEL, (106 + nr) as u8, value)],
    }
}

/// The Plethora board.
pub struct Plethora {}

impl Plethora {
    /// The messages that carry out an action.
    pub fn midi_messages(&self, act: PlethoraAction) -> (r: MidiMessages)
        requires
            plethora_action_ok(act),
        ensures
            r@ == plethora_messages(act),
            r.wf(),
    {
        let mut messages: MidiMessages = MidiMessages::none();
        match act {
            PlethoraAction::Board(dir) => match dir {
                Direction::Up => {
                    messages.push(control_change_message(PLETHORA_CHANNEL, 95, 127));
                },
                Direction::Down => {
                    messages.push(control_change_message(PLETHORA_CHANNEL, 94, 127));
                },
            },
            PlethoraAction::GoToBoard(nr) => {
                messages.push(control_change_message(PLETHORA_CHANNEL, 102, 0));
                messages.push(control_change_message(PLETHORA_CHANNEL, 103, 0));
                messages.push(control_change_message(PLETHORA_CHANNEL, 104, 0));
                messages.push(program_change_message(PLETHORA_CHANNEL, nr - 1));
            },
            PlethoraAction::HotKnob(nr, value) => {
                messages.push(control_change_message(PLETHORA_CHANNEL, 106 + nr, value));
            },
        }
        messages
    }
}

} // verus!
