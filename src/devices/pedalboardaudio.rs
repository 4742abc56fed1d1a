//! The audio processor of the pedalboard, driven by explicit bypass states.
use vstd::prelude::*;

use crate::devices::{cc, control_change_message, MidiMessage, MidiMessages};

verus! {

/// MIDI channel of the audio processor.
pub const CHANNEL: u8 = 2;

/// Controller of the output level.
pub const OUTPUT_LEVEL_CONTROL: u8 = 100;

/// The audio processor of the pedalboard.
pub struct PedalboardAudio {}

/// What to ask of the audio processor.
#[derive(Clone, Copy, Debug, PartialEq, Eq, Structural)]
pub enum PAAction {
    /// Set the output level (7-bit).
    OutputLevel(u8),
    /// Bypass (`true`) or engage (`false`) the processor behind a controller.
    BypassProcessor(u8, bool),
}

/// The messages for an action: a bypassed processor gets 0, an engaged one 127.
pub open spec fn pa_messages(act: PAAction) -> Seq<MidiMessage> {
    match act {
        PAAction::OutputLevel(v) => seq![cc(CHANNEL, OUTPUT_LEVEL_CONTROL, v)],
        PAAction::BypassProcessor(control, true) => seq![cc(CHANNEL, control, 0)],
        PAAction::BypassProcessor(control, false) => seq![cc(CHANNEL, control, 127)],
    }
}

/// One control change on the processor's channel.
fn control_change(control: u8, value: u8) -> (r: MidiMessages)
    ensures
        r@ == seq![cc(CHANNEL, control, value)],
        r.wf(),
{
    let mut messages = MidiMessages::none();
    messages.push(control_change_message(CHANNEL, control, value));
    messages
}

impl PedalboardAudio {
    pub fn new() -> (r: PedalboardAudio) {
        PedalboardAudio {  }
    }

    /// The messages that carry out an action.
    pub fn midi_messages(&mut self, act: PAAction) -> (r: MidiMessages)
        ensures
            r@ == pa_messages(act),
            r.wf(),
    {
        match act {
            PAAction::OutputLevel(value) => control_change(OUTPUT_LEVEL_CONTROL, value),
            PAAction::BypassProcessor(control, true) => control_change(control, 0),
            PAAction::BypassProcessor(control, false) => control_change(control, 127),
        }
    }
}

impl Default for PedalboardAudio {
    fn default() -> (r: PedalboardAudio) {
        PedalboardAudio::new()
    }
}

} // verus!
