//! The audio processor of the pedalboard, with the bypass state of each
//! processor kept here and toggled on request.
use vstd::prelude::*;

use crate::devices::{cc, control_change_message, MidiMessage, MidiMessages};

verus! {

/// MIDI channel of the audio processor.
pub const CHANNEL: u8 = 2;

/// Controller of the output level.
pub const OUTPUT_LEVEL_CONTROL: u8 = 100;

/// Processors whose bypass state is kept.
pub const MAX_PROCESSORS: usize = 10;

/// The audio processor of the pedalboard.
pub struct PedalboardAudio {
    bypass_status: [bool; MAX_PROCESSORS],
}

impl View for PedalboardAudio {
    type V = Seq<bool>;

    /// Whether each processor is bypassed.
    closed spec fn view(&self) -> Seq<bool> {
        self.bypass_status@
    }
}

/// What to ask of the audio processor.
#[derive(Clone, Copy, Debug, PartialEq, Eq, Structural)]
pub enum PAAction {
    /// Set the output level (7-bit).
    OutputLevel(u8),
    /// Toggle the bypass of a processor (numbers wrap at [`MAX_PROCESSORS`]).
    BypassProcessor(u8),
}

/// Bypass states and messages after an action. Toggling a bypass sends 0
/// when the processor becomes bypassed and 127 when it is engaged again.
pub open spec fn pa_step(bypass: Seq<bool>, act: PAAction) -> (Seq<bool>, Seq<MidiMessage>) {
    match act {
        PAAction::OutputLevel(v) => (bypass, seq![cc(CHANNEL, OUTPUT_LEVEL_CONTROL, v)]),
        PAAction::BypassProcessor(p) => {
            let i = p as int % MAX_PROCESSORS as int;
            let bypassed = !bypass[i];
            (
                bypass.update(i, bypassed),
                seq![cc(CHANNEL, i as u8, if bypassed { 0 } else { 127 })],
            )
        },
    }
}

/// One control change on the processor's channel.
fn control_change(control: u8, value: u8) -> (r: MidiMessages)
    ensures
        r@ == seq![cc(CHANNEL, control, value)],
        r.wf(),
{
    let mut messages = MidiMessages::none();
    messages.push(control_change_message(CHANNEL, control, value));
    messages
}

impl PedalboardAudio {
    /// No processor bypassed.
    pub fn new() -> (r: PedalboardAudio)
        ensures
            r@ == Seq::new(MAX_PROCESSORS as nat, |i: int| false),
            r@.len() == MAX_PROCESSORS,
    {
        let r = PedalboardAudio { bypass_status: [false; MAX_PROCESSORS] };
        assert(r@ =~= Seq::new(MAX_PROCESSORS as nat, |i: int| false));
        r
    }

    /// The messages that carry out an action, see [`pa_step`].
    pub fn midi_messages(&mut self, act: PAAction) -> (r: MidiMessages)
        ensures
            r.wf(),
            (final(self)@, r@) == pa_step(old(self)@, act),
            final(self)@.len() == MAX_PROCESSORS,
    {
        match act {
            PAAction::OutputLevel(value) => control_change(OUTPUT_LEVEL_CONTROL, value),
            PAAction::BypassProcessor(processor) => {
                let i = (processor as usize) % MAX_PROCESSORS;
                self.bypass_status[i] = !self.bypass_status[i];
                let value: u8 = if self.bypass_status[i] {
                    0
                } else {
                    127
                };
                control_change(i as u8, value)
            },
        }
    }
}

impl Default for PedalboardAudio {
    /// No processor bypassed.
    fn default() -> (r: PedalboardAudio)
        ensures
            r@ == Seq::new(MAX_PROCESSORS as nat, |i: int| false),
    {
        PedalboardAudio::new()
    }
}

} // verus!
