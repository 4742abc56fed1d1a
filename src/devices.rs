//! MIDI messages for the external gear that the device controls.
use vstd::prelude::*;

pub mod pedalboard_audio;
pub mod pedalboardaudio;
pub mod plethora;
pub mod rc500;


verus! {

/// Messages that one input event may produce.
pub const MAX_MIDI_MESSAGES: usize = 8;

/// A channel number limited to the sixteen MIDI channels (0 to 15).
pub open spec fn channel_of(v: u8) -> u8 {
    if v > 15 {
        15
    } else {
        v
    }
}

/// A data byte limited to seven bits.
pub open spec fn seven_bit(v: u8) -> u8 {
    if v > 127 {
        127
    } else {
        v
    }
}

/// A channel number limited to the sixteen MIDI channels (0 to 15).
pub fn channel(v: u8) -> (r: u8)
    ensures
        r == channel_of(v),
{
    if v > 15 {
        15
    } else {
        v
    }
}

/// A data byte limited to seven bits.
pub fn value7(v: u8) -> (r: u8)
    ensures
        r == seven_bit(v),
{
    if v > 127 {
        127
    } else {
        v
    }
}

/// A MIDI channel message sent to external gear.
#[derive(Clone, Copy, Debug, PartialEq, Eq, Structural)]
pub enum MidiMessage {
    /// Channel, controller and value.
    ControlChange(u8, u8, u8),
    /// Channel and program.
    ProgramChange(u8, u8),
    /// Channel, note and velocity.
    NoteOff(u8, u8, u8),
}

/// A note off with every field limited to its range.
pub open spec fn note_off(ch: u8, note: u8, velocity: u8) -> MidiMessage {
    MidiMessage::NoteOff(channel_of(ch), seven_bit(note), seven_bit(velocity))
}

/// A note off with every field limited to its range.
pub fn note_off_message(ch: u8, note: u8, velocity: u8) -> (r: MidiMessage)
    ensures
        r == note_off(ch, note, velocity),
{
    MidiMessage::NoteOff(channel(ch), value7(note), value7(velocity))
}

/// A control change with every field limited to its range.
pub open spec fn cc(ch: u8, control: u8, value: u8) -> MidiMessage {
    MidiMessage::ControlChange(channel_of(ch), seven_bit(control), seven_bit(value))
}

/// A program change with every field limited to its range.
pub open spec fn pc(ch: u8, program: u8) -> MidiMessage {
    MidiMessage::ProgramChange(channel_of(ch), seven_bit(program))
}

/// A control change with every field limited to its range.
pub fn control_change_message(ch: u8, control: u8, value: u8) -> (r: MidiMessage)
    ensures
        r == cc(ch, control, value),
{
    MidiMessage::ControlChange(channel(ch), value7(control), value7(value))
}

/// A program change with every field limited to its range.
pub fn program_change_message(ch: u8, program: u8) -> (r: MidiMessage)
    ensures
        r == pc(ch, program),
{
    MidiMessage::ProgramChange(channel(ch), value7(program))
}

/// The MIDI messages produced for one event, at most [`MAX_MIDI_MESSAGES`].
#[derive(Debug)]
pub struct MidiMessages {
    messages: Vec<MidiMessage>,
}

impl View for MidiMessages {
    type V = Seq<MidiMessage>;

    closed spec fn view(&self) -> Seq<MidiMessage> {
        self.messages@
    }
}

impl MidiMessages {
    /// Within capacity.
    pub closed spec fn wf(&self) -> bool {
        self.messages@.len() <= MAX_MIDI_MESSAGES
    }

    /// No messages.
    pub fn none() -> (r: MidiMessages)
        ensures
            r@ == Seq::<MidiMessage>::empty(),
            r.wf(),
    {
        MidiMessages { messages: Vec::new() }
    }

    /// Appends a message; when the list is full the message is dropped.
    pub fn push(&mut self, a: MidiMessage)
        requires
            old(self).wf(),
        ensures
            final(self).wf(),
            final(self)@ == if old(self)@.len() < MAX_MIDI_MESSAGES {
                old(self)@.push(a)
            } else {
                old(self)@
            },
    {
        if self.messages.len() < MAX_MIDI_MESSAGES {
            self.messages.push(a);
        }
    }

    /// Removes every message.
    pub fn clear(&mut self)
        ensures
            final(self)@ == Seq::<MidiMessage>::empty(),
            final(self).wf(),
    {
        self.messages.clear();
    }

    /// The messages, in the order they were pushed.
    pub fn messages(self) -> (r: Vec<MidiMessage>)
        ensures
            r@ == self@,
    {
        self.messages
    }

    /// Whether there are no messages.
    pub fn is_empty(&self) -> (r: bool)
        ensures
            r == (self@.len() == 0),
    {
        self.messages.len() == 0
    }
}

/// One way or the other through a list.
#[derive(Clone, Copy, Debug, PartialEq, Eq, Structural)]
pub enum Direction {
    Up,
    Down,
}

} // verus!
