//! The RC-500 loop station.
use vstd::prelude::*;

use crate::devices::{
    cc, control_change_message, pc, program_change_message, Direction, MidiMessage, MidiMessages,
};

verus! {

/// MIDI channel of the loop station.
pub const RC500_CHANNEL: u8 = 0;

/// Value that presses a controller button.
pub const MAX_VALUE: u8 = 127;

/// Value that releases a controller button.
pub const MIN_VALUE: u8 = 1;

/// Controller that selects the drum kit.
pub const DRUMKIT_CONTROL: u8 = 8;

/// Controller that selects the rhythm pattern.
pub const PATTERN_CONTROL: u8 = 7;

/// Number of rhythm patterns.
pub const NR_PATTERNS: usize = 58;

/// Number of drum kits.
pub const NR_DRUMKITS: usize = 16;

/// Controller values of the rhythm patterns, in order.
pub open spec fn pattern_values() -> Seq<u8> {
    seq![
        0u8, 2, 4, 6, 8, 11, 13, 15, 17, 19, 22, 24, 26, 28, 31, 33, 35, 37, 39, 42, 44, 46,
        48, 51, 53, 55, 57, 60, 62, 64, 66, 68, 71, 73, 75, 77, 80, 82, 84, 86, 89, 91, 93, 95,
        97, 100, 102, 104, 106, 109, 111, 113, 115, 117, 120, 122, 124, 126,
    ]
}

/// Controller values of the drum kits, in order.
pub open spec fn drumkit_values() -> Seq<u8> {
    seq![
        0u8, 8, 17, 26, 35, 43, 51, 59, 68, 76, 85, 94, 102, 110, 118, 126,
    ]
}

/// Controller values of the rhythm patterns, in order.
pub fn patterns() -> (r: [u8; NR_PATTERNS])
    ensures
        r@ == pattern_values(),
{
    let r: [u8; NR_PATTERNS] = [
        0, 2, 4, 6, 8, 11, 13, 15, 17, 19, 22, 24, 26, 28, 31, 33, 35, 37, 39, 42, 44, 46, 48,
        51, 53, 55, 57, 60, 62, 64, 66, 68, 71, 73, 75, 77, 80, 82, 84, 86, 89, 91, 93, 95, 97,
        100, 102, 104, 106, 109, 111, 113, 115, 117, 120, 122, 124, 126,
    ];
    assert(r@ =~= pattern_values());
    r
}

/// Controller values of the drum kits, in order.
pub fn drumkits() -> (r: [u8; NR_DRUMKITS])
    ensures
        r@ == drumkit_values(),
{
    let r: [u8; NR_DRUMKITS] = [
        0, 8, 17, 26, 35, 43, 51, 59, 68, 76, 85, 94, 102, 110, 118, 126,
    ];
    assert(r@ =~= drumkit_values());
    r
}

/// The position after a step up: the next one, or the first after the last.
pub open spec fn step_up(current: int, len: int) -> int {
    if current < len - 1 {
        current + 1
    } else {
        0
    }
}

/// The position after a step down: the previous one, or the last before the
/// first.
pub open spec fn step_down(current: int, len: int) -> int {
    if current > 0 {
        current - 1
    } else {
        len - 1
    }
}

/// The position after a step in a direction.
pub open spec fn step(current: int, len: int, dir: Direction) -> int {
    match dir {
        Direction::Up => step_up(current, len),
        Direction::Down => step_down(current, len),
    }
}

/// The message that selects the value at a position, if there is one.
pub open spec fn select_messages(current: int, control: u8, values: Seq<u8>) -> Seq<MidiMessage> {
    if 0 <= current < values.len() {
        seq![cc(RC500_CHANNEL, control, values[current])]
    } else {
        seq![]
    }
}

/// A position in a list of controller values that can be moved both ways,
/// wrapping at the ends.
pub struct BidirectionalIterator {
    current: usize,
    control: u8,
}

impl BidirectionalIterator {
    /// The position, and the controller that the values are sent on.
    pub closed spec fn position(&self) -> int {
        self.current as int
    }

    pub closed spec fn control_spec(&self) -> u8 {
        self.control
    }

    /// At the first position.
    pub fn new(control: u8) -> (r: BidirectionalIterator)
        ensures
            r.position() == 0,
            r.control_spec() == control,
    {
        BidirectionalIterator { current: 0, control }
    }

    /// Moves one step and selects the value there.
    pub fn go(&mut self, values: &[u8], dir: Direction) -> (r: MidiMessages)
        requires
            values@.len() >= 1,
            old(self).position() < values@.len(),
        ensures
            final(self).position() == step(old(self).position(), values@.len() as int, dir),
            final(self).control_spec() == old(self).control_spec(),
            final(self).position() < values@.len(),
            r@ == select_messages(final(self).position(), old(self).control_spec(), values@),
            r.wf(),
    {
        match dir {
            Direction::Up => self.up(values),
            Direction::Down => self.down(values),
        }
    }

    /// Moves one step up and selects the value there.
    pub fn up(&mut self, values: &[u8]) -> (r: MidiMessages)
        requires
            values@.len() >= 1,
            old(self).position() < values@.len(),
        ensures
            final(self).position() == step_up(old(self).position(), values@.len() as int),
            final(self).control_spec() == old(self).control_spec(),
            final(self).position() < values@.len(),
            r@ == select_messages(final(self).position(), old(self).control_spec(), values@),
            r.wf(),
    {
        if self.current < values.len() - 1 {
            self.current += 1;
        } else {
            self.current = 0
        }
        self.current(values)
    }

    /// Moves one step down and selects the value there.
    pub fn down(&mut self, values: &[u8]) -> (r: MidiMessages)
        requires
            values@.len() >= 1,
            old(self).position() < values@.len(),
        ensures
            final(self).position() == step_down(old(self).position(), values@.len() as int),
            final(self).control_spec() == old(self).control_spec(),
            final(self).position() < values@.len(),
            r@ == select_messages(final(self).position(), old(self).control_spec(), values@),
            r.wf(),
    {
        if self.current > 0 {
            self.current -= 1;
        } else {
            self.current = values.len() - 1
        }
        self.current(values)
    }

    /// Selects the value at the current position, if there is one.
    pub fn current(&self, values: &[u8]) -> (r: MidiMessages)
        ensures
            r@ == select_messages(self.position(), self.control_spec(), values@),
            r.wf(),
    {
        if self.current < values.len() {
            control_change(self.control, values[self.current])
        } else {
            MidiMessages::none()
        }
    }
}

/// What to ask of the loop station.
#[derive(Clone, Copy, Debug, PartialEq, Eq, Structural)]
pub enum RC500Event {
    /// Select a memory, counted from 1.
    Memory(u8),
    Mem(Direction),
    ClearCurrent(),
    ToggleRhythm(),
    /// Set the level of the current channel (7-bit).
    CurrentChannelLevel(u8),
    RhythmVariation(),
    RhythmPattern(Direction),
    DrumKit(Direction),
}

/// The loop station, with the rhythm pattern and drum kit last selected.
pub struct RC500 {
    drumkits: BidirectionalIterator,
    patterns: BidirectionalIterator,
}

/// The selections of an [`RC500`].
pub struct RC500View {
    pub drumkit: int,
    pub pattern: int,
}

impl View for RC500 {
    type V = RC500View;

    closed spec fn view(&self) -> RC500View {
        RC500View { drumkit: self.drumkits.position(), pattern: self.patterns.position() }
    }
}

/// A press and release of a controller button.
pub open spec fn toggle_messages(control: u8) -> Seq<MidiMessage> {
    seq![cc(RC500_CHANNEL, control, MAX_VALUE), cc(RC500_CHANNEL, control, MIN_VALUE)]
}

/// Selections and messages after an event. Stepping through patterns or
/// drum kits wraps at either end and selects the new one.
pub open spec fn rc500_step(v: RC500View, event: RC500Event) -> (RC500View, Seq<MidiMessage>) {
    match event {
        RC500Event::Memory(nr) => (v, seq![pc(RC500_CHANNEL, (nr - 1) as u8)]),
        RC500Event::Mem(Direction::Up) => (v, toggle_messages(1)),
        RC500Event::Mem(Direction::Down) => (v, toggle_messages(2)),
        RC500Event::ClearCurrent() => (v, toggle_messages(3)),
        RC500Event::ToggleRhythm() => (v, toggle_messages(4)),
        RC500Event::RhythmVariation() => (v, toggle_messages(5)),
        RC500Event::CurrentChannelLevel(value) => (v, seq![cc(RC500_CHANNEL, 6, value)]),
        RC500Event::RhythmPattern(dir) => {
            let p = step(v.pattern, NR_PATTERNS as int, dir);
            (
                RC500View { pattern: p, ..v },
                seq![cc(RC500_CHANNEL, PATTERN_CONTROL, pattern_values()[p])],
            )
        },
        RC500Event::DrumKit(dir) => {
            let d = step(v.drumkit, NR_DRUMKITS as int, dir);
            (
                RC500View { drumkit: d, ..v },
                seq![cc(RC500_CHANNEL, DRUMKIT_CONTROL, drumkit_values()[d])],
            )
        },
    }
}

/// Memory numbers start at 1.
pub open spec fn rc500_event_ok(event: RC500Event) -> bool {
    event matches RC500Event::Memory(nr) ==> nr >= 1
}

impl RC500 {
    /// Positions stay within their lists.
    pub closed spec fn wf(&self) -> bool {
        &&& self.drumkits.position() < NR_DRUMKITS
        &&& self.patterns.position() < NR_PATTERNS
        &&& self.drumkits.control_spec() == DRUMKIT_CONTROL
        &&& self.patterns.control_spec() == PATTERN_CONTROL
    }

    /// First drum kit and first pattern.
    pub fn new() -> (r: RC500)
        ensures
            r@ == (RC500View { drumkit: 0, pattern: 0 }),
            r.wf(),
    {
        RC500 {
            drumkits: BidirectionalIterator::new(DRUMKIT_CONTROL),
            patterns: BidirectionalIterator::new(PATTERN_CONTROL),
        }
    }

    /// The messages that carry out an event, see [`rc500_step`].
    pub fn midi_messages(&mut self, event: RC500Event) -> (r: MidiMessages)
        requires
            old(self).wf(),
            rc500_event_ok(event),
        ensures
            final(self).wf(),
            r.wf(),
            (final(self)@, r@) == rc500_step(old(self)@, event),
    {
        match event {
            RC500Event::Memory(nr) => program_change(nr - 1),
            RC500Event::Mem(dir) => match dir {
                Direction::Up => control_toggle(1),
                Direction::Down => control_toggle(2),
            },
            RC500Event::ClearCurrent() => control_toggle(3),
            RC500Event::ToggleRhythm() => control_toggle(4),
            RC500Event::RhythmVariation() => control_toggle(5),
            RC500Event::CurrentChannelLevel(value) => control_change(6, value),
            RC500Event::RhythmPattern(dir) => {
                let values = patterns();
                self.patterns.go(&values, dir)
            },
            RC500Event::DrumKit(dir) => {
                let values = drumkits();
                self.drumkits.go(&values, dir)
            },
        }
    }
}

impl Default for RC500 {
    /// First drum kit and first pattern.
    fn default() -> (r: RC500)
        ensures
            r@ == (RC500View { drumkit: 0, pattern: 0 }),
            r.wf(),
    {
        RC500::new()
    }
}

/// A press and release of a controller button.
fn control_toggle(control: u8) -> (r: MidiMessages)
    ensures
        r@ == toggle_messages(control),
        r.wf(),
{
    let mut messages = MidiMessages::none();
    messages.push(control_change_message(RC500_CHANNEL, control, MAX_VALUE));
    messages.push(control_change_message(RC500_CHANNEL, control, MIN_VALUE));
    messages
}

/// One control change on the loop station's channel.
fn control_change(control: u8, value: u8) -> (r: MidiMessages)
    ensures
        r@ == seq![cc(RC500_CHANNEL, control, value)],
        r.wf(),
{
    let mut messages = MidiMessages::none();
    messages.push(control_change_message(RC500_CHANNEL, control, value));
    messages
}

/// One program change on the loop station's channel.
fn program_change(program: u8) -> (r: MidiMessages)
    ensures
        r@ == seq![pc(RC500_CHANNEL, program)],
        r.wf(),
{
    let mut messages = MidiMessages::none();
    messages.push(program_change_message(RC500_CHANNEL, program));
    messages
}

} // verus!
