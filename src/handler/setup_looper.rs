//! Looper setup mode: buttons step through the loop station's rhythm
//! patterns and drum kits.
use vstd::prelude::*;

use crate::devices::rc500::{rc500_step, RC500Event, RC500View, RC500};
use crate::devices::{Direction, MidiMessage};
use crate::handler::Actions;
use crate::hmi::leds::{initial_leds, led_set, leds_wf, Animation, Led, Leds, LedsView};
use crate::hmi::{yellow, Edge, InputEvent};

verus! {

/// The looper setup mode.
pub struct SetupLooper {
    leds: Leds,
    rc500: RC500,
}

/// The state of a [`SetupLooper`].
pub struct SetupLooperView {
    pub leds: LedsView,
    pub rc500: RC500View,
}

impl View for SetupLooper {
    type V = SetupLooperView;

    closed spec fn view(&self) -> SetupLooperView {
        SetupLooperView { leds: self.leds@, rc500: self.rc500@ }
    }
}

/// The loop station event of an input event, if any.
pub open spec fn setup_looper_event(e: InputEvent) -> Option<RC500Event> {
    match e {
        InputEvent::ButtonA(Edge::Activate) => Some(RC500Event::RhythmPattern(Direction::Up)),
        InputEvent::ButtonB(Edge::Activate) => Some(RC500Event::RhythmPattern(Direction::Down)),
        InputEvent::ButtonD(Edge::Activate) => Some(RC500Event::DrumKit(Direction::Up)),
        InputEvent::ButtonE(Edge::Activate) => Some(RC500Event::DrumKit(Direction::Down)),
        _ => None,
    }
}

/// State and messages after an input event.
pub open spec fn setup_looper_step(v: SetupLooperView, e: InputEvent) -> (SetupLooperView, Seq<MidiMessage>) {
    match setup_looper_event(e) {
        Some(ev) => (SetupLooperView { rc500: rc500_step(v.rc500, ev).0, ..v }, rc500_step(v.rc500, ev).1),
        None => (v, seq![]),
    }
}

/// The mode as it starts.
pub open spec fn initial_setup_looper() -> SetupLooperView {
    SetupLooperView {
        leds: led_set(initial_leds(), Animation::On(yellow()), Led::Mode),
        rc500: RC500View { drumkit: 0, pattern: 0 },
    }
}

impl SetupLooper {
    /// The LEDs are usable and the loop station's selections in range.
    pub closed spec fn wf(&self) -> bool {
        leds_wf(self.leds@) && self.rc500.wf()
    }

    /// Mode LED yellow.
    pub fn new() -> (r: SetupLooper)
        ensures
            r@ == initial_setup_looper(),
            r.wf(),
    {
        let mut leds = Leds::default();
        leds.set(Animation::On(yellow()), Led::Mode);
        SetupLooper { leds, rc500: RC500::default() }
    }

    /// Answers an input event, see [`setup_looper_step`].
    pub fn handle_human_input(&mut self, event: InputEvent) -> (r: Actions)
        requires
            old(self).wf(),
        ensures
            final(self).wf(),
            r.midi_messages.wf(),
            (final(self)@, r.midi_messages@) == setup_looper_step(old(self)@, event),
    {
        match event {
            InputEvent::ButtonA(Edge::Activate) => Actions::new(
                self.rc500.midi_messages(RC500Event::RhythmPattern(Direction::Up)),
            ),
            InputEvent::ButtonB(Edge::Activate) => Actions::new(
                self.rc500.midi_messages(RC500Event::RhythmPattern(Direction::Down)),
            ),
            InputEvent::ButtonD(Edge::Activate) => Actions::new(
                self.rc500.midi_messages(RC500Event::DrumKit(Direction::Up)),
            ),
            InputEvent::ButtonE(Edge::Activate) => Actions::new(
                self.rc500.midi_messages(RC500Event::DrumKit(Direction::Down)),
            ),
            _ => Actions::none(),
        }
    }

    /// The LEDs of the mode.
    pub fn leds(&self) -> (r: &Leds)
        requires
            self.wf(),
        ensures
            leds_wf(r@),
            r@ == self@.leds,
    {
        &self.leds
    }

    /// Replaces the LEDs of the mode.
    pub fn set_leds(&mut self, leds: Leds)
        requires
            old(self).wf(),
            leds_wf(leds@),
        ensures
            final(self)@ == (SetupLooperView { leds: leds@, ..old(self)@ }),
            final(self).wf(),
    {
        self.leds = leds;
    }
}

impl Default for SetupLooper {
    fn default() -> (r: SetupLooper)
        ensures
            r@ == initial_setup_looper(),
            r.wf(),
    {
        SetupLooper::new()
    }
}

} // verus!
