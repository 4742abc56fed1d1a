//! Live looping mode: buttons drive the loop station's rhythm and memories,
//! the pedal sets the level of the current channel.
use vstd::prelude::*;

use crate::devices::rc500::{rc500_step, RC500Event, RC500View, RC500};
use crate::devices::{Direction, MidiMessage};
use crate::handler::Actions;
use crate::hmi::ledring::Animation as RingAnimation;
use crate::hmi::leds::{initial_leds, led_set, leds_wf, ring_set, Animation, Led, LedRings, Leds, LedsView};
use crate::hmi::{blue, red, Edge, InputEvent};

verus! {

/// The live looping mode.
pub struct LiveLooper {
    leds: Leds,
    rc500: RC500,
}

/// The state of a [`LiveLooper`].
pub struct LiveLooperView {
    pub leds: LedsView,
    pub rc500: RC500View,
}

impl View for LiveLooper {
    type V = LiveLooperView;

    closed spec fn view(&self) -> LiveLooperView {
        LiveLooperView { leds: self.leds@, rc500: self.rc500@ }
    }
}

/// State and messages after an input event.
pub open spec fn live_looper_step(v: LiveLooperView, e: InputEvent) -> (LiveLooperView, Seq<MidiMessage>) {
    let rc = |ev: RC500Event| rc500_step(v.rc500, ev);
    match e {
        InputEvent::ButtonA(Edge::Activate) => (
            LiveLooperView {
                leds: ring_set(v.leds, RingAnimation::Toggle(blue(), false), LedRings::A),
                rc500: rc(RC500Event::ToggleRhythm()).0,
            },
            rc(RC500Event::ToggleRhythm()).1,
        ),
        InputEvent::ButtonB(Edge::Activate) => (
            LiveLooperView {
                leds: ring_set(v.leds, RingAnimation::Toggle(blue(), false), LedRings::B),
                rc500: rc(RC500Event::RhythmVariation()).0,
            },
            rc(RC500Event::RhythmVariation()).1,
        ),
        InputEvent::ButtonD(Edge::Activate) => (
            LiveLooperView { rc500: rc(RC500Event::Mem(Direction::Up)).0, ..v },
            rc(RC500Event::Mem(Direction::Up)).1,
        ),
        InputEvent::ButtonE(Edge::Activate) => (
            LiveLooperView { rc500: rc(RC500Event::Mem(Direction::Down)).0, ..v },
            rc(RC500Event::Mem(Direction::Down)).1,
        ),
        InputEvent::ButtonF(Edge::Activate) => (
            LiveLooperView {
                leds: ring_set(
                    ring_set(v.leds, RingAnimation::Off, LedRings::A),
                    RingAnimation::Off,
                    LedRings::B,
                ),
                rc500: rc(RC500Event::ClearCurrent()).0,
            },
            rc(RC500Event::ClearCurrent()).1,
        ),
        InputEvent::ExpressionPedalB(val) => (
            LiveLooperView { rc500: rc(RC500Event::CurrentChannelLevel(val)).0, ..v },
            rc(RC500Event::CurrentChannelLevel(val)).1,
        ),
        _ => (v, seq![]),
    }
}

/// The mode as it starts.
pub open spec fn initial_live_looper() -> LiveLooperView {
    LiveLooperView {
        leds: led_set(
            ring_set(
                ring_set(
                    ring_set(initial_leds(), RingAnimation::On(red()), LedRings::D),
                    RingAnimation::On(blue()),
                    LedRings::E,
                ),
                RingAnimation::On(red()),
                LedRings::F,
            ),
            Animation::On(red()),
            Led::Mode,
        ),
        rc500: RC500View { drumkit: 0, pattern: 0 },
    }
}

impl LiveLooper {
    /// The LEDs are usable and the loop station's selections in range.
    pub closed spec fn wf(&self) -> bool {
        leds_wf(self.leds@) && self.rc500.wf()
    }

    /// Rings D and F red, ring E blue, mode LED red.
    pub fn new() -> (r: LiveLooper)
        ensures
            r@ == initial_live_looper(),
            r.wf(),
    {
        let mut leds = Leds::default();
        leds.set_ledring(RingAnimation::On(red()), LedRings::D);
        leds.set_ledring(RingAnimation::On(blue()), LedRings::E);
        leds.set_ledring(RingAnimation::On(red()), LedRings::F);
        leds.set(Animation::On(red()), Led::Mode);
        LiveLooper { leds, rc500: RC500::default() }
    }

    /// Answers an input event, see [`live_looper_step`].
    pub fn handle_human_input(&mut self, event: InputEvent) -> (r: Actions)
        requires
            old(self).wf(),
        ensures
            final(self).wf(),
            r.midi_messages.wf(),
            (final(self)@, r.midi_messages@) == live_looper_step(old(self)@, event),
    {
        match event {
            InputEvent::ButtonA(Edge::Activate) => {
                self.leds.set_ledring(RingAnimation::Toggle(blue(), false), LedRings::A);
                Actions::new(self.rc500.midi_messages(RC500Event::ToggleRhythm()))
            },
            InputEvent::ButtonB(Edge::Activate) => {
                self.leds.set_ledring(RingAnimation::Toggle(blue(), false), LedRings::B);
                Actions::new(self.rc500.midi_messages(RC500Event::RhythmVariation()))
            },
            InputEvent::ButtonD(Edge::Activate) => {
                Actions::new(self.rc500.midi_messages(RC500Event::Mem(Direction::Up)))
            },
            InputEvent::ButtonE(Edge::Activate) => {
                Actions::new(self.rc500.midi_messages(RC500Event::Mem(Direction::Down)))
            },
            InputEvent::ButtonF(Edge::Activate) => {
                self.leds.set_ledring(RingAnimation::Off, LedRings::A);
                self.leds.set_ledring(RingAnimation::Off, LedRings::B);
                Actions::new(self.rc500.midi_messages(RC500Event::ClearCurrent()))
            },
            InputEvent::ExpressionPedalB(val) => {
                Actions::new(self.rc500.midi_messages(RC500Event::CurrentChannelLevel(val)))
            },
            _ => Actions::none(),
        }
    }

    /// The LEDs of the mode.
    pub fn leds(&self) -> (r: &Leds)
        requires
            self.wf(),
        ensures
            leds_wf(r@),
            r@ == self@.leds,
    {
        &self.leds
    }

    /// Replaces the LEDs of the mode.
    pub fn set_leds(&mut self, leds: Leds)
        requires
            old(self).wf(),
            leds_wf(leds@),
        ensures
            final(self)@ == (LiveLooperView { leds: leds@, ..old(self)@ }),
            final(self).wf(),
    {
        self.leds = leds;
    }
}

impl Default for LiveLooper {
    fn default() -> (r: LiveLooper)
        ensures
            r@ == initial_live_looper(),
            r.wf(),
    {
        LiveLooper::new()
    }
}

} // verus!
