//! Test mode: shows the controls on the LED rings and sends a loudness probe.
use vstd::prelude::*;

use crate::devices::{note_off, note_off_message, MidiMessage, MidiMessages};
use crate::handler::Actions;
use crate::hmi::ledring::Animation as RingAnimation;
use crate::hmi::leds::{initial_leds, led_set, leds_wf, ring_set, Animation, Led, LedRings, Leds, LedsView};
use crate::hmi::{blue, Edge, InputEvent};

verus! {

/// Channel of the loudness probe (channel 15).
pub const PROBE_CHANNEL: u8 = 14;

/// Note of the loudness probe (C1).
pub const PROBE_NOTE: u8 = 36;

/// Velocity of the loudness probe.
pub const PROBE_VELOCITY: u8 = 80;

/// The test mode.
pub struct Test {
    leds: Leds,
}

impl View for Test {
    type V = LedsView;

    closed spec fn view(&self) -> LedsView {
        self.leds@
    }
}

/// The meter level that shows a 7-bit control value.
pub open spec fn control_level(v: u8) -> i32 {
    (-100 + 6 * v) as i32
}

/// The ring of a button, if it has one.
pub open spec fn button_ring(e: InputEvent) -> Option<(LedRings, Edge)> {
    match e {
        InputEvent::ButtonA(edge) => Some((LedRings::A, edge)),
        InputEvent::ButtonB(edge) => Some((LedRings::B, edge)),
        InputEvent::ButtonC(edge) => Some((LedRings::C, edge)),
        InputEvent::ButtonD(edge) => Some((LedRings::D, edge)),
        InputEvent::ButtonE(edge) => Some((LedRings::E, edge)),
        InputEvent::ButtonF(edge) => Some((LedRings::F, edge)),
        _ => None,
    }
}

/// LEDs and messages after an input event: a pressed button darkens its
/// ring and a released one shows a meter at 0 LUFS again; controls and
/// pedals show their value as a meter level; the gain button sends the probe.
pub open spec fn test_step(l: LedsView, e: InputEvent) -> (LedsView, Seq<MidiMessage>) {
    match e {
        InputEvent::Vol(v) => (ring_set(l, RingAnimation::Loudness(control_level(v)), LedRings::Vol), seq![]),
        InputEvent::Gain(v) => (ring_set(l, RingAnimation::Loudness(control_level(v)), LedRings::Gain), seq![]),
        InputEvent::ExpressionPedalA(v) => (ring_set(l, RingAnimation::Loudness(control_level(v)), LedRings::D), seq![]),
        InputEvent::ExpressionPedalB(v) => (ring_set(l, RingAnimation::Loudness(control_level(v)), LedRings::F), seq![]),
        InputEvent::GainButton(Edge::Activate) => (l, seq![note_off(PROBE_CHANNEL, PROBE_NOTE, PROBE_VELOCITY)]),
        _ => match button_ring(e) {
            Some((ring, Edge::Activate)) => (ring_set(l, RingAnimation::Off, ring), seq![]),
            Some((ring, Edge::Deactivate)) => (ring_set(l, RingAnimation::Loudness(0), ring), seq![]),
            None => (l, seq![]),
        },
    }
}

/// The mode as it starts: mode LED blue, every ring a meter at 0 LUFS.
pub open spec fn initial_test() -> LedsView {
    led_set(initial_leds(), Animation::On(blue()), Led::Mode)
}

impl Test {
    /// The LEDs are usable.
    pub closed spec fn wf(&self) -> bool {
        leds_wf(self.leds@)
    }

    /// Mode LED blue, every ring a meter at 0 LUFS.
    pub fn new() -> (r: Test)
        ensures
            r@ == initial_test(),
            r.wf(),
    {
        let mut leds = Leds::default();
        leds.set(Animation::On(blue()), Led::Mode);
        let ghost mid = leds@;
        leds.set_ledring(RingAnimation::Loudness(0), LedRings::A);
        leds.set_ledring(RingAnimation::Loudness(0), LedRings::B);
        leds.set_ledring(RingAnimation::Loudness(0), LedRings::C);
        leds.set_ledring(RingAnimation::Loudness(0), LedRings::D);
        leds.set_ledring(RingAnimation::Loudness(0), LedRings::E);
        leds.set_ledring(RingAnimation::Loudness(0), LedRings::F);
        leds.set_ledring(RingAnimation::Loudness(0), LedRings::Vol);
        leds.set_ledring(RingAnimation::Loudness(0), LedRings::Gain);
        assert(leds@.rings =~= mid.rings);
        Test { leds }
    }

    /// Answers an input event, see [`test_step`].
    pub fn handle_human_input(&mut self, event: InputEvent) -> (r: Actions)
        requires
            old(self).wf(),
        ensures
            final(self).wf(),
            r.midi_messages.wf(),
            (final(self)@, r.midi_messages@) == test_step(old(self)@, event),
    {
        match event {
            InputEvent::ButtonA(Edge::Activate) => {
                self.leds.set_ledring(RingAnimation::Off, LedRings::A);
                Actions::none()
            },
            InputEvent::ButtonB(Edge::Activate) => {
                self.leds.set_ledring(RingAnimation::Off, LedRings::B);
                Actions::none()
            },
            InputEvent::ButtonC(Edge::Activate) => {
                self.leds.set_ledring(RingAnimation::Off, LedRings::C);
                Actions::none()
            },
            InputEvent::ButtonD(Edge::Activate) => {
                self.leds.set_ledring(RingAnimation::Off, LedRings::D);
                Actions::none()
            },
            InputEvent::ButtonE(Edge::Activate) => {
                self.leds.set_ledring(RingAnimation::Off, LedRings::E);
                Actions::none()
            },
            InputEvent::ButtonF(Edge::Activate) => {
                self.leds.set_ledring(RingAnimation::Off, LedRings::F);
                Actions::none()
            },
            InputEvent::ButtonA(Edge::Deactivate) => {
                self.leds.set_ledring(RingAnimation::Loudness(0), LedRings::A);
                Actions::none()
            },
            InputEvent::ButtonB(Edge::Deactivate) => {
                self.leds.set_ledring(RingAnimation::Loudness(0), LedRings::B);
                Actions::none()
            },
            InputEvent::ButtonC(Edge::Deactivate) => {
                self.leds.set_ledring(RingAnimation::Loudness(0), LedRings::C);
                Actions::none()
            },
            InputEvent::ButtonD(Edge::Deactivate) => {
                self.leds.set_ledring(RingAnimation::Loudness(0), LedRings::D);
                Actions::none()
            },
            InputEvent::ButtonE(Edge::Deactivate) => {
                self.leds.set_ledring(RingAnimation::Loudness(0), LedRings::E);
                Actions::none()
            },
            InputEvent::ButtonF(Edge::Deactivate) => {
                self.leds.set_ledring(RingAnimation::Loudness(0), LedRings::F);
                Actions::none()
            },
            InputEvent::Vol(v) => {
                self.leds.set_ledring(RingAnimation::Loudness(-100 + (v as i32) * 6), LedRings::Vol);
                Actions::none()
            },
            InputEvent::Gain(v) => {
                self.leds.set_ledring(RingAnimation::Loudness(-100 + (v as i32) * 6), LedRings::Gain);
                Actions::none()
            },
            InputEvent::GainButton(Edge::Activate) => {
                let mut messages: MidiMessages = MidiMessages::none();
                messages.push(note_off_message(PROBE_CHANNEL, PROBE_NOTE, PROBE_VELOCITY));
                Actions::new(messages)
            },
            InputEvent::ExpressionPedalA(v) => {
                self.leds.set_ledring(RingAnimation::Loudness(-100 + (v as i32) * 6), LedRings::D);
                Actions::none()
            },
            InputEvent::ExpressionPedalB(v) => {
                self.leds.set_ledring(RingAnimation::Loudness(-100 + (v as i32) * 6), LedRings::F);
                Actions::none()
            },
            _ => Actions::none(),
        }
    }

    /// The LEDs of the mode.
    pub fn leds(&self) -> (r: &Leds)
        requires
            self.wf(),
        ensures
            leds_wf(r@),
            r@ == self@,
    {
        &self.leds
    }

    /// Replaces the LEDs of the mode.
    pub fn set_leds(&mut self, leds: Leds)
        requires
            leds_wf(leds@),
        ensures
            final(self)@ == leds@,
            final(self).wf(),
    {
        self.leds = leds;
    }
}

impl Default for Test {
    fn default() -> (r: Test)
        ensures
            r@ == initial_test(),
            r.wf(),
    {
        Test::new()
    }
}

} // verus!
