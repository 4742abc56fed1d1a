//! Live effects mode: buttons pick a board of the multi-effect, the pedal
//! sets the output level, and a button bypasses a processor.
use vstd::prelude::*;

use crate::devices::pedalboard_audio::{pa_step, PAAction, PedalboardAudio, MAX_PROCESSORS};
use crate::devices::plethora::{plethora_messages, Plethora, PlethoraAction};
use crate::devices::MidiMessage;
use crate::handler::Actions;
use crate::hmi::ledring::Animation as RingAnimation;
use crate::hmi::leds::{
    gradient_at_value7, gradient_color, initial_leds, led_set, leds_wf, ring_set, Animation,
    Gradient, Led, LedRings, Leds, LedsView,
};
use crate::hmi::{blue, green, red, sea_green, violet, white, Edge, InputEvent, Rgb};

verus! {

/// The live effects mode.
pub struct LiveEffect {
    leds: Leds,
    plethora: Plethora,
    audio: PedalboardAudio,
}

/// The state of a [`LiveEffect`].
pub struct LiveEffectView {
    pub leds: LedsView,
    /// Bypass state of each audio processor.
    pub audio: Seq<bool>,
}

impl View for LiveEffect {
    type V = LiveEffectView;

    closed spec fn view(&self) -> LiveEffectView {
        LiveEffectView { leds: self.leds@, audio: self.audio@ }
    }
}

/// The rings after picking a board: the board's ring lit, the others off.
pub open spec fn select_board(l: LedsView, on: LedRings, c: Rgb) -> LedsView {
    let pick = |r: LedRings|
        if r == on {
            RingAnimation::On(c)
        } else {
            RingAnimation::Off
        };
    ring_set(
        ring_set(
            ring_set(ring_set(l, pick(LedRings::A), LedRings::A), pick(LedRings::B), LedRings::B),
            pick(LedRings::C),
            LedRings::C,
        ),
        pick(LedRings::F),
        LedRings::F,
    )
}

/// State and messages after an input event.
pub open spec fn live_effect_step(v: LiveEffectView, e: InputEvent) -> (LiveEffectView, Seq<MidiMessage>) {
    match e {
        InputEvent::ButtonA(Edge::Activate) => (
            LiveEffectView { leds: select_board(v.leds, LedRings::A, blue()), ..v },
            plethora_messages(PlethoraAction::GoToBoard(1)),
        ),
        InputEvent::ButtonB(Edge::Activate) => (
            LiveEffectView { leds: select_board(v.leds, LedRings::B, sea_green()), ..v },
            plethora_messages(PlethoraAction::GoToBoard(2)),
        ),
        InputEvent::ButtonC(Edge::Activate) => (
            LiveEffectView { leds: select_board(v.leds, LedRings::C, green()), ..v },
            plethora_messages(PlethoraAction::GoToBoard(3)),
        ),
        InputEvent::ButtonF(Edge::Activate) => (
            LiveEffectView { leds: select_board(v.leds, LedRings::F, violet()), ..v },
            plethora_messages(PlethoraAction::GoToBoard(4)),
        ),
        InputEvent::ButtonD(Edge::Activate) => {
            let (audio, m) = pa_step(v.audio, PAAction::BypassProcessor(1));
            (
                LiveEffectView {
                    leds: ring_set(v.leds, RingAnimation::Toggle(red(), false), LedRings::D),
                    audio,
                },
                m,
            )
        },
        InputEvent::ExpressionPedalB(val) => {
            let (audio, m) = pa_step(v.audio, PAAction::OutputLevel(val));
            (
                LiveEffectView {
                    leds: ring_set(
                        v.leds,
                        RingAnimation::On(gradient_color(Gradient::Reds, val as usize, 127)),
                        LedRings::Gain,
                    ),
                    audio,
                },
                m,
            )
        },
        _ => (v, seq![]),
    }
}

/// The mode as it starts.
pub open spec fn initial_live_effect() -> LiveEffectView {
    LiveEffectView {
        leds: led_set(
            ring_set(initial_leds(), RingAnimation::On(red()), LedRings::D),
            Animation::On(white()),
            Led::Mode,
        ),
        audio: Seq::new(MAX_PROCESSORS as nat, |i: int| false),
    }
}

impl LiveEffect {
    /// The LEDs are usable.
    pub closed spec fn wf(&self) -> bool {
        leds_wf(self.leds@)
    }

    /// Ring D red, mode LED white, no processor bypassed.
    pub fn new() -> (r: LiveEffect)
        ensures
            r@ == initial_live_effect(),
            r.wf(),
    {
        let mut leds = Leds::default();
        leds.set_ledring(RingAnimation::On(red()), LedRings::D);
        leds.set(Animation::On(white()), Led::Mode);
        LiveEffect { leds, plethora: Plethora {  }, audio: PedalboardAudio::default() }
    }

    /// Answers an input event, see [`live_effect_step`].
    pub fn handle_human_input(&mut self, event: InputEvent) -> (r: Actions)
        requires
            old(self).wf(),
        ensures
            final(self).wf(),
            r.midi_messages.wf(),
            (final(self)@, r.midi_messages@) == live_effect_step(old(self)@, event),
    {
        match event {
            InputEvent::ButtonA(Edge::Activate) => {
                self.leds.set_ledring(RingAnimation::On(blue()), LedRings::A);
                self.leds.set_ledring(RingAnimation::Off, LedRings::B);
                self.leds.set_ledring(RingAnimation::Off, LedRings::C);
                self.leds.set_ledring(RingAnimation::Off, LedRings::F);
                Actions::new(self.plethora.midi_messages(PlethoraAction::GoToBoard(1)))
            },
            InputEvent::ButtonB(Edge::Activate) => {
                self.leds.set_ledring(RingAnimation::Off, LedRings::A);
                self.leds.set_ledring(RingAnimation::On(sea_green()), LedRings::B);
                self.leds.set_ledring(RingAnimation::Off, LedRings::C);
                self.leds.set_ledring(RingAnimation::Off, LedRings::F);
                Actions::new(self.plethora.midi_messages(PlethoraAction::GoToBoard(2)))
            },
            InputEvent::ButtonC(Edge::Activate) => {
                self.leds.set_ledring(RingAnimation::Off, LedRings::A);
                self.leds.set_ledring(RingAnimation::Off, LedRings::B);
                self.leds.set_ledring(RingAnimation::On(green()), LedRings::C);
                self.leds.set_ledring(RingAnimation::Off, LedRings::F);
                Actions::new(self.plethora.midi_messages(PlethoraAction::GoToBoard(3)))
            },
            InputEvent::ButtonF(Edge::Activate) => {
                self.leds.set_ledring(RingAnimation::Off, LedRings::A);
                self.leds.set_ledring(RingAnimation::Off, LedRings::B);
                self.leds.set_ledring(RingAnimation::Off, LedRings::C);
                self.leds.set_ledring(RingAnimation::On(violet()), LedRings::F);
                Actions::new(self.plethora.midi_messages(PlethoraAction::GoToBoard(4)))
            },
            InputEvent::ButtonD(Edge::Activate) => {
                self.leds.set_ledring(RingAnimation::Toggle(red(), false), LedRings::D);
                Actions::new(self.audio.midi_messages(PAAction::BypassProcessor(1)))
            },
            InputEvent::ExpressionPedalB(val) => {
                let color = gradient_at_value7(Gradient::Reds, val);
                self.leds.set_ledring(RingAnimation::On(color), LedRings::Gain);
                Actions::new(self.audio.midi_messages(PAAction::OutputLevel(val)))
            },
            _ => Actions::none(),
        }
    }

    /// The LEDs of the mode.
    pub fn leds(&self) -> (r: &Leds)
        requires
            self.wf(),
        ensures
            leds_wf(r@),
            r@ == self@.leds,
    {
        &self.leds
    }

    /// Replaces the LEDs of the mode.
    pub fn set_leds(&mut self, leds: Leds)
        requires
            old(self).wf(),
            leds_wf(leds@),
        ensures
            final(self)@ == (LiveEffectView { leds: leds@, ..old(self)@ }),
            final(self).wf(),
    {
        self.leds = leds;
    }
}

impl Default for LiveEffect {
    fn default() -> (r: LiveEffect)
        ensures
            r@ == initial_live_effect(),
            r.wf(),
    {
        LiveEffect::new()
    }
}

} // verus!
