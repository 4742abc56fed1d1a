//! Routing of human input and MIDI input to the handler of the current mode.
use vstd::prelude::*;

pub mod dispatch;
pub mod live_effect;
pub mod live_looper;
pub mod opendeck;
pub mod setup_looper;
pub mod test;

use crate::config::{messages_of, sysex_outcome, Responses};
use crate::devices::{MidiMessage, MidiMessages};
use crate::handler::dispatch::{handler_leds, handler_step, handler_with_leds, HandlerEnum, HandlerView};
use crate::hmi::ledring::Animation as RingAnimation;
use crate::hmi::leds::{
    frame_of, led_set, leds_after_frame, ring_set, Animation, Led, LedRings, Leds, LED_OUTPUTS,
};
use crate::hmi::{dark_blue, dark_green, Edge, InputEvent, Rgb};

verus! {

/// What the device does in answer to an event.
pub struct Actions {
    pub midi_messages: MidiMessages,
}

impl Actions {
    /// Sends the given messages.
    pub fn new(midi_messages: MidiMessages) -> (r: Actions)
        requires
            midi_messages.wf(),
        ensures
            r.midi_messages@ == midi_messages@,
            r.midi_messages.wf(),
    {
        Actions { midi_messages }
    }

    /// Does nothing.
    pub fn none() -> (r: Actions)
        ensures
            r.midi_messages@ == Seq::<crate::devices::MidiMessage>::empty(),
            r.midi_messages.wf(),
    {
        Actions::new(MidiMessages::none())
    }
}

/// Modes that the device can hold.
pub const MAX_HANDLERS: usize = 8;

/// Note whose note-off message carries the loudness of the audio output,
/// its velocity being the loudness below 0 LUFS (C1).
pub const LOUDNESS_NOTE: u8 = 36;

/// The router of human input and MIDI input to the current mode.
pub struct Handlers {
    handlers: Vec<HandlerEnum>,
    current: usize,
}

/// The state of [`Handlers`].
pub struct HandlersView {
    pub handlers: Seq<HandlerView>,
    /// Index of the current mode.
    pub current: int,
}

impl View for Handlers {
    type V = HandlersView;

    closed spec fn view(&self) -> HandlersView {
        HandlersView {
            handlers: Seq::new(self.handlers@.len(), |i: int| self.handlers@[i]@),
            current: self.current as int,
        }
    }
}

/// The state with the current mode replaced.
pub open spec fn with_current_handler(s: HandlersView, h: HandlerView) -> HandlersView {
    HandlersView { handlers: s.handlers.update(s.current, h), ..s }
}

/// State and messages after an input event: the volume button moves on to
/// the next mode, wrapping after the last; any other event goes to the
/// current mode, and when that sends messages the monitor LED flashes green.
pub open spec fn handlers_step(s: HandlersView, e: InputEvent) -> (HandlersView, Seq<MidiMessage>) {
    match e {
        InputEvent::VolButton(Edge::Activate) => (
            HandlersView { current: (s.current + 1) % (s.handlers.len() as int), ..s },
            seq![],
        ),
        _ => {
            let (h, m) = handler_step(s.handlers[s.current], e);
            let h2 = if m.len() > 0 {
                handler_with_leds(h, led_set(handler_leds(h), Animation::Flash(dark_green()), Led::Mon))
            } else {
                h
            };
            (with_current_handler(s, h2), m)
        },
    }
}

/// The state after a MIDI message arrives: a loudness report shows on the
/// volume ring as a meter; anything else flashes the monitor LED blue.
pub open spec fn midi_input_step(s: HandlersView, m: MidiMessage) -> HandlersView {
    let h = s.handlers[s.current];
    let l = handler_leds(h);
    let l2 = match m {
        MidiMessage::NoteOff(_, note, velocity) => if note == LOUDNESS_NOTE {
            ring_set(l, RingAnimation::Loudness((-velocity) as i32), LedRings::Vol)
        } else {
            led_set(l, Animation::Flash(dark_blue()), Led::Mon)
        },
        _ => led_set(l, Animation::Flash(dark_blue()), Led::Mon),
    };
    with_current_handler(s, handler_with_leds(h, l2))
}

impl Handlers {
    /// The current mode is one of the modes, each usable.
    pub closed spec fn wf(&self) -> bool {
        &&& self.current < self.handlers@.len() <= MAX_HANDLERS
        &&& forall|i: int| 0 <= i < self.handlers@.len() ==> #[trigger] self.handlers@[i].wf()
    }

    /// Routes to the given modes, starting with the first.
    pub fn new(handlers: Vec<HandlerEnum>) -> (r: Handlers)
        requires
            handlers@.len() <= MAX_HANDLERS,
        ensures
            r@.handlers == Seq::new(handlers@.len(), |i: int| handlers@[i]@),
            r@.current == 0,
            (handlers@.len() >= 1 && forall|i: int| 0 <= i < handlers@.len() ==> #[trigger] handlers@[i].wf())
                ==> r.wf(),
    {
        Handlers { handlers, current: 0 }
    }

    /// Answers an input event, see [`handlers_step`].
    pub fn handle_human_input(&mut self, event: InputEvent) -> (r: Actions)
        requires
            old(self).wf(),
        ensures
            final(self).wf(),
            r.midi_messages.wf(),
            (final(self)@, r.midi_messages@) == handlers_step(old(self)@, event),
    {
        match event {
            InputEvent::VolButton(Edge::Activate) => {
                let ghost n = self.handlers@.len() as int;
                let ghost next = self.current + 1;
                self.current += 1;
                if self.current == self.handlers.len() {
                    self.current = 0;
                    assert(next % n == 0) by (nonlinear_arith)
                        requires next == n, n > 0;
                } else {
                    assert(next % n == next) by (nonlinear_arith)
                        requires 0 <= next < n;
                }
                assert(self@.handlers =~= old(self)@.handlers);
                Actions::none()
            },
            _ => {
                let i = self.current;
                let mut h = self.handlers.remove(i);
                let actions = h.handle_human_input(event);
                if !actions.midi_messages.is_empty() {
                    let mut leds = *h.leds();
                    leds.set(Animation::Flash(dark_green()), Led::Mon);
                    h.set_leds(leds);
                }
                self.handlers.insert(i, h);
                proof {
                    assert(self@.handlers =~= handlers_step(old(self)@, event).0.handlers);
                }
                actions
            },
        }
    }

    /// Answers a MIDI message, see [`midi_input_step`].
    pub fn process_midi_input(&mut self, m: MidiMessage)
        requires
            old(self).wf(),
        ensures
            final(self).wf(),
            final(self)@ == midi_input_step(old(self)@, m),
    {
        let i = self.current;
        let mut h = self.handlers.remove(i);
        let mut leds = *h.leds();
        match m {
            MidiMessage::NoteOff(_, note, velocity) if note == LOUDNESS_NOTE => {
                let lufs = -(velocity as i32);
                leds.set_ledring(RingAnimation::Loudness(lufs), LedRings::Vol);
            },
            _ => {
                leds.set(Animation::Flash(dark_blue()), Led::Mon);
            },
        }
        h.set_leds(leds);
        self.handlers.insert(i, h);
        proof {
            assert(self@.handlers =~= midi_input_step(old(self)@, m).handlers);
        }
    }

    /// The LEDs of the current mode.
    pub fn leds(&self) -> (r: &Leds)
        requires
            self.wf(),
        ensures
            r@ == handler_leds(self@.handlers[self@.current]),
    {
        self.handlers[self.current].leds()
    }

    /// Renders one frame of the current mode's LEDs, see
    /// [`crate::hmi::leds::Leds::animate`].
    pub fn animate_leds(&mut self) -> (r: [Rgb; LED_OUTPUTS])
        requires
            old(self).wf(),
        ensures
            final(self).wf(),
            r@ == frame_of(handler_leds(old(self)@.handlers[old(self)@.current])),
            final(self)@ == with_current_handler(
                old(self)@,
                handler_with_leds(
                    old(self)@.handlers[old(self)@.current],
                    leds_after_frame(handler_leds(old(self)@.handlers[old(self)@.current])),
                ),
            ),
    {
        let i = self.current;
        let mut h = self.handlers.remove(i);
        let mut leds = *h.leds();
        let data = leds.animate();
        h.set_leds(leds);
        self.handlers.insert(i, h);
        proof {
            assert(self@.handlers =~= with_current_handler(
                old(self)@,
                handler_with_leds(
                    old(self)@.handlers[old(self)@.current],
                    leds_after_frame(handler_leds(old(self)@.handlers[old(self)@.current])),
                ),
            ).handlers);
        }
        data
    }

    /// Passes a SysEx message to the current mode, see
    /// [`HandlerEnum::process_sysex`].
    pub fn process_sysex(&mut self, request: &[u8]) -> (r: Responses)
        requires
            old(self).wf(),
        ensures
            final(self).wf(),
            final(self)@.current == old(self)@.current,
            match old(self)@.handlers[old(self)@.current] {
                HandlerView::OpenDeck(v) => {
                    &&& final(self)@.handlers[old(self)@.current] matches HandlerView::OpenDeck(v2)
                    &&& v2.leds == v.leds
                    &&& (v2.config, messages_of(r.messages@), r.action) == sysex_outcome(v.config, request@)
                },
                _ => final(self)@ == old(self)@ && r.messages@.len() == 0 && r.action is None,
            },
    {
        let i = self.current;
        let mut h = self.handlers.remove(i);
        let r = h.process_sysex(request);
        self.handlers.insert(i, h);
        proof {
            assert(self@.handlers =~= old(self)@.handlers.update(i as int, h@));
            if !(old(self)@.handlers[i as int] is OpenDeck) {
                assert(self@.handlers =~= old(self)@.handlers);
            }
        }
        r
    }
}

impl Default for Handlers {
    /// No modes.
    fn default() -> (r: Handlers)
        ensures
            r@.handlers.len() == 0,
    {
        Handlers::new(Vec::new())
    }
}

} // verus!
