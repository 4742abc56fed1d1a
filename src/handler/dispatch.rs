//! Static dispatch over the modes of the device.
use vstd::prelude::*;

use crate::config::{messages_of, sysex_outcome, Responses};
use crate::devices::MidiMessage;
use crate::handler::live_effect::{live_effect_step, LiveEffect, LiveEffectView};
use crate::handler::live_looper::{live_looper_step, LiveLooper, LiveLooperView};
use crate::handler::opendeck::{OpenDeck, OpenDeckView};
use crate::handler::setup_looper::{setup_looper_step, SetupLooper, SetupLooperView};
use crate::handler::test::{test_step, Test};
use crate::handler::Actions;
use crate::hmi::leds::{leds_wf, Leds, LedsView};
use crate::hmi::InputEvent;

verus! {

/// One mode of the device.
pub enum HandlerEnum {
    OpenDeck(OpenDeck),
    LiveEffect(LiveEffect),
    LiveLooper(LiveLooper),
    SetupLooper(SetupLooper),
    Test(Test),
}

/// The state of a [`HandlerEnum`].
pub enum HandlerView {
    OpenDeck(OpenDeckView),
    LiveEffect(LiveEffectView),
    LiveLooper(LiveLooperView),
    SetupLooper(SetupLooperView),
    Test(LedsView),
}

impl View for HandlerEnum {
    type V = HandlerView;

    open spec fn view(&self) -> HandlerView {
        match self {
            HandlerEnum::OpenDeck(h) => HandlerView::OpenDeck(h@),
            HandlerEnum::LiveEffect(h) => HandlerView::LiveEffect(h@),
            HandlerEnum::LiveLooper(h) => HandlerView::LiveLooper(h@),
            HandlerEnum::SetupLooper(h) => HandlerView::SetupLooper(h@),
            HandlerEnum::Test(h) => HandlerView::Test(h@),
        }
    }
}

/// State and messages of a mode after an input event.
pub open spec fn handler_step(h: HandlerView, e: InputEvent) -> (HandlerView, Seq<MidiMessage>) {
    match h {
        HandlerView::OpenDeck(v) => (HandlerView::OpenDeck(v), seq![]),
        HandlerView::LiveEffect(v) => {
            let (v2, m) = live_effect_step(v, e);
            (HandlerView::LiveEffect(v2), m)
        },
        HandlerView::LiveLooper(v) => {
            let (v2, m) = live_looper_step(v, e);
            (HandlerView::LiveLooper(v2), m)
        },
        HandlerView::SetupLooper(v) => {
            let (v2, m) = setup_looper_step(v, e);
            (HandlerView::SetupLooper(v2), m)
        },
        HandlerView::Test(v) => {
            let (v2, m) = test_step(v, e);
            (HandlerView::Test(v2), m)
        },
    }
}

/// The LEDs of a mode.
pub open spec fn handler_leds(h: HandlerView) -> LedsView {
    match h {
        HandlerView::OpenDeck(v) => v.leds,
        HandlerView::LiveEffect(v) => v.leds,
        HandlerView::LiveLooper(v) => v.leds,
        HandlerView::SetupLooper(v) => v.leds,
        HandlerView::Test(v) => v,
    }
}

/// A mode with its LEDs replaced.
pub open spec fn handler_with_leds(h: HandlerView, l: LedsView) -> HandlerView {
    match h {
        HandlerView::OpenDeck(v) => HandlerView::OpenDeck(OpenDeckView { leds: l, ..v }),
        HandlerView::LiveEffect(v) => HandlerView::LiveEffect(LiveEffectView { leds: l, ..v }),
        HandlerView::LiveLooper(v) => HandlerView::LiveLooper(LiveLooperView { leds: l, ..v }),
        HandlerView::SetupLooper(v) => HandlerView::SetupLooper(SetupLooperView { leds: l, ..v }),
        HandlerView::Test(_) => HandlerView::Test(l),
    }
}

impl HandlerEnum {
    /// The mode's state is usable.
    pub open spec fn wf(&self) -> bool {
        match self {
            HandlerEnum::OpenDeck(h) => h.wf(),
            HandlerEnum::LiveEffect(h) => h.wf(),
            HandlerEnum::LiveLooper(h) => h.wf(),
            HandlerEnum::SetupLooper(h) => h.wf(),
            HandlerEnum::Test(h) => h.wf(),
        }
    }

    /// Answers an input event, see [`handler_step`].
    pub fn handle_human_input(&mut self, e: InputEvent) -> (r: Actions)
        requires
            old(self).wf(),
        ensures
            final(self).wf(),
            r.midi_messages.wf(),
            (final(self)@, r.midi_messages@) == handler_step(old(self)@, e),
    {
        match self {
            HandlerEnum::OpenDeck(h) => h.handle_human_input(e),
            HandlerEnum::LiveEffect(h) => h.handle_human_input(e),
            HandlerEnum::LiveLooper(h) => h.handle_human_input(e),
            HandlerEnum::SetupLooper(h) => h.handle_human_input(e),
            HandlerEnum::Test(h) => h.handle_human_input(e),
        }
    }

    /// The LEDs of the mode.
    pub fn leds(&self) -> (r: &Leds)
        requires
            self.wf(),
        ensures
            r@ == handler_leds(self@),
            leds_wf(r@),
    {
        match self {
            HandlerEnum::OpenDeck(h) => h.leds(),
            HandlerEnum::LiveEffect(h) => h.leds(),
            HandlerEnum::LiveLooper(h) => h.leds(),
            HandlerEnum::SetupLooper(h) => h.leds(),
            HandlerEnum::Test(h) => h.leds(),
        }
    }

    /// Replaces the LEDs of the mode.
    pub fn set_leds(&mut self, leds: Leds)
        requires
            old(self).wf(),
            leds_wf(leds@),
        ensures
            final(self).wf(),
            final(self)@ == handler_with_leds(old(self)@, leds@),
    {
        match self {
            HandlerEnum::OpenDeck(h) => h.set_leds(leds),
            HandlerEnum::LiveEffect(h) => h.set_leds(leds),
            HandlerEnum::LiveLooper(h) => h.set_leds(leds),
            HandlerEnum::SetupLooper(h) => h.set_leds(leds),
            HandlerEnum::Test(h) => h.set_leds(leds),
        }
    }

    /// Serves a SysEx message: the configuration mode answers it, the other
    /// modes ignore it.
    pub fn process_sysex(&mut self, r: &[u8]) -> (res: Responses)
        requires
            old(self).wf(),
        ensures
            final(self).wf(),
            match old(self)@ {
                HandlerView::OpenDeck(v) => {
                    &&& final(self)@ matches HandlerView::OpenDeck(v2)
                    &&& v2.leds == v.leds
                    &&& (v2.config, messages_of(res.messages@), res.action) == sysex_outcome(v.config, r@)
                },
                _ => final(self)@ == old(self)@ && res.messages@.len() == 0 && res.action is None,
            },
    {
        match self {
            HandlerEnum::OpenDeck(h) => h.process_sysex(r),
            _ => Responses { messages: Vec::new(), action: None },
        }
    }
}

/// The modes of the device, in the order the volume button cycles through.
pub fn create() -> (r: Vec<HandlerEnum>)
    ensures
        r@.len() == 5,
        forall|i: int| 0 <= i < r@.len() ==> #[trigger] r@[i].wf(),
        r@[0]@ == HandlerView::LiveEffect(crate::handler::live_effect::initial_live_effect()),
        r@[1]@ == HandlerView::LiveLooper(crate::handler::live_looper::initial_live_looper()),
        r@[2]@ == HandlerView::SetupLooper(crate::handler::setup_looper::initial_setup_looper()),
        r@[3]@ == HandlerView::Test(crate::handler::test::initial_test()),
        r@[4] is OpenDeck,
{
    let mut handlers: Vec<HandlerEnum> = Vec::new();
    handlers.push(HandlerEnum::LiveEffect(LiveEffect::new()));
    handlers.push(HandlerEnum::LiveLooper(LiveLooper::new()));
    handlers.push(HandlerEnum::SetupLooper(SetupLooper::new()));
    handlers.push(HandlerEnum::Test(Test::new()));
    handlers.push(HandlerEnum::OpenDeck(OpenDeck::new()));
    handlers
}

} // verus!
