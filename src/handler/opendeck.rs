//! Configuration mode: the device is configured by a host over SysEx.
use vstd::prelude::*;

use crate::config::{config_wf, firmware_version, initial_config, sysex_outcome, messages_of, default_firmware_version, Config, ConfigView, Responses};
use crate::handler::Actions;
use crate::hmi::leds::{initial_leds, leds_wf, Leds, LedsView};
use crate::hmi::InputEvent;
use crate::protocol::HardwareUid;

verus! {

/// Hardware id that the configuration mode reports.
pub const OPENDECK_UID: u32 = 0x123456;

/// The configuration mode.
pub struct OpenDeck {
    config: Config,
    leds: Leds,
}

/// The state of an [`OpenDeck`].
pub struct OpenDeckView {
    pub config: ConfigView,
    pub leds: LedsView,
}

impl View for OpenDeck {
    type V = OpenDeckView;

    closed spec fn view(&self) -> OpenDeckView {
        OpenDeckView { config: self.config@, leds: self.leds@ }
    }
}

impl OpenDeck {
    /// The configuration and the LEDs are usable.
    pub closed spec fn wf(&self) -> bool {
        config_wf(self.config@) && leds_wf(self.leds@)
    }

    /// A fresh configuration, reporting version 1.0.0 and [`OPENDECK_UID`].
    pub fn new() -> (r: OpenDeck)
        ensures
            r@ == (OpenDeckView {
                config: initial_config(default_firmware_version(), HardwareUid(OPENDECK_UID)),
                leds: initial_leds(),
            }),
            r.wf(),
    {
        let leds = Leds::default();
        let config = Config::with_identity(firmware_version(), HardwareUid(OPENDECK_UID));
        OpenDeck { leds, config }
    }

    /// Input events do nothing in this mode.
    pub fn handle_human_input(&mut self, event: InputEvent) -> (r: Actions)
        ensures
            final(self)@ == old(self)@,
            final(self).wf() == old(self).wf(),
            r.midi_messages@ == Seq::<crate::devices::MidiMessage>::empty(),
            r.midi_messages.wf(),
    {
        Actions::none()
    }

    /// Serves a SysEx message against the configuration, see
    /// [`Config::process_sysex`].
    pub fn process_sysex(&mut self, request: &[u8]) -> (r: Responses)
        requires
            old(self).wf(),
        ensures
            final(self).wf(),
            final(self)@.leds == old(self)@.leds,
            (final(self)@.config, messages_of(r.messages@), r.action) == sysex_outcome(
                old(self)@.config,
                request@,
            ),
    {
        self.config.process_sysex(request)
    }

    /// The LEDs of the mode.
    pub fn leds(&self) -> (r: &Leds)
        requires
            self.wf(),
        ensures
            leds_wf(r@),
            r@ == self@.leds,
    {
        &self.leds
    }

    /// Replaces the LEDs of the mode.
    pub fn set_leds(&mut self, leds: Leds)
        requires
            old(self).wf(),
            leds_wf(leds@),
        ensures
            final(self)@ == (OpenDeckView { leds: leds@, ..old(self)@ }),
            final(self).wf(),
    {
        self.leds = leds;
    }
}

impl Default for OpenDeck {
    fn default() -> (r: OpenDeck)
        ensures
            r.wf(),
    {
        OpenDeck::new()
    }
}

} // verus!
