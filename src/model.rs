//! The configuration data model: buttons and encoders, grouped in presets.
use vstd::prelude::*;

use crate::protocol::{
    accelleration_code, accelleration_from_code, button_type_code, button_type_from_code,
    encoder_message_type_code, encoder_message_type_from_code, message_type_code,
    message_type_from_code, Accelleration, ButtonSection, ButtonType, EncoderMessageType,
    EncoderSection, MessageType,
};

verus! {

/// Buttons in a preset.
pub const NR_BUTTONS: usize = 8;

/// Encoders in a preset.
pub const NR_ENCODERS: usize = 2;

/// Largest 7-bit value.
pub const MAX_VALUE7: u16 = 127;

/// Largest 14-bit value.
pub const MAX_VALUE14: u16 = 16383;

/// Wire code of the "all channels" setting; channels 1 to 16 are sent as
/// themselves.
pub const ALL_CHANNELS_CODE: u16 = 17;

/// A MIDI channel (0 to 15), or all of them.
#[derive(Clone, Copy, Debug, PartialEq, Eq, Structural)]
pub enum ChannelOrAll {
    Channel(u8),
    All,
}

/// A channel setting within range.
pub open spec fn channel_wf(c: ChannelOrAll) -> bool {
    match c {
        ChannelOrAll::Channel(n) => n < 16,
        ChannelOrAll::All => true,
    }
}

/// The wire value of a channel setting.
pub open spec fn channel_code(c: ChannelOrAll) -> u16 {
    match c {
        ChannelOrAll::Channel(n) => (n + 1) as u16,
        ChannelOrAll::All => ALL_CHANNELS_CODE,
    }
}

/// The channel setting that a wire value stands for, if any.
pub open spec fn channel_from_code(v: u16) -> Option<ChannelOrAll> {
    if 1 <= v <= 16 {
        Some(ChannelOrAll::Channel((v - 1) as u8))
    } else if v == ALL_CHANNELS_CODE {
        Some(ChannelOrAll::All)
    } else {
        None
    }
}

impl ChannelOrAll {
    /// The wire value of this setting.
    pub fn code(&self) -> (r: u16)
        requires
            channel_wf(*self),
        ensures
            r == channel_code(*self),
    {
        match self {
            ChannelOrAll::Channel(n) => *n as u16 + 1,
            ChannelOrAll::All => ALL_CHANNELS_CODE,
        }
    }

    /// The setting that a wire value stands for, if any.
    pub fn from_code(v: u16) -> (r: Option<ChannelOrAll>)
        ensures
            r == channel_from_code(v),
            r matches Some(c) ==> channel_wf(c),
    {
        if 1 <= v && v <= 16 {
            Some(ChannelOrAll::Channel((v - 1) as u8))
        } else if v == ALL_CHANNELS_CODE {
            Some(ChannelOrAll::All)
        } else {
            None
        }
    }
}

/// A value limited to `max`.
pub open spec fn clamp(v: u16, max: u16) -> u16 {
    if v > max {
        max
    } else {
        v
    }
}

/// An enumeration code carried in a wire value, if it fits a byte.
pub open spec fn byte_code(v: u16) -> Option<u8> {
    if v < 256 {
        Some(v as u8)
    } else {
        None
    }
}

fn clamp_value(v: u16, max: u16) -> (r: u16)
    ensures
        r == clamp(v, max),
{
    if v > max {
        max
    } else {
        v
    }
}

/// The settings of one button.
#[derive(Clone, Copy, Debug, PartialEq, Eq, Structural)]
pub struct Button {
    pub button_type: ButtonType,
    /// 7-bit value sent when pressed.
    pub value: u8,
    /// 7-bit MIDI id (note or controller number).
    pub midi_id: u8,
    pub message_type: MessageType,
    pub channel: ChannelOrAll,
}

/// Every numeric setting of the button is within its bit width.
pub open spec fn button_wf(b: Button) -> bool {
    b.value <= MAX_VALUE7 && b.midi_id <= MAX_VALUE7 && channel_wf(b.channel)
}

/// The wire value of a button setting.
pub open spec fn button_get(b: Button, s: ButtonSection) -> u16 {
    match s {
        ButtonSection::Type => button_type_code(b.button_type) as u16,
        ButtonSection::MessageType => message_type_code(b.message_type) as u16,
        ButtonSection::Value => b.value as u16,
        ButtonSection::MidiId => b.midi_id as u16,
        ButtonSection::Channel => channel_code(b.channel),
    }
}

/// The button after writing a wire value to one setting: numbers are
/// limited to 7 bits; a code that stands for no setting changes nothing.
pub open spec fn button_set(b: Button, s: ButtonSection, v: u16) -> Button {
    match s {
        ButtonSection::Type => match byte_code(v) {
            Some(c) => match button_type_from_code(c) {
                Some(t) => Button { button_type: t, ..b },
                None => b,
            },
            None => b,
        },
        ButtonSection::MessageType => match byte_code(v) {
            Some(c) => match message_type_from_code(c) {
                Some(t) => Button { message_type: t, ..b },
                None => b,
            },
            None => b,
        },
        ButtonSection::Value => Button { value: clamp(v, MAX_VALUE7) as u8, ..b },
        ButtonSection::MidiId => Button { midi_id: clamp(v, MAX_VALUE7) as u8, ..b },
        ButtonSection::Channel => match channel_from_code(v) {
            Some(c) => Button { channel: c, ..b },
            None => b,
        },
    }
}

/// The wire values that a button setting can hold, and so reads back.
pub open spec fn button_value_ok(s: ButtonSection, v: u16) -> bool {
    match s {
        ButtonSection::Type => byte_code(v) matches Some(c) && button_type_from_code(c) is Some,
        ButtonSection::MessageType => byte_code(v) matches Some(c) && message_type_from_code(
            c,
        ) is Some,
        ButtonSection::Value => v <= MAX_VALUE7,
        ButtonSection::MidiId => v <= MAX_VALUE7,
        ButtonSection::Channel => channel_from_code(v) is Some,
    }
}

impl Button {
    /// A momentary note button with value 1 on channel 1.
    pub fn new(midi_id: u8) -> (r: Button)
        requires
            midi_id <= MAX_VALUE7,
        ensures
            r == button_with_id(midi_id),
            button_wf(r),
    {
        Button {
            button_type: ButtonType::Momentary,
            value: 0x01,
            midi_id,
            message_type: MessageType::Note,
            channel: ChannelOrAll::Channel(0),
        }
    }

    /// Writes a wire value to one setting.
    pub fn set(&mut self, section: ButtonSection, value: u16)
        requires
            button_wf(*old(self)),
        ensures
            *final(self) == button_set(*old(self), section, value),
            button_wf(*final(self)),
    {
        match section {
            ButtonSection::Type => {
                if value < 256 {
                    if let Some(t) = ButtonType::from_code(value as u8) {
                        self.button_type = t;
                    }
                }
            },
            ButtonSection::MessageType => {
                if value < 256 {
                    if let Some(t) = MessageType::from_code(value as u8) {
                        self.message_type = t;
                    }
                }
            },
            ButtonSection::Value => self.value = clamp_value(value, MAX_VALUE7) as u8,
            ButtonSection::MidiId => self.midi_id = clamp_value(value, MAX_VALUE7) as u8,
            ButtonSection::Channel => {
                if let Some(c) = ChannelOrAll::from_code(value) {
                    self.channel = c;
                }
            },
        }
    }

    /// The wire value of one setting.
    pub fn get(&self, section: ButtonSection) -> (r: u16)
        requires
            button_wf(*self),
        ensures
            r == button_get(*self, section),
    {
        match section {
            ButtonSection::Type => self.button_type.code() as u16,
            ButtonSection::MessageType => self.message_type.code() as u16,
            ButtonSection::Value => self.value as u16,
            ButtonSection::MidiId => self.midi_id as u16,
            ButtonSection::Channel => self.channel.code(),
        }
    }
}

impl Default for Button {
    /// The button with MIDI id 0.
    fn default() -> (r: Button)
        ensures
            r == button_with_id(0),
    {
        Button::new(0x00)
    }
}

/// The settings of one encoder.
#[derive(Clone, Copy, Debug, PartialEq, Eq, Structural)]
pub struct Encoder {
    pub enabled: bool,
    pub invert_state: bool,
    pub message_type: EncoderMessageType,
    /// 14-bit MIDI id.
    pub midi_id: u16,
    pub channel: ChannelOrAll,
    /// 7-bit count of pulses per step.
    pub pulses_per_step: u8,
    pub accelleration: Accelleration,
    pub remote_sync: bool,
    /// 14-bit upper limit.
    pub upper_limit: u16,
    /// 14-bit lower limit.
    pub lower_limit: u16,
    /// 14-bit second MIDI id.
    pub second_midi_id: u16,
}

/// Every numeric setting of the encoder is within its bit width.
pub open spec fn encoder_wf(e: Encoder) -> bool {
    &&& e.midi_id <= MAX_VALUE14
    &&& e.pulses_per_step <= MAX_VALUE7
    &&& e.upper_limit <= MAX_VALUE14
    &&& e.lower_limit <= MAX_VALUE14
    &&& e.second_midi_id <= MAX_VALUE14
    &&& channel_wf(e.channel)
}

/// The wire value of a flag.
pub open spec fn flag_code(b: bool) -> u16 {
    if b {
        1
    } else {
        0
    }
}

/// The wire value of an encoder setting.
pub open spec fn encoder_get(e: Encoder, s: EncoderSection) -> u16 {
    match s {
        EncoderSection::Enabled => flag_code(e.enabled),
        EncoderSection::InvertState => flag_code(e.invert_state),
        EncoderSection::MessageType => encoder_message_type_code(e.message_type) as u16,
        EncoderSection::MidiIdLSB => e.midi_id,
        EncoderSection::Channel => channel_code(e.channel),
        EncoderSection::PulsesPerStep => e.pulses_per_step as u16,
        EncoderSection::Accelleration => accelleration_code(e.accelleration) as u16,
        EncoderSection::MidiIdMSB => e.midi_id / 128,
        EncoderSection::RemoteSync => flag_code(e.remote_sync),
        EncoderSection::LowerLimit => e.lower_limit,
        EncoderSection::UpperLimit => e.upper_limit,
        EncoderSection::SecondMidiId => e.second_midi_id,
    }
}

/// The encoder after writing a wire value to one setting: flags are set by
/// any value but zero; numbers are limited to their bit width; `MidiIdMSB`
/// replaces the upper seven bits of the MIDI id and keeps the lower seven; a
/// code that stands for no setting changes nothing.
pub open spec fn encoder_set(e: Encoder, s: EncoderSection, v: u16) -> Encoder {
    match s {
        EncoderSection::Enabled => Encoder { enabled: v != 0, ..e },
        EncoderSection::InvertState => Encoder { invert_state: v != 0, ..e },
        EncoderSection::MessageType => match byte_code(v) {
            Some(c) => match encoder_message_type_from_code(c) {
                Some(t) => Encoder { message_type: t, ..e },
                None => e,
            },
            None => e,
        },
        EncoderSection::MidiIdLSB => Encoder { midi_id: clamp(v, MAX_VALUE14), ..e },
        EncoderSection::Channel => match channel_from_code(v) {
            Some(c) => Encoder { channel: c, ..e },
            None => e,
        },
        EncoderSection::PulsesPerStep => Encoder { pulses_per_step: clamp(v, MAX_VALUE7) as u8, ..e },
        EncoderSection::Accelleration => match byte_code(v) {
            Some(c) => match accelleration_from_code(c) {
                Some(a) => Encoder { accelleration: a, ..e },
                None => e,
            },
            None => e,
        },
        EncoderSection::MidiIdMSB => Encoder {
            midi_id: (e.midi_id % 128 + 128 * clamp(v, MAX_VALUE7)) as u16,
            ..e
        },
        EncoderSection::RemoteSync => Encoder { remote_sync: v != 0, ..e },
        EncoderSection::LowerLimit => Encoder { lower_limit: clamp(v, MAX_VALUE14), ..e },
        EncoderSection::UpperLimit => Encoder { upper_limit: clamp(v, MAX_VALUE14), ..e },
        EncoderSection::SecondMidiId => Encoder { second_midi_id: clamp(v, MAX_VALUE14), ..e },
    }
}

/// The wire values that an encoder setting can hold, and so reads back.
pub open spec fn encoder_value_ok(s: EncoderSection, v: u16) -> bool {
    match s {
        EncoderSection::Enabled => v <= 1,
        EncoderSection::InvertState => v <= 1,
        EncoderSection::MessageType => byte_code(v) matches Some(c)
            && encoder_message_type_from_code(c) is Some,
        EncoderSection::MidiIdLSB => v <= MAX_VALUE14,
        EncoderSection::Channel => channel_from_code(v) is Some,
        EncoderSection::PulsesPerStep => v <= MAX_VALUE7,
        EncoderSection::Accelleration => byte_code(v) matches Some(c) && accelleration_from_code(
            c,
        ) is Some,
        EncoderSection::MidiIdMSB => v <= MAX_VALUE7,
        EncoderSection::RemoteSync => v <= 1,
        EncoderSection::LowerLimit => v <= MAX_VALUE14,
        EncoderSection::UpperLimit => v <= MAX_VALUE14,
        EncoderSection::SecondMidiId => v <= MAX_VALUE14,
    }
}

fn flag(b: bool) -> (r: u16)
    ensures
        r == flag_code(b),
{
    if b {
        1
    } else {
        0
    }
}

impl Encoder {
    /// An enabled control-change encoder on channel 1, two pulses per step.
    pub fn new(midi_id: u16) -> (r: Encoder)
        requires
            midi_id <= MAX_VALUE14,
        ensures
            r == encoder_with_id(midi_id),
            encoder_wf(r),
    {
        Encoder {
            enabled: true,
            invert_state: false,
            message_type: EncoderMessageType::ControlChange,
            channel: ChannelOrAll::Channel(0),
            pulses_per_step: 2,
            midi_id,
            accelleration: Accelleration::Disabled,
            remote_sync: false,
            lower_limit: 0,
            upper_limit: 0,
            second_midi_id: 0,
        }
    }

    /// Writes a wire value to one setting.
    pub fn set(&mut self, section: EncoderSection, value: u16)
        requires
            encoder_wf(*old(self)),
        ensures
            *final(self) == encoder_set(*old(self), section, value),
            encoder_wf(*final(self)),
    {
        match section {
            EncoderSection::MessageType => {
                if value < 256 {
                    if let Some(t) = EncoderMessageType::from_code(value as u8) {
                        self.message_type = t;
                    }
                }
            },
            EncoderSection::Channel => {
                if let Some(c) = ChannelOrAll::from_code(value) {
                    self.channel = c;
                }
            },
            EncoderSection::Enabled => self.enabled = value != 0,
            EncoderSection::MidiIdLSB => self.midi_id = clamp_value(value, MAX_VALUE14),
            EncoderSection::InvertState => self.invert_state = value != 0,
            EncoderSection::PulsesPerStep => self.pulses_per_step = clamp_value(value, MAX_VALUE7) as u8,
            EncoderSection::RemoteSync => self.remote_sync = value != 0,
            EncoderSection::Accelleration => {
                if value < 256 {
                    if let Some(a) = Accelleration::from_code(value as u8) {
                        self.accelleration = a;
                    }
                }
            },
            EncoderSection::LowerLimit => self.lower_limit = clamp_value(value, MAX_VALUE14),
            EncoderSection::UpperLimit => self.upper_limit = clamp_value(value, MAX_VALUE14),
            EncoderSection::SecondMidiId => self.second_midi_id = clamp_value(value, MAX_VALUE14),
            EncoderSection::MidiIdMSB => {
                self.midi_id = self.midi_id % 128 + 128 * clamp_value(value, MAX_VALUE7);
            },
        }
    }

    /// The wire value of one setting.
    pub fn get(&self, section: EncoderSection) -> (r: u16)
        requires
            encoder_wf(*self),
        ensures
            r == encoder_get(*self, section),
    {
        match section {
            EncoderSection::MessageType => self.message_type.code() as u16,
            EncoderSection::Channel => self.channel.code(),
            EncoderSection::Enabled => flag(self.enabled),
            EncoderSection::MidiIdLSB => self.midi_id,
            EncoderSection::InvertState => flag(self.invert_state),
            EncoderSection::PulsesPerStep => self.pulses_per_step as u16,
            EncoderSection::RemoteSync => flag(self.remote_sync),
            EncoderSection::Accelleration => self.accelleration.code() as u16,
            EncoderSection::LowerLimit => self.lower_limit,
            EncoderSection::UpperLimit => self.upper_limit,
            EncoderSection::SecondMidiId => self.second_midi_id,
            EncoderSection::MidiIdMSB => self.midi_id / 128,
        }
    }
}

/// Writing a value that a button setting can hold, then reading that
/// setting, gives the value back.
pub proof fn lemma_button_read_after_write(b: Button, s: ButtonSection, v: u16)
    requires
        button_value_ok(s, v),
    ensures
        button_get(button_set(b, s, v), s) == v,
{
}

/// Writing a value that an encoder setting can hold, then reading that
/// setting, gives the value back.
pub proof fn lemma_encoder_read_after_write(e: Encoder, s: EncoderSection, v: u16)
    requires
        encoder_value_ok(s, v),
    ensures
        encoder_get(encoder_set(e, s, v), s) == v,
{
}

/// A button with the given MIDI id and every other setting at its default.
pub open spec fn button_with_id(midi_id: u8) -> Button {
    Button {
        button_type: ButtonType::Momentary,
        value: 1,
        midi_id,
        message_type: MessageType::Note,
        channel: ChannelOrAll::Channel(0),
    }
}

/// An encoder with the given MIDI id and every other setting at its default.
pub open spec fn encoder_with_id(midi_id: u16) -> Encoder {
    Encoder {
        enabled: true,
        invert_state: false,
        message_type: EncoderMessageType::ControlChange,
        midi_id,
        channel: ChannelOrAll::Channel(0),
        pulses_per_step: 2,
        accelleration: Accelleration::Disabled,
        remote_sync: false,
        upper_limit: 0,
        lower_limit: 0,
        second_midi_id: 0,
    }
}

/// The buttons and encoders of one preset.
#[derive(Clone, Copy, Debug)]
pub struct Preset {
    pub buttons: [Button; NR_BUTTONS],
    pub encoders: [Encoder; NR_ENCODERS],
}

/// The content of a [`Preset`].
pub struct PresetView {
    pub buttons: Seq<Button>,
    pub encoders: Seq<Encoder>,
}

impl View for Preset {
    type V = PresetView;

    open spec fn view(&self) -> PresetView {
        PresetView { buttons: self.buttons@, encoders: self.encoders@ }
    }
}

/// Full lists of buttons and encoders, each within range.
pub open spec fn preset_wf(p: PresetView) -> bool {
    &&& p.buttons.len() == NR_BUTTONS
    &&& p.encoders.len() == NR_ENCODERS
    &&& forall|i: int| 0 <= i < NR_BUTTONS ==> button_wf(#[trigger] p.buttons[i])
    &&& forall|i: int| 0 <= i < NR_ENCODERS ==> encoder_wf(#[trigger] p.encoders[i])
}

/// A fresh preset: every entry at its defaults, with its own index as MIDI id.
pub open spec fn default_preset() -> PresetView {
    PresetView {
        buttons: Seq::new(NR_BUTTONS as nat, |i: int| button_with_id(i as u8)),
        encoders: Seq::new(NR_ENCODERS as nat, |i: int| encoder_with_id(i as u16)),
    }
}

impl Preset {
    /// The button at `index`, if there is one.
    pub fn button(&self, index: u16) -> (r: Option<&Button>)
        ensures
            match r {
                Some(b) => index < NR_BUTTONS && *b == self@.buttons[index as int],
                None => index >= NR_BUTTONS,
            },
    {
        if (index as usize) < NR_BUTTONS {
            Some(&self.buttons[index as usize])
        } else {
            None
        }
    }

    /// The encoder at `index`, if there is one.
    pub fn encoder(&self, index: u16) -> (r: Option<&Encoder>)
        ensures
            match r {
                Some(e) => index < NR_ENCODERS && *e == self@.encoders[index as int],
                None => index >= NR_ENCODERS,
            },
    {
        if (index as usize) < NR_ENCODERS {
            Some(&self.encoders[index as usize])
        } else {
            None
        }
    }
}

impl Default for Preset {
    /// Every entry at its defaults, with its own index as MIDI id.
    fn default() -> (r: Preset)
        ensures
            r@ == default_preset(),
            preset_wf(r@),
    {
        let mut buttons = [Button::new(0); NR_BUTTONS];
        let mut i: usize = 0;
        while i < NR_BUTTONS
            invariant
                i <= NR_BUTTONS,
                buttons@.len() == NR_BUTTONS,
                forall|j: int| 0 <= j < i ==> buttons@[j] == button_with_id(j as u8),
            decreases NR_BUTTONS - i,
        {
            buttons[i] = Button::new(i as u8);
            i += 1;
        }
        let mut encoders = [Encoder::new(0); NR_ENCODERS];
        let mut i: usize = 0;
        while i < NR_ENCODERS
            invariant
                i <= NR_ENCODERS,
                encoders@.len() == NR_ENCODERS,
                forall|j: int| 0 <= j < i ==> encoders@[j] == encoder_with_id(j as u16),
            decreases NR_ENCODERS - i,
        {
            encoders[i] = Encoder::new(i as u16);
            i += 1;
        }
        let r = Preset { buttons, encoders };
        assert(r@.buttons =~= default_preset().buttons);
        assert(r@.encoders =~= default_preset().encoders);
        r
    }
}

} // verus!
