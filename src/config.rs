//! The request dispatcher: the device's configuration state, how each
//! request reads or changes it, and what is answered.
//!
//! Configuration requests are served whether or not a handshake was made;
//! the handshake only records that the host has connected.
use vstd::prelude::*;

use crate::codec::ValueSize;
use crate::model::{
    button_get, button_set, button_value_ok, default_preset, encoder_get, encoder_set,
    encoder_value_ok, encoder_wf, button_wf, Button, Encoder, lemma_button_read_after_write, lemma_encoder_read_after_write, preset_wf,
    Preset, PresetView, NR_BUTTONS, NR_ENCODERS,
};
use crate::parser::Parser;
use crate::protocol::{
    Amount, Block, ButtonSection, EncoderSection, FirmwareVersion, GlobalSection, HardwareUid,
    MessageStatus, NrOfSupportedComponents, ParseError, PresetIndex, Request, RequestView,
    Response, ResponseView, SpecialRequest, SpecialResponse, Wish, ALL_PARTS_WITH_END,
};
use crate::renderer::Renderer;
use crate::codec::all_fit;
use crate::wire::{
    frame_ok, parse_request_spec, parse_response_spec, request_fits, response_bytes, response_fits,
    special_values, MAX_MESSAGE_LEN,
};

verus! {

/// Presets of the device.
pub const NR_PRESETS: usize = 2;

/// Analog inputs of the device.
pub const NR_ANALOG: u16 = 2;

/// LEDs of the device.
pub const NR_LEDS: u16 = 8;

/// Touchscreen buttons of the device.
pub const NR_TOUCHSCREEN_BUTTONS: u16 = 0;

/// Values that one message may carry.
pub const VALUES_PER_MESSAGE: u16 = 32;

/// Hardware id used by [`Config::new`].
pub const DEFAULT_UID: u32 = 0x12345677;

/// What the platform is to do after a request, besides sending responses.
/// Both never return.
#[derive(Clone, Copy, Debug, PartialEq, Eq, Structural)]
pub enum DeviceAction {
    /// Reset the system.
    Reboot,
    /// Jump to the boot ROM.
    Bootloader,
}

/// The configuration state of the device.
pub struct Config {
    armed: bool,
    active_preset: usize,
    presets: [Preset; NR_PRESETS],
    value_size: ValueSize,
    firmware_version: FirmwareVersion,
    uid: HardwareUid,
}

/// The content of a [`Config`].
pub struct ConfigView {
    /// A handshake has been made.
    pub armed: bool,
    /// Index of the live preset.
    pub active_preset: int,
    pub presets: Seq<PresetView>,
    /// Value width of the session.
    pub value_size: ValueSize,
    pub firmware_version: FirmwareVersion,
    pub uid: HardwareUid,
}

impl View for Config {
    type V = ConfigView;

    closed spec fn view(&self) -> ConfigView {
        ConfigView {
            armed: self.armed,
            active_preset: self.active_preset as int,
            presets: Seq::new(NR_PRESETS as nat, |i: int| self.presets@[i]@),
            value_size: self.value_size,
            firmware_version: self.firmware_version,
            uid: self.uid,
        }
    }
}

/// The live preset is one of the presets, every preset is well formed, and
/// the session carries two-byte values.
pub open spec fn config_wf(c: ConfigView) -> bool {
    &&& c.value_size == ValueSize::TwoBytes
    &&& 0 <= c.active_preset < NR_PRESETS
    &&& c.presets.len() == NR_PRESETS
    &&& forall|i: int| 0 <= i < NR_PRESETS ==> preset_wf(#[trigger] c.presets[i])
}

/// The live preset.
pub open spec fn current(c: ConfigView) -> PresetView {
    c.presets[c.active_preset]
}

/// The state with the live preset replaced.
pub open spec fn with_current(c: ConfigView, p: PresetView) -> ConfigView {
    ConfigView { presets: c.presets.update(c.active_preset, p), ..c }
}

/// The component counts of the device.
pub open spec fn components() -> NrOfSupportedComponents {
    NrOfSupportedComponents {
        buttons: NR_BUTTONS as u16,
        encoders: NR_ENCODERS as u16,
        analog: NR_ANALOG,
        leds: NR_LEDS,
        touchscreen_buttons: NR_TOUCHSCREEN_BUTTONS,
    }
}

/// State, answer and platform action of a special request.
pub open spec fn special_outcome(c: ConfigView, sq: SpecialRequest) -> (
    ConfigView,
    Option<SpecialResponse>,
    Option<DeviceAction>,
) {
    match sq {
        SpecialRequest::Handshake => (
            ConfigView { armed: true, ..c },
            Some(SpecialResponse::Handshake),
            None,
        ),
        SpecialRequest::Reboot => (c, None, Some(DeviceAction::Reboot)),
        SpecialRequest::BootloaderMode => (c, None, Some(DeviceAction::Bootloader)),
        SpecialRequest::ValueSize => (c, Some(SpecialResponse::ValueSize), None),
        SpecialRequest::ValuesPerMessage => (
            c,
            Some(SpecialResponse::ValuesPerMessage(VALUES_PER_MESSAGE)),
            None,
        ),
        SpecialRequest::FirmwareVersion => (
            c,
            Some(SpecialResponse::FirmwareVersion(c.firmware_version)),
            None,
        ),
        SpecialRequest::HardwareUID => (c, Some(SpecialResponse::HardwareUID(c.uid)), None),
        SpecialRequest::FirmwareVersionAndHardwareUUID => (
            c,
            Some(SpecialResponse::FirmwareVersionAndHardwareUUID(c.firmware_version, c.uid)),
            None,
        ),
        SpecialRequest::BootloaderSupport => (c, Some(SpecialResponse::BootloaderSupport(true)), None),
        SpecialRequest::NrOfSupportedPresets => (
            c,
            Some(SpecialResponse::NrOfSupportedPresets(NR_PRESETS as u16)),
            None,
        ),
        SpecialRequest::NrOfSupportedComponents => (
            c,
            Some(SpecialResponse::NrOfSupportedComponents(components())),
            None,
        ),
        SpecialRequest::FactoryReset => (c, None, None),
    }
}

/// The state after a configuration request. Only `Write` with a value
/// changes anything: the live preset index (when the new index names a
/// preset; otherwise it stays), or one setting of an existing button or
/// encoder of the live preset.
pub open spec fn config_after(c: ConfigView, wish: Wish, block: Block, values: Seq<u16>) -> ConfigView {
    if wish != Wish::Write || values.len() == 0 {
        c
    } else {
        let v = values[0];
        let p = current(c);
        match block {
            Block::Global(GlobalSection::Presets(PresetIndex::Active)) => if v < NR_PRESETS {
                ConfigView { active_preset: v as int, ..c }
            } else {
                c
            },
            Block::Button(i, s) => if i < NR_BUTTONS {
                with_current(
                    c,
                    PresetView {
                        buttons: p.buttons.update(i as int, button_set(p.buttons[i as int], s, v)),
                        ..p
                    },
                )
            } else {
                c
            },
            Block::Encoder(i, s) => if i < NR_ENCODERS {
                with_current(
                    c,
                    PresetView {
                        encoders: p.encoders.update(
                            i as int,
                            encoder_set(p.encoders[i as int], s, v),
                        ),
                        ..p
                    },
                )
            } else {
                c
            },
            _ => c,
        }
    }
}

/// The amount echoed and the values answered to a configuration request.
/// Reads of a missing entry answer no value; reads of all entries answer
/// one value per entry, in index order, and echo `All(0)`.
pub open spec fn config_answer(c: ConfigView, wish: Wish, amount: Amount, block: Block) -> (
    Amount,
    Seq<u16>,
) {
    let p = current(c);
    if wish == Wish::Write {
        (amount, seq![])
    } else {
        match block {
            Block::Global(GlobalSection::Presets(PresetIndex::Active)) => (
                amount,
                seq![c.active_preset as u16],
            ),
            Block::Button(i, s) => match amount {
                Amount::Single => (
                    amount,
                    if i < NR_BUTTONS {
                        seq![button_get(p.buttons[i as int], s)]
                    } else {
                        seq![]
                    },
                ),
                Amount::All(_) => (Amount::All(0), p.buttons.map_values(|b| button_get(b, s))),
            },
            Block::Encoder(i, s) => match amount {
                Amount::Single => (
                    amount,
                    if i < NR_ENCODERS {
                        seq![encoder_get(p.encoders[i as int], s)]
                    } else {
                        seq![]
                    },
                ),
                Amount::All(_) => (Amount::All(0), p.encoders.map_values(|e| encoder_get(e, s))),
            },
            _ => (amount, seq![]),
        }
    }
}

/// State, answer and platform action of a request.
pub open spec fn dispatch(c: ConfigView, q: RequestView) -> (
    ConfigView,
    Option<ResponseView>,
    Option<DeviceAction>,
) {
    match q {
        RequestView::Special(sq) => {
            let (c2, r, a) = special_outcome(c, sq);
            (
                c2,
                match r {
                    Some(sr) => Some(ResponseView::Special(sr)),
                    None => None,
                },
                a,
            )
        },
        RequestView::Configuration(wish, amount, block, vs) => {
            let (echo, out) = config_answer(c, wish, amount, block);
            (
                config_after(c, wish, block, vs),
                Some(ResponseView::Configuration(wish, echo, block, out)),
                None,
            )
        },
    }
}

/// The closing message of a bulk read that asked for one.
pub open spec fn end_of_dump(q: RequestView) -> Option<ResponseView> {
    match q {
        RequestView::Configuration(wish, Amount::All(part), block, _) => if wish != Wish::Write
            && part == ALL_PARTS_WITH_END {
            Some(ResponseView::Configuration(wish, Amount::All(part), block, seq![]))
        } else {
            None
        },
        _ => None,
    }
}

/// The messages sent for one response: its bytes, or nothing when it cannot
/// be rendered.
pub open spec fn rendered(r: ResponseView, s: MessageStatus, w: ValueSize) -> Seq<Seq<u8>> {
    if response_fits(r, w) && response_bytes(r, s, w).len() <= MAX_MESSAGE_LEN {
        seq![response_bytes(r, s, w)]
    } else {
        seq![]
    }
}

/// State, messages sent and platform action for one incoming SysEx message.
pub open spec fn sysex_outcome(c: ConfigView, b: Seq<u8>) -> (
    ConfigView,
    Seq<Seq<u8>>,
    Option<DeviceAction>,
) {
    let w = c.value_size;
    match parse_request_spec(b, w) {
        Ok(q) => {
            let (c2, r, act) = dispatch(c, q);
            let first = match r {
                Some(res) => rendered(res, MessageStatus::Response, w),
                None => seq![],
            };
            let end = match end_of_dump(q) {
                Some(e) => rendered(e, MessageStatus::Response, w),
                None => seq![],
            };
            (c2, first + end, act)
        },
        Err(ParseError::StatusError(s)) => (
            c,
            seq![response_bytes(ResponseView::Special(SpecialResponse::Handshake), s, w)],
            None,
        ),
        Err(ParseError::Malformed) => (c, seq![], None),
    }
}

/// The messages to send for one incoming message, and what the platform is
/// to do afterwards.
pub struct Responses {
    pub messages: Vec<Vec<u8>>,
    pub action: Option<DeviceAction>,
}

/// The bytes of each message.
pub open spec fn messages_of(ms: Seq<Vec<u8>>) -> Seq<Seq<u8>> {
    Seq::new(ms.len(), |i: int| ms[i]@)
}

/// A freshly started device with the given identity.
pub open spec fn initial_config(firmware_version: FirmwareVersion, uid: HardwareUid) -> ConfigView {
    ConfigView {
        armed: false,
        active_preset: 0,
        presets: Seq::new(NR_PRESETS as nat, |i: int| default_preset()),
        value_size: ValueSize::TwoBytes,
        firmware_version,
        uid,
    }
}

/// Version 1.0.0, reported by [`Config::new`].
pub open spec fn default_firmware_version() -> FirmwareVersion {
    FirmwareVersion { major: 1, minor: 0, revision: 0 }
}

/// Version 1.0.0.
pub fn firmware_version() -> (r: FirmwareVersion)
    ensures
        r == default_firmware_version(),
{
    FirmwareVersion { major: 1, minor: 0, revision: 0 }
}

/// Renders a response and appends it to `out`, unless it cannot be rendered.
fn push_rendered(out: &mut Vec<Vec<u8>>, renderer: &Renderer, r: &Response, s: MessageStatus)
    ensures
        messages_of(final(out)@) == messages_of(old(out)@) + rendered(r@, s, renderer.value_size),
{
    match renderer.render(r, s) {
        Ok(buf) => {
            out.push(buf);
        },
        Err(_) => {},
    }
    assert(messages_of(final(out)@) =~= messages_of(old(out)@) + rendered(r@, s, renderer.value_size));
}

impl Config {
    /// A freshly started device: unarmed, first preset live, every preset at
    /// its defaults, two-byte values, version 1.0.0.
    pub fn new() -> (r: Config)
        ensures
            r@ == initial_config(default_firmware_version(), HardwareUid(DEFAULT_UID)),
            config_wf(r@),
    {
        Config::with_identity(firmware_version(), HardwareUid(DEFAULT_UID))
    }

    /// A freshly started device that reports the given identity.
    pub fn with_identity(firmware_version: FirmwareVersion, uid: HardwareUid) -> (r: Config)
        ensures
            r@ == initial_config(firmware_version, uid),
            config_wf(r@),
    {
        let preset = Preset::default();
        let presets = [preset; NR_PRESETS];
        let r = Config {
            armed: false,
            active_preset: 0,
            presets,
            value_size: ValueSize::TwoBytes,
            firmware_version,
            uid,
        };
        assert(r@.presets =~= initial_config(firmware_version, uid).presets);
        r
    }

    /// Whether a handshake has been made.
    pub fn armed(&self) -> (r: bool)
        ensures
            r == self@.armed,
    {
        self.armed
    }

    /// Index of the live preset.
    pub fn active_preset(&self) -> (r: usize)
        ensures
            r == self@.active_preset,
    {
        self.active_preset
    }

    /// The live preset, if the live index names one.
    pub fn current_preset(&self) -> (r: Option<&Preset>)
        requires
            config_wf(self@),
        ensures
            r matches Some(p) && p@ == current(self@),
    {
        if self.active_preset < NR_PRESETS {
            Some(&self.presets[self.active_preset])
        } else {
            None
        }
    }

    /// Answers a special request; `Handshake` arms the device, `Reboot`
    /// and `BootloaderMode` ask the platform for their action.
    pub fn process_special_req(&mut self, special: SpecialRequest) -> (r: (
        Option<SpecialResponse>,
        Option<DeviceAction>,
    ))
        requires
            config_wf(old(self)@),
        ensures
            (final(self)@, r.0, r.1) == special_outcome(old(self)@, special),
            config_wf(final(self)@),
    {
        match special {
            SpecialRequest::BootloaderMode => (None, Some(DeviceAction::Bootloader)),
            SpecialRequest::Reboot => (None, Some(DeviceAction::Reboot)),
            SpecialRequest::Handshake => {
                self.armed = true;
                (Some(SpecialResponse::Handshake), None)
            },
            SpecialRequest::ValueSize => (Some(SpecialResponse::ValueSize), None),
            SpecialRequest::ValuesPerMessage => (
                Some(SpecialResponse::ValuesPerMessage(VALUES_PER_MESSAGE)),
                None,
            ),
            SpecialRequest::FirmwareVersion => (
                Some(SpecialResponse::FirmwareVersion(self.firmware_version)),
                None,
            ),
            SpecialRequest::HardwareUID => (Some(SpecialResponse::HardwareUID(self.uid)), None),
            SpecialRequest::FirmwareVersionAndHardwareUUID => (
                Some(
                    SpecialResponse::FirmwareVersionAndHardwareUUID(self.firmware_version, self.uid),
                ),
                None,
            ),
            SpecialRequest::BootloaderSupport => (Some(SpecialResponse::BootloaderSupport(true)), None),
            SpecialRequest::NrOfSupportedPresets => (
                Some(SpecialResponse::NrOfSupportedPresets(NR_PRESETS as u16)),
                None,
            ),
            SpecialRequest::NrOfSupportedComponents => (
                Some(
                    SpecialResponse::NrOfSupportedComponents(
                        NrOfSupportedComponents {
                            buttons: NR_BUTTONS as u16,
                            encoders: NR_ENCODERS as u16,
                            analog: NR_ANALOG,
                            leds: NR_LEDS,
                            touchscreen_buttons: NR_TOUCHSCREEN_BUTTONS,
                        },
                    ),
                ),
                None,
            ),
            SpecialRequest::FactoryReset => (None, None),
        }
    }

    /// Serves a configuration request against the live preset (the live
    /// preset index itself for `Global/Presets(Active)`), and returns the
    /// values read and the amount to echo.
    pub fn process_config(&mut self, wish: Wish, amount: Amount, block: Block, values: &[u16]) -> (r: (
        Vec<u16>,
        Amount,
    ))
        requires
            config_wf(old(self)@),
        ensures
            final(self)@ == config_after(old(self)@, wish, block, values@),
            (r.1, r.0@) == config_answer(old(self)@, wish, amount, block),
            config_wf(final(self)@),
    {
        let ghost c = self@;
        let mut res_values: Vec<u16> = Vec::new();
        let mut for_amount = amount;
        let a = self.active_preset;
        match block {
            Block::Global(GlobalSection::Presets(PresetIndex::Active)) => match wish {
                Wish::Write => {
                    if values.len() > 0 && (values[0] as usize) < NR_PRESETS {
                        self.active_preset = values[0] as usize;
                    }
                },
                Wish::Get | Wish::Backup => {
                    res_values.push(self.active_preset as u16);
                },
            },
            Block::Button(index, section) => match wish {
                Wish::Write => {
                    if values.len() > 0 && (index as usize) < NR_BUTTONS {
                        let mut preset = self.presets[a];
                        let mut button = preset.buttons[index as usize];
                        assert(preset_wf(c.presets[a as int]));
                        button.set(section, values[0]);
                        preset.buttons[index as usize] = button;
                        self.presets[a] = preset;
                        proof {
                            assert(self@.presets =~= config_after(c, wish, block, values@).presets);
                            assert(self@.presets[a as int].buttons =~= config_after(c, wish, block, values@).presets[a as int].buttons);
                        }
                    }
                },
                Wish::Get | Wish::Backup => match amount {
                    Amount::Single => {
                        if let Some(b) = self.presets[a].button(index) {
                            assert(preset_wf(c.presets[a as int]));
                            res_values.push(b.get(section));
                        }
                    },
                    Amount::All(_) => {
                        let preset = &self.presets[a];
                        assert(preset_wf(c.presets[a as int]));
                        let mut i: usize = 0;
                        while i < NR_BUTTONS
                            invariant
                                i <= NR_BUTTONS,
                                preset@ == current(c),
                                preset_wf(preset@),
                                res_values@ == current(c).buttons.map_values(|b| button_get(b, section)).subrange(0, i as int),
                            decreases NR_BUTTONS - i,
                        {
                            res_values.push(preset.buttons[i].get(section));
                            i += 1;
                            proof {
                                assert(res_values@ =~= current(c).buttons.map_values(|b| button_get(b, section)).subrange(0, i as int));
                            }
                        }
                        assert(res_values@ =~= current(c).buttons.map_values(|b| button_get(b, section)));
                        for_amount = Amount::All(0);
                    },
                },
            },
            Block::Encoder(index, section) => match wish {
                Wish::Write => {
                    if values.len() > 0 && (index as usize) < NR_ENCODERS {
                        let mut preset = self.presets[a];
                        let mut encoder = preset.encoders[index as usize];
                        assert(preset_wf(c.presets[a as int]));
                        encoder.set(section, values[0]);
                        preset.encoders[index as usize] = encoder;
                        self.presets[a] = preset;
                        proof {
                            assert(self@.presets =~= config_after(c, wish, block, values@).presets);
                            assert(self@.presets[a as int].encoders =~= config_after(c, wish, block, values@).presets[a as int].encoders);
                        }
                    }
                },
                Wish::Get | Wish::Backup => match amount {
                    Amount::Single => {
                        if let Some(e) = self.presets[a].encoder(index) {
                            assert(preset_wf(c.presets[a as int]));
                            res_values.push(e.get(section));
                        }
                    },
                    Amount::All(_) => {
                        let preset = &self.presets[a];
                        assert(preset_wf(c.presets[a as int]));
                        let mut i: usize = 0;
                        while i < NR_ENCODERS
                            invariant
                                i <= NR_ENCODERS,
                                preset@ == current(c),
                                preset_wf(preset@),
                                res_values@ == current(c).encoders.map_values(|e| encoder_get(e, section)).subrange(0, i as int),
                            decreases NR_ENCODERS - i,
                        {
                            res_values.push(preset.encoders[i].get(section));
                            i += 1;
                            proof {
                                assert(res_values@ =~= current(c).encoders.map_values(|e| encoder_get(e, section)).subrange(0, i as int));
                            }
                        }
                        assert(res_values@ =~= current(c).encoders.map_values(|e| encoder_get(e, section)));
                        for_amount = Amount::All(0);
                    },
                },
            },
            _ => {},
        }
        proof {
            assert(res_values@ =~= config_answer(c, wish, amount, block).1);
        }
        (res_values, for_amount)
    }

    /// Serves a parsed request: the answer, if any, and the platform action.
    pub fn process_req(&mut self, req: &Request) -> (r: (Option<Response>, Option<DeviceAction>))
        requires
            config_wf(old(self)@),
        ensures
            final(self)@ == dispatch(old(self)@, req@).0,
            match r.0 {
                Some(res) => dispatch(old(self)@, req@).1 == Some(res@),
                None => dispatch(old(self)@, req@).1 is None,
            },
            r.1 == dispatch(old(self)@, req@).2,
            config_wf(final(self)@),
    {
        match req {
            Request::Special(special) => {
                let (res, action) = self.process_special_req(*special);
                match res {
                    Some(sr) => (Some(Response::Special(sr)), action),
                    None => (None, action),
                }
            },
            Request::Configuration(wish, amount, block, values) => {
                let (res_values, for_amount) = self.process_config(
                    *wish,
                    *amount,
                    *block,
                    values.as_slice(),
                );
                (Some(Response::Configuration(*wish, for_amount, *block, res_values)), None)
            },
        }
    }

    /// Processes one incoming SysEx message, start and end bytes included:
    /// parses it, serves it, and renders the answers. A malformed message is
    /// dropped without answer; one whose status is not `Request` is answered
    /// with a handshake carrying the status error. A bulk read whose part is
    /// [`ALL_PARTS_WITH_END`] is followed by an empty closing message.
    pub fn process_sysex(&mut self, request: &[u8]) -> (r: Responses)
        requires
            config_wf(old(self)@),
        ensures
            (final(self)@, messages_of(r.messages@), r.action) == sysex_outcome(old(self)@, request@),
            config_wf(final(self)@),
    {
        let parser = Parser::new(self.value_size);
        let renderer = Renderer::new(self.value_size);
        let mut messages: Vec<Vec<u8>> = Vec::new();
        let mut action: Option<DeviceAction> = None;
        match parser.parse(request) {
            Ok(req) => {
                let (res, act) = self.process_req(&req);
                action = act;
                if let Some(odr) = res {
                    push_rendered(&mut messages, &renderer, &odr, MessageStatus::Response);
                }
                if let Request::Configuration(wish, Amount::All(part), block, _) = &req {
                    if *wish != Wish::Write && *part == ALL_PARTS_WITH_END {
                        let end = Response::Configuration(
                            *wish,
                            Amount::All(ALL_PARTS_WITH_END),
                            *block,
                            Vec::new(),
                        );
                        push_rendered(&mut messages, &renderer, &end, MessageStatus::Response);
                    }
                }
            },
            Err(ParseError::StatusError(status)) => {
                let hs = Response::Special(SpecialResponse::Handshake);
                push_rendered(&mut messages, &renderer, &hs, status);
            },
            Err(ParseError::Malformed) => {},
        }
        Responses { messages, action }
    }
}

/// Writing a value that a button setting can hold, then reading that setting
/// of the same button, answers exactly that value.
pub proof fn lemma_button_write_then_read(
    c: ConfigView,
    index: u16,
    section: ButtonSection,
    v: u16,
    write_amount: Amount,
    read: Wish,
)
    requires
        config_wf(c),
        index < NR_BUTTONS,
        button_value_ok(section, v),
        read != Wish::Write,
    ensures
        dispatch(
            dispatch(
                c,
                RequestView::Configuration(Wish::Write, write_amount, Block::Button(index, section), seq![v]),
            ).0,
            RequestView::Configuration(read, Amount::Single, Block::Button(index, section), seq![]),
        ).1 == Some(
            ResponseView::Configuration(read, Amount::Single, Block::Button(index, section), seq![v]),
        ),
{
    let p = current(c);
    lemma_button_read_after_write(p.buttons[index as int], section, v);
}

/// Writing a value that an encoder setting can hold, then reading that
/// setting of the same encoder, answers exactly that value.
pub proof fn lemma_encoder_write_then_read(
    c: ConfigView,
    index: u16,
    section: EncoderSection,
    v: u16,
    write_amount: Amount,
    read: Wish,
)
    requires
        config_wf(c),
        index < NR_ENCODERS,
        encoder_value_ok(section, v),
        read != Wish::Write,
    ensures
        dispatch(
            dispatch(
                c,
                RequestView::Configuration(Wish::Write, write_amount, Block::Encoder(index, section), seq![v]),
            ).0,
            RequestView::Configuration(read, Amount::Single, Block::Encoder(index, section), seq![]),
        ).1 == Some(
            ResponseView::Configuration(read, Amount::Single, Block::Encoder(index, section), seq![v]),
        ),
{
    let p = current(c);
    lemma_encoder_read_after_write(p.encoders[index as int], section, v);
}

/// Reading a button setting of all buttons answers one value per button of
/// the live preset, in index order, leaves the state as it was, and echoes
/// `All(0)`.
pub proof fn lemma_all_buttons(
    c: ConfigView,
    read: Wish,
    part: u8,
    index: u16,
    section: ButtonSection,
    vs: Seq<u16>,
)
    requires
        config_wf(c),
        read != Wish::Write,
    ensures
        ({
            let (c2, r, act) = dispatch(
                c,
                RequestView::Configuration(read, Amount::All(part), Block::Button(index, section), vs),
            );
            &&& c2 == c
            &&& act is None
            &&& r matches Some(ResponseView::Configuration(w, a, b, out))
            &&& w == read && a == Amount::All(0) && b == Block::Button(index, section)
            &&& out.len() == NR_BUTTONS
            &&& forall|i: int| 0 <= i < NR_BUTTONS ==> #[trigger] out[i] == button_get(current(c).buttons[i], section)
        }),
{
}

/// Reading an encoder setting of all encoders answers one value per encoder
/// of the live preset, in index order, leaves the state as it was, and
/// echoes `All(0)`.
pub proof fn lemma_all_encoders(
    c: ConfigView,
    read: Wish,
    part: u8,
    index: u16,
    section: EncoderSection,
    vs: Seq<u16>,
)
    requires
        config_wf(c),
        read != Wish::Write,
    ensures
        ({
            let (c2, r, act) = dispatch(
                c,
                RequestView::Configuration(read, Amount::All(part), Block::Encoder(index, section), vs),
            );
            &&& c2 == c
            &&& act is None
            &&& r matches Some(ResponseView::Configuration(w, a, b, out))
            &&& w == read && a == Amount::All(0) && b == Block::Encoder(index, section)
            &&& out.len() == NR_ENCODERS
            &&& forall|i: int| 0 <= i < NR_ENCODERS ==> #[trigger] out[i] == encoder_get(current(c).encoders[i], section)
        }),
{
}

/// A handshake arms the device and changes nothing else; a second one
/// leaves the state as the first left it; no other request changes whether
/// the device is armed.
pub proof fn lemma_handshake(c: ConfigView, q: RequestView)
    requires
        config_wf(c),
    ensures
        dispatch(c, RequestView::Special(SpecialRequest::Handshake)).0 == (ConfigView { armed: true, ..c }),
        dispatch(dispatch(c, RequestView::Special(SpecialRequest::Handshake)).0, RequestView::Special(SpecialRequest::Handshake)).0
            == dispatch(c, RequestView::Special(SpecialRequest::Handshake)).0,
        q != RequestView::Special(SpecialRequest::Handshake) ==> dispatch(c, q).0.armed == c.armed,
{
}

/// Making preset `n` live, then reading the live preset index, answers `n`
/// when `n` names a preset; otherwise the write leaves the state as it was.
pub proof fn lemma_switch_preset(c: ConfigView, n: u16, write_amount: Amount, read_amount: Amount, read: Wish)
    requires
        config_wf(c),
        read != Wish::Write,
    ensures
        ({
            let active = Block::Global(GlobalSection::Presets(PresetIndex::Active));
            let c1 = dispatch(c, RequestView::Configuration(Wish::Write, write_amount, active, seq![n])).0;
            &&& config_wf(c1)
            &&& n < NR_PRESETS ==> dispatch(c1, RequestView::Configuration(read, read_amount, active, seq![])).1
                == Some(ResponseView::Configuration(read, read_amount, active, seq![n]))
            &&& n >= NR_PRESETS ==> c1 == c
        }),
{
}

/// A message that is not framed as a SysEx message of this protocol (too
/// short for a header, a wrong header byte, or no end byte) is dropped: no
/// message is sent, the state is unchanged, and nothing is asked of the
/// platform. So is any other malformed message.
pub proof fn lemma_malformed_dropped(c: ConfigView, b: Seq<u8>)
    requires
        !frame_ok(b) || parse_request_spec(b, c.value_size) == Err::<RequestView, _>(ParseError::Malformed),
    ensures
        parse_request_spec(b, c.value_size) == Err::<RequestView, _>(ParseError::Malformed),
        sysex_outcome(c, b) == (c, Seq::<Seq<u8>>::empty(), None::<DeviceAction>),
{
}

/// Every value a button setting answers fits two bytes.
proof fn lemma_button_get_fits(b: Button, s: ButtonSection)
    requires
        button_wf(b),
    ensures
        button_get(b, s) <= 16383,
{
}

/// Every value an encoder setting answers fits two bytes.
proof fn lemma_encoder_get_fits(e: Encoder, s: EncoderSection)
    requires
        encoder_wf(e),
    ensures
        encoder_get(e, s) <= 16383,
{
}

/// Every response the dispatcher gives to a parsed request fits the
/// session's width and a message.
pub proof fn lemma_dispatch_renders(c: ConfigView, q: RequestView, r: ResponseView)
    requires
        config_wf(c),
        request_fits(q, c.value_size),
        dispatch(c, q).1 == Some(r),
    ensures
        response_fits(r, c.value_size),
        response_bytes(r, MessageStatus::Response, c.value_size).len() <= MAX_MESSAGE_LEN,
{
    let w = c.value_size;
    match q {
        RequestView::Special(sq) => {
            match r {
                ResponseView::Special(sr) => {
                    let vs = special_values(sr, w);
                    match sr {
                        SpecialResponse::HardwareUID(u) => {
                            assert(u.0 / 0x1000000 < 256);
                        },
                        SpecialResponse::FirmwareVersionAndHardwareUUID(_, u) => {
                            assert(u.0 / 0x1000000 < 256);
                        },
                        _ => {},
                    }
                    assert(all_fit(vs, w));
                    assert(vs.len() <= 7);
                },
                _ => {},
            }
        },
        RequestView::Configuration(wish, amount, block, vs) => {
            let p = current(c);
            assert(preset_wf(p));
            let out = config_answer(c, wish, amount, block).1;
            match block {
                Block::Button(i, s) => {
                    if i < NR_BUTTONS {
                        lemma_button_get_fits(p.buttons[i as int], s);
                    }
                    assert forall|k: int| 0 <= k < NR_BUTTONS implies #[trigger] p.buttons[k] == p.buttons[k] && button_get(p.buttons[k], s) <= 16383 by {
                        lemma_button_get_fits(p.buttons[k], s);
                    }
                },
                Block::Encoder(i, s) => {
                    if i < NR_ENCODERS {
                        lemma_encoder_get_fits(p.encoders[i as int], s);
                    }
                    assert forall|k: int| 0 <= k < NR_ENCODERS implies #[trigger] p.encoders[k] == p.encoders[k] && encoder_get(p.encoders[k], s) <= 16383 by {
                        lemma_encoder_get_fits(p.encoders[k], s);
                    }
                },
                _ => {},
            }
            assert(all_fit(out, w));
            assert(out.len() <= NR_BUTTONS);
        },
    }
}

/// A request that parses is served with a message that parses back to the
/// dispatcher's response; a bulk read that asks for it is followed by its
/// closing message.
pub proof fn lemma_served_request_answered(c: ConfigView, b: Seq<u8>)
    requires
        config_wf(c),
        parse_request_spec(b, c.value_size) is Ok,
    ensures
        ({
            let w = c.value_size;
            let q = parse_request_spec(b, w)->Ok_0;
            let msgs = sysex_outcome(c, b).1;
            &&& dispatch(c, q).1 matches Some(r) ==> msgs.len() >= 1 && parse_response_spec(msgs[0], w)
                == Ok::<_, ParseError>((r, MessageStatus::Response))
            &&& dispatch(c, q).1 is None ==> msgs.len() == 0
            &&& end_of_dump(q) matches Some(e) ==> msgs.len() == 2 && parse_response_spec(msgs[1], w)
                == Ok::<_, ParseError>((e, MessageStatus::Response))
        }),
{
    let w = c.value_size;
    let q = parse_request_spec(b, w)->Ok_0;
    crate::wire::lemma_parse_request_canonical(b, w);
    if let Some(r) = dispatch(c, q).1 {
        lemma_dispatch_renders(c, q, r);
        crate::wire::lemma_response_round_trip(r, MessageStatus::Response, w);
    }
    if let Some(e) = end_of_dump(q) {
        assert(response_fits(e, w));
        crate::wire::lemma_response_round_trip(e, MessageStatus::Response, w);
    }
}

/// Serving a request keeps the state well formed.
pub proof fn lemma_dispatch_wf(c: ConfigView, q: RequestView)
    requires
        config_wf(c),
    ensures
        config_wf(dispatch(c, q).0),
        dispatch(c, q).0.value_size == c.value_size,
{
    if let RequestView::Configuration(wish, amount, block, vs) = q {
        let p = current(c);
        assert(preset_wf(p));
        if wish == Wish::Write && vs.len() > 0 {
            match block {
                Block::Button(i, s) => {
                    if i < NR_BUTTONS {
                        let c2 = dispatch(c, q).0;
                        assert forall|k: int| 0 <= k < NR_PRESETS implies preset_wf(#[trigger] c2.presets[k]) by {
                            if k == c.active_preset {
                                let p2 = c2.presets[k];
                                assert forall|j: int| 0 <= j < NR_BUTTONS implies button_wf(#[trigger] p2.buttons[j]) by {
                                    assert(button_wf(p.buttons[j]));
                                }
                            }
                        }
                    }
                },
                Block::Encoder(i, s) => {
                    if i < NR_ENCODERS {
                        let c2 = dispatch(c, q).0;
                        assert forall|k: int| 0 <= k < NR_PRESETS implies preset_wf(#[trigger] c2.presets[k]) by {
                            if k == c.active_preset {
                                let p2 = c2.presets[k];
                                assert forall|j: int| 0 <= j < NR_ENCODERS implies encoder_wf(#[trigger] p2.encoders[j]) by {
                                    assert(encoder_wf(p.encoders[j]));
                                }
                            }
                        }
                    }
                },
                _ => {},
            }
        }
    }
}

/// Sending a message that writes a value a button setting can hold, then a
/// message that reads that setting of the same button, answers with a
/// message that parses to exactly that value.
pub proof fn lemma_sysex_button_write_then_read(
    c: ConfigView,
    write: Seq<u8>,
    read: Seq<u8>,
    index: u16,
    section: ButtonSection,
    v: u16,
    write_amount: Amount,
    read_wish: Wish,
)
    requires
        config_wf(c),
        index < NR_BUTTONS,
        button_value_ok(section, v),
        read_wish != Wish::Write,
        parse_request_spec(write, c.value_size) == Ok::<_, ParseError>(
            RequestView::Configuration(Wish::Write, write_amount, Block::Button(index, section), seq![v]),
        ),
        parse_request_spec(read, c.value_size) == Ok::<_, ParseError>(
            RequestView::Configuration(read_wish, Amount::Single, Block::Button(index, section), seq![]),
        ),
    ensures
        ({
            let msgs = sysex_outcome(sysex_outcome(c, write).0, read).1;
            &&& msgs.len() == 1
            &&& parse_response_spec(msgs[0], c.value_size) == Ok::<_, ParseError>((
                ResponseView::Configuration(read_wish, Amount::Single, Block::Button(index, section), seq![v]),
                MessageStatus::Response,
            ))
        }),
{
    let c1 = sysex_outcome(c, write).0;
    let q = RequestView::Configuration(Wish::Write, write_amount, Block::Button(index, section), seq![v]);
    lemma_dispatch_wf(c, q);
    lemma_button_write_then_read(c, index, section, v, write_amount, read_wish);
    lemma_served_request_answered(c1, read);
}

/// Sending a message that writes a value an encoder setting can hold, then a
/// message that reads that setting of the same encoder, answers with a
/// message that parses to exactly that value.
pub proof fn lemma_sysex_encoder_write_then_read(
    c: ConfigView,
    write: Seq<u8>,
    read: Seq<u8>,
    index: u16,
    section: EncoderSection,
    v: u16,
    write_amount: Amount,
    read_wish: Wish,
)
    requires
        config_wf(c),
        index < NR_ENCODERS,
        encoder_value_ok(section, v),
        read_wish != Wish::Write,
        parse_request_spec(write, c.value_size) == Ok::<_, ParseError>(
            RequestView::Configuration(Wish::Write, write_amount, Block::Encoder(index, section), seq![v]),
        ),
        parse_request_spec(read, c.value_size) == Ok::<_, ParseError>(
            RequestView::Configuration(read_wish, Amount::Single, Block::Encoder(index, section), seq![]),
        ),
    ensures
        ({
            let msgs = sysex_outcome(sysex_outcome(c, write).0, read).1;
            &&& msgs.len() == 1
            &&& parse_response_spec(msgs[0], c.value_size) == Ok::<_, ParseError>((
                ResponseView::Configuration(read_wish, Amount::Single, Block::Encoder(index, section), seq![v]),
                MessageStatus::Response,
            ))
        }),
{
    let c1 = sysex_outcome(c, write).0;
    let q = RequestView::Configuration(Wish::Write, write_amount, Block::Encoder(index, section), seq![v]);
    lemma_dispatch_wf(c, q);
    lemma_encoder_write_then_read(c, index, section, v, write_amount, read_wish);
    lemma_served_request_answered(c1, read);
}

} // verus!
