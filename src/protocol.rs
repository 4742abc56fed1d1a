//! Vocabulary of the configuration protocol: message status, special
//! requests, the verbs and addresses of configuration requests, and the
//! enumerated settings of buttons and encoders, each with its wire code.
use vstd::prelude::*;

verus! {

/// Status byte of a message: a request, an acknowledged response, or an error.
#[derive(Clone, Copy, Debug, PartialEq, Eq, Structural)]
pub enum MessageStatus {
    /// A request from the host.
    Request,
    /// A response that acknowledges a request.
    Response,
    /// The request carried a status byte other than `Request`.
    StatusError,
    /// No handshake was made before the request.
    HandshakeError,
    WishError,
    AmountError,
    BlockError,
    SectionError,
    PartError,
    IndexError,
    NewValueError,
    MessageLengthError,
    WriteError,
    NotSupportedError,
    ReadError,
}

/// The wire code of a [`MessageStatus`].
pub open spec fn status_code(x: MessageStatus) -> u8 {
    match x {
        MessageStatus::Request => 0,
        MessageStatus::Response => 1,
        MessageStatus::StatusError => 2,
        MessageStatus::HandshakeError => 3,
        MessageStatus::WishError => 4,
        MessageStatus::AmountError => 5,
        MessageStatus::BlockError => 6,
        MessageStatus::SectionError => 7,
        MessageStatus::PartError => 8,
        MessageStatus::IndexError => 9,
        MessageStatus::NewValueError => 10,
        MessageStatus::MessageLengthError => 11,
        MessageStatus::WriteError => 12,
        MessageStatus::NotSupportedError => 13,
        MessageStatus::ReadError => 14,
    }
}

/// The [`MessageStatus`] that a wire code stands for, if any.
pub open spec fn status_from_code(c: u8) -> Option<MessageStatus> {
    match c {
        0 => Some(MessageStatus::Request),
        1 => Some(MessageStatus::Response),
        2 => Some(MessageStatus::StatusError),
        3 => Some(MessageStatus::HandshakeError),
        4 => Some(MessageStatus::WishError),
        5 => Some(MessageStatus::AmountError),
        6 => Some(MessageStatus::BlockError),
        7 => Some(MessageStatus::SectionError),
        8 => Some(MessageStatus::PartError),
        9 => Some(MessageStatus::IndexError),
        10 => Some(MessageStatus::NewValueError),
        11 => Some(MessageStatus::MessageLengthError),
        12 => Some(MessageStatus::WriteError),
        13 => Some(MessageStatus::NotSupportedError),
        14 => Some(MessageStatus::ReadError),
        _ => None,
    }
}

impl MessageStatus {
    /// The wire code of this value.
    pub fn code(&self) -> (r: u8)
        ensures
            r == status_code(*self),
    {
        match self {
            MessageStatus::Request => 0,
            MessageStatus::Response => 1,
            MessageStatus::StatusError => 2,
            MessageStatus::HandshakeError => 3,
            MessageStatus::WishError => 4,
            MessageStatus::AmountError => 5,
            MessageStatus::BlockError => 6,
            MessageStatus::SectionError => 7,
            MessageStatus::PartError => 8,
            MessageStatus::IndexError => 9,
            MessageStatus::NewValueError => 10,
            MessageStatus::MessageLengthError => 11,
            MessageStatus::WriteError => 12,
            MessageStatus::NotSupportedError => 13,
            MessageStatus::ReadError => 14,
        }
    }

    /// The value that a wire code stands for, if any.
    pub fn from_code(c: u8) -> (r: Option<MessageStatus>)
        ensures
            r == status_from_code(c),
    {
        match c {
            0 => Some(MessageStatus::Request),
            1 => Some(MessageStatus::Response),
            2 => Some(MessageStatus::StatusError),
            3 => Some(MessageStatus::HandshakeError),
            4 => Some(MessageStatus::WishError),
            5 => Some(MessageStatus::AmountError),
            6 => Some(MessageStatus::BlockError),
            7 => Some(MessageStatus::SectionError),
            8 => Some(MessageStatus::PartError),
            9 => Some(MessageStatus::IndexError),
            10 => Some(MessageStatus::NewValueError),
            11 => Some(MessageStatus::MessageLengthError),
            12 => Some(MessageStatus::WriteError),
            13 => Some(MessageStatus::NotSupportedError),
            14 => Some(MessageStatus::ReadError),
            _ => None,
        }
    }
}

/// Requests that carry nothing beyond their opcode.
#[derive(Clone, Copy, Debug, PartialEq, Eq, Structural)]
pub enum SpecialRequest {
    Handshake,
    ValueSize,
    ValuesPerMessage,
    HardwareUID,
    FirmwareVersionAndHardwareUUID,
    FactoryReset,
    NrOfSupportedComponents,
    NrOfSupportedPresets,
    BootloaderSupport,
    BootloaderMode,
    FirmwareVersion,
    Reboot,
}

/// The wire code of a [`SpecialRequest`].
pub open spec fn special_request_code(x: SpecialRequest) -> u8 {
    match x {
        SpecialRequest::Handshake => 0x01,
        SpecialRequest::ValueSize => 0x02,
        SpecialRequest::ValuesPerMessage => 0x03,
        SpecialRequest::HardwareUID => 0x42,
        SpecialRequest::FirmwareVersionAndHardwareUUID => 0x43,
        SpecialRequest::FactoryReset => 0x44,
        SpecialRequest::NrOfSupportedComponents => 0x4D,
        SpecialRequest::NrOfSupportedPresets => 0x50,
        SpecialRequest::BootloaderSupport => 0x51,
        SpecialRequest::BootloaderMode => 0x55,
        SpecialRequest::FirmwareVersion => 0x56,
        SpecialRequest::Reboot => 0x7F,
    }
}

/// The [`SpecialRequest`] that a wire code stands for, if any.
pub open spec fn special_request_from_code(c: u8) -> Option<SpecialRequest> {
    match c {
        0x01 => Some(SpecialRequest::Handshake),
        0x02 => Some(SpecialRequest::ValueSize),
        0x03 => Some(SpecialRequest::ValuesPerMessage),
        0x42 => Some(SpecialRequest::HardwareUID),
        0x43 => Some(SpecialRequest::FirmwareVersionAndHardwareUUID),
        0x44 => Some(SpecialRequest::FactoryReset),
        0x4D => Some(SpecialRequest::NrOfSupportedComponents),
        0x50 => Some(SpecialRequest::NrOfSupportedPresets),
        0x51 => Some(SpecialRequest::BootloaderSupport),
        0x55 => Some(SpecialRequest::BootloaderMode),
        0x56 => Some(SpecialRequest::FirmwareVersion),
        0x7F => Some(SpecialRequest::Reboot),
        _ => None,
    }
}

impl SpecialRequest {
    /// The wire code of this value.
    pub fn code(&self) -> (r: u8)
        ensures
            r == special_request_code(*self),
    {
        match self {
            SpecialRequest::Handshake => 0x01,
            SpecialRequest::ValueSize => 0x02,
            SpecialRequest::ValuesPerMessage => 0x03,
            SpecialRequest::HardwareUID => 0x42,
            SpecialRequest::FirmwareVersionAndHardwareUUID => 0x43,
            SpecialRequest::FactoryReset => 0x44,
            SpecialRequest::NrOfSupportedComponents => 0x4D,
            SpecialRequest::NrOfSupportedPresets => 0x50,
            SpecialRequest::BootloaderSupport => 0x51,
            SpecialRequest::BootloaderMode => 0x55,
            SpecialRequest::FirmwareVersion => 0x56,
            SpecialRequest::Reboot => 0x7F,
        }
    }

    /// The value that a wire code stands for, if any.
    pub fn from_code(c: u8) -> (r: Option<SpecialRequest>)
        ensures
            r == special_request_from_code(c),
    {
        match c {
            0x01 => Some(SpecialRequest::Handshake),
            0x02 => Some(SpecialRequest::ValueSize),
            0x03 => Some(SpecialRequest::ValuesPerMessage),
            0x42 => Some(SpecialRequest::HardwareUID),
            0x43 => Some(SpecialRequest::FirmwareVersionAndHardwareUUID),
            0x44 => Some(SpecialRequest::FactoryReset),
            0x4D => Some(SpecialRequest::NrOfSupportedComponents),
            0x50 => Some(SpecialRequest::NrOfSupportedPresets),
            0x51 => Some(SpecialRequest::BootloaderSupport),
            0x55 => Some(SpecialRequest::BootloaderMode),
            0x56 => Some(SpecialRequest::FirmwareVersion),
            0x7F => Some(SpecialRequest::Reboot),
            _ => None,
        }
    }
}

/// The verb of a configuration request.
#[derive(Clone, Copy, Debug, PartialEq, Eq, Structural)]
pub enum Wish {
    Get,
    Write,
    /// Reads like `Get`, as part of a bulk dump.
    Backup,
}

/// The wire code of a [`Wish`].
pub open spec fn wish_code(x: Wish) -> u8 {
    match x {
        Wish::Get => 0,
        Wish::Write => 1,
        Wish::Backup => 2,
    }
}

/// The [`Wish`] that a wire code stands for, if any.
pub open spec fn wish_from_code(c: u8) -> Option<Wish> {
    match c {
        0 => Some(Wish::Get),
        1 => Some(Wish::Write),
        2 => Some(Wish::Backup),
        _ => None,
    }
}

impl Wish {
    /// The wire code of this value.
    pub fn code(&self) -> (r: u8)
        ensures
            r == wish_code(*self),
    {
        match self {
            Wish::Get => 0,
            Wish::Write => 1,
            Wish::Backup => 2,
        }
    }

    /// The value that a wire code stands for, if any.
    pub fn from_code(c: u8) -> (r: Option<Wish>)
        ensures
            r == wish_from_code(c),
    {
        match c {
            0 => Some(Wish::Get),
            1 => Some(Wish::Write),
            2 => Some(Wish::Backup),
            _ => None,
        }
    }
}

/// Settings of the presets section of the global block.
#[derive(Clone, Copy, Debug, PartialEq, Eq, Structural)]
pub enum PresetIndex {
    /// Which preset is live.
    Active,
    Preservation,
    EnableMidiChange,
    ForceValueRefresh,
}

/// The wire code of a [`PresetIndex`].
pub open spec fn preset_index_code(x: PresetIndex) -> u8 {
    match x {
        PresetIndex::Active => 0,
        PresetIndex::Preservation => 1,
        PresetIndex::EnableMidiChange => 2,
        PresetIndex::ForceValueRefresh => 3,
    }
}

/// The [`PresetIndex`] that a wire code stands for, if any.
pub open spec fn preset_index_from_code(c: u8) -> Option<PresetIndex> {
    match c {
        0 => Some(PresetIndex::Active),
        1 => Some(PresetIndex::Preservation),
        2 => Some(PresetIndex::EnableMidiChange),
        3 => Some(PresetIndex::ForceValueRefresh),
        _ => None,
    }
}

impl PresetIndex {
    /// The wire code of this value.
    pub fn code(&self) -> (r: u8)
        ensures
            r == preset_index_code(*self),
    {
        match self {
            PresetIndex::Active => 0,
            PresetIndex::Preservation => 1,
            PresetIndex::EnableMidiChange => 2,
            PresetIndex::ForceValueRefresh => 3,
        }
    }

    /// The value that a wire code stands for, if any.
    pub fn from_code(c: u8) -> (r: Option<PresetIndex>)
        ensures
            r == preset_index_from_code(c),
    {
        match c {
            0 => Some(PresetIndex::Active),
            1 => Some(PresetIndex::Preservation),
            2 => Some(PresetIndex::EnableMidiChange),
            3 => Some(PresetIndex::ForceValueRefresh),
            _ => None,
        }
    }
}

/// The settings of a button.
#[derive(Clone, Copy, Debug, PartialEq, Eq, Structural)]
pub enum ButtonSection {
    Type,
    MessageType,
    MidiId,
    Value,
    Channel,
}

/// The wire code of a [`ButtonSection`].
pub open spec fn button_section_code(x: ButtonSection) -> u8 {
    match x {
        ButtonSection::Type => 0,
        ButtonSection::MessageType => 1,
        ButtonSection::MidiId => 2,
        ButtonSection::Value => 3,
        ButtonSection::Channel => 4,
    }
}

/// The [`ButtonSection`] that a wire code stands for, if any.
pub open spec fn button_section_from_code(c: u8) -> Option<ButtonSection> {
    match c {
        0 => Some(ButtonSection::Type),
        1 => Some(ButtonSection::MessageType),
        2 => Some(ButtonSection::MidiId),
        3 => Some(ButtonSection::Value),
        4 => Some(ButtonSection::Channel),
        _ => None,
    }
}

impl ButtonSection {
    /// The wire code of this value.
    pub fn code(&self) -> (r: u8)
        ensures
            r == button_section_code(*self),
    {
        match self {
            ButtonSection::Type => 0,
            ButtonSection::MessageType => 1,
            ButtonSection::MidiId => 2,
            ButtonSection::Value => 3,
            ButtonSection::Channel => 4,
        }
    }

    /// The value that a wire code stands for, if any.
    pub fn from_code(c: u8) -> (r: Option<ButtonSection>)
        ensures
            r == button_section_from_code(c),
    {
        match c {
            0 => Some(ButtonSection::Type),
            1 => Some(ButtonSection::MessageType),
            2 => Some(ButtonSection::MidiId),
            3 => Some(ButtonSection::Value),
            4 => Some(ButtonSection::Channel),
            _ => None,
        }
    }
}

/// The settings of an encoder.
#[derive(Clone, Copy, Debug, PartialEq, Eq, Structural)]
pub enum EncoderSection {
    Enabled,
    InvertState,
    MessageType,
    /// The encoder's 14-bit MIDI id.
    MidiIdLSB,
    Channel,
    PulsesPerStep,
    Accelleration,
    /// The upper seven bits of the encoder's MIDI id.
    MidiIdMSB,
    RemoteSync,
    LowerLimit,
    UpperLimit,
    SecondMidiId,
}

/// The wire code of a [`EncoderSection`].
pub open spec fn encoder_section_code(x: EncoderSection) -> u8 {
    match x {
        EncoderSection::Enabled => 0,
        EncoderSection::InvertState => 1,
        EncoderSection::MessageType => 2,
        EncoderSection::MidiIdLSB => 3,
        EncoderSection::Channel => 4,
        EncoderSection::PulsesPerStep => 5,
        EncoderSection::Accelleration => 6,
        EncoderSection::MidiIdMSB => 7,
        EncoderSection::RemoteSync => 8,
        EncoderSection::LowerLimit => 9,
        EncoderSection::UpperLimit => 10,
        EncoderSection::SecondMidiId => 11,
    }
}

/// The [`EncoderSection`] that a wire code stands for, if any.
pub open spec fn encoder_section_from_code(c: u8) -> Option<EncoderSection> {
    match c {
        0 => Some(EncoderSection::Enabled),
        1 => Some(EncoderSection::InvertState),
        2 => Some(EncoderSection::MessageType),
        3 => Some(EncoderSection::MidiIdLSB),
        4 => Some(EncoderSection::Channel),
        5 => Some(EncoderSection::PulsesPerStep),
        6 => Some(EncoderSection::Accelleration),
        7 => Some(EncoderSection::MidiIdMSB),
        8 => Some(EncoderSection::RemoteSync),
        9 => Some(EncoderSection::LowerLimit),
        10 => Some(EncoderSection::UpperLimit),
        11 => Some(EncoderSection::SecondMidiId),
        _ => None,
    }
}

impl EncoderSection {
    /// The wire code of this value.
    pub fn code(&self) -> (r: u8)
        ensures
            r == encoder_section_code(*self),
    {
        match self {
            EncoderSection::Enabled => 0,
            EncoderSection::InvertState => 1,
            EncoderSection::MessageType => 2,
            EncoderSection::MidiIdLSB => 3,
            EncoderSection::Channel => 4,
            EncoderSection::PulsesPerStep => 5,
            EncoderSection::Accelleration => 6,
            EncoderSection::MidiIdMSB => 7,
            EncoderSection::RemoteSync => 8,
            EncoderSection::LowerLimit => 9,
            EncoderSection::UpperLimit => 10,
            EncoderSection::SecondMidiId => 11,
        }
    }

    /// The value that a wire code stands for, if any.
    pub fn from_code(c: u8) -> (r: Option<EncoderSection>)
        ensures
            r == encoder_section_from_code(c),
    {
        match c {
            0 => Some(EncoderSection::Enabled),
            1 => Some(EncoderSection::InvertState),
            2 => Some(EncoderSection::MessageType),
            3 => Some(EncoderSection::MidiIdLSB),
            4 => Some(EncoderSection::Channel),
            5 => Some(EncoderSection::PulsesPerStep),
            6 => Some(EncoderSection::Accelleration),
            7 => Some(EncoderSection::MidiIdMSB),
            8 => Some(EncoderSection::RemoteSync),
            9 => Some(EncoderSection::LowerLimit),
            10 => Some(EncoderSection::UpperLimit),
            11 => Some(EncoderSection::SecondMidiId),
            _ => None,
        }
    }
}

/// How a button reacts to being pressed.
#[derive(Clone, Copy, Debug, PartialEq, Eq, Structural)]
pub enum ButtonType {
    Momentary,
    Latching,
}

/// The wire code of a [`ButtonType`].
pub open spec fn button_type_code(x: ButtonType) -> u8 {
    match x {
        ButtonType::Momentary => 0,
        ButtonType::Latching => 1,
    }
}

/// The [`ButtonType`] that a wire code stands for, if any.
pub open spec fn button_type_from_code(c: u8) -> Option<ButtonType> {
    match c {
        0 => Some(ButtonType::Momentary),
        1 => Some(ButtonType::Latching),
        _ => None,
    }
}

impl ButtonType {
    /// The wire code of this value.
    pub fn code(&self) -> (r: u8)
        ensures
            r == button_type_code(*self),
    {
        match self {
            ButtonType::Momentary => 0,
            ButtonType::Latching => 1,
        }
    }

    /// The value that a wire code stands for, if any.
    pub fn from_code(c: u8) -> (r: Option<ButtonType>)
        ensures
            r == button_type_from_code(c),
    {
        match c {
            0 => Some(ButtonType::Momentary),
            1 => Some(ButtonType::Latching),
            _ => None,
        }
    }
}

/// The MIDI message a button sends.
#[derive(Clone, Copy, Debug, PartialEq, Eq, Structural)]
pub enum MessageType {
    Note,
    ProgramChange,
    ControlChange,
    ControlChangeReset,
    MmcStop,
    MmcPlay,
    MmcRecord,
    MmcPause,
    RealTimeClock,
    RealTimeStart,
    RealTimeContinue,
    RealTimeStop,
    RealTimeActiveSensing,
    RealTimeSystemReset,
    ProgramChangeInc,
    ProgramChangeDec,
    NoMessage,
    PresetChange,
    MultiValIncResetNote,
    MultiValIncDecNote,
    MultiValIncResetCC,
    MultiValIncDecCC,
    NoteOffOnly,
    ControlChange0Only,
}

/// The wire code of a [`MessageType`].
pub open spec fn message_type_code(x: MessageType) -> u8 {
    match x {
        MessageType::Note => 0,
        MessageType::ProgramChange => 1,
        MessageType::ControlChange => 2,
        MessageType::ControlChangeReset => 3,
        MessageType::MmcStop => 4,
        MessageType::MmcPlay => 5,
        MessageType::MmcRecord => 6,
        MessageType::MmcPause => 7,
        MessageType::RealTimeClock => 8,
        MessageType::RealTimeStart => 9,
        MessageType::RealTimeContinue => 10,
        MessageType::RealTimeStop => 11,
        MessageType::RealTimeActiveSensing => 12,
        MessageType::RealTimeSystemReset => 13,
        MessageType::ProgramChangeInc => 14,
        MessageType::ProgramChangeDec => 15,
        MessageType::NoMessage => 16,
        MessageType::PresetChange => 17,
        MessageType::MultiValIncResetNote => 18,
        MessageType::MultiValIncDecNote => 19,
        MessageType::MultiValIncResetCC => 20,
        MessageType::MultiValIncDecCC => 21,
        MessageType::NoteOffOnly => 22,
        MessageType::ControlChange0Only => 23,
    }
}

/// The [`MessageType`] that a wire code stands for, if any.
pub open spec fn message_type_from_code(c: u8) -> Option<MessageType> {
    match c {
        0 => Some(MessageType::Note),
        1 => Some(MessageType::ProgramChange),
        2 => Some(MessageType::ControlChange),
        3 => Some(MessageType::ControlChangeReset),
        4 => Some(MessageType::MmcStop),
        5 => Some(MessageType::MmcPlay),
        6 => Some(MessageType::MmcRecord),
        7 => Some(MessageType::MmcPause),
        8 => Some(MessageType::RealTimeClock),
        9 => Some(MessageType::RealTimeStart),
        10 => Some(MessageType::RealTimeContinue),
        11 => Some(MessageType::RealTimeStop),
        12 => Some(MessageType::RealTimeActiveSensing),
        13 => Some(MessageType::RealTimeSystemReset),
        14 => Some(MessageType::ProgramChangeInc),
        15 => Some(MessageType::ProgramChangeDec),
        16 => Some(MessageType::NoMessage),
        17 => Some(MessageType::PresetChange),
        18 => Some(MessageType::MultiValIncResetNote),
        19 => Some(MessageType::MultiValIncDecNote),
        20 => Some(MessageType::MultiValIncResetCC),
        21 => Some(MessageType::MultiValIncDecCC),
        22 => Some(MessageType::NoteOffOnly),
        23 => Some(MessageType::ControlChange0Only),
        _ => None,
    }
}

impl MessageType {
    /// The wire code of this value.
    pub fn code(&self) -> (r: u8)
        ensures
            r == message_type_code(*self),
    {
        match self {
            MessageType::Note => 0,
            MessageType::ProgramChange => 1,
            MessageType::ControlChange => 2,
            MessageType::ControlChangeReset => 3,
            MessageType::MmcStop => 4,
            MessageType::MmcPlay => 5,
            MessageType::MmcRecord => 6,
            MessageType::MmcPause => 7,
            MessageType::RealTimeClock => 8,
            MessageType::RealTimeStart => 9,
            MessageType::RealTimeContinue => 10,
            MessageType::RealTimeStop => 11,
            MessageType::RealTimeActiveSensing => 12,
            MessageType::RealTimeSystemReset => 13,
            MessageType::ProgramChangeInc => 14,
            MessageType::ProgramChangeDec => 15,
            MessageType::NoMessage => 16,
            MessageType::PresetChange => 17,
            MessageType::MultiValIncResetNote => 18,
            MessageType::MultiValIncDecNote => 19,
            MessageType::MultiValIncResetCC => 20,
            MessageType::MultiValIncDecCC => 21,
            MessageType::NoteOffOnly => 22,
            MessageType::ControlChange0Only => 23,
        }
    }

    /// The value that a wire code stands for, if any.
    pub fn from_code(c: u8) -> (r: Option<MessageType>)
        ensures
            r == message_type_from_code(c),
    {
        match c {
            0 => Some(MessageType::Note),
            1 => Some(MessageType::ProgramChange),
            2 => Some(MessageType::ControlChange),
            3 => Some(MessageType::ControlChangeReset),
            4 => Some(MessageType::MmcStop),
            5 => Some(MessageType::MmcPlay),
            6 => Some(MessageType::MmcRecord),
            7 => Some(MessageType::MmcPause),
            8 => Some(MessageType::RealTimeClock),
            9 => Some(MessageType::RealTimeStart),
            10 => Some(MessageType::RealTimeContinue),
            11 => Some(MessageType::RealTimeStop),
            12 => Some(MessageType::RealTimeActiveSensing),
            13 => Some(MessageType::RealTimeSystemReset),
            14 => Some(MessageType::ProgramChangeInc),
            15 => Some(MessageType::ProgramChangeDec),
            16 => Some(MessageType::NoMessage),
            17 => Some(MessageType::PresetChange),
            18 => Some(MessageType::MultiValIncResetNote),
            19 => Some(MessageType::MultiValIncDecNote),
            20 => Some(MessageType::MultiValIncResetCC),
            21 => Some(MessageType::MultiValIncDecCC),
            22 => Some(MessageType::NoteOffOnly),
            23 => Some(MessageType::ControlChange0Only),
            _ => None,
        }
    }
}

/// The MIDI message an encoder sends.
#[derive(Clone, Copy, Debug, PartialEq, Eq, Structural)]
pub enum EncoderMessageType {
    ControlChange7Fh01h,
    ControlChange3Fh41h,
    ProgramChange,
    ControlChange,
    PresetChange,
    PitchBend,
    Nrpn7,
    Nrpn14,
    ControlChange14bit,
}

/// The wire code of a [`EncoderMessageType`].
pub open spec fn encoder_message_type_code(x: EncoderMessageType) -> u8 {
    match x {
        EncoderMessageType::ControlChange7Fh01h => 0,
        EncoderMessageType::ControlChange3Fh41h => 1,
        EncoderMessageType::ProgramChange => 2,
        EncoderMessageType::ControlChange => 3,
        EncoderMessageType::PresetChange => 4,
        EncoderMessageType::PitchBend => 5,
        EncoderMessageType::Nrpn7 => 6,
        EncoderMessageType::Nrpn14 => 7,
        EncoderMessageType::ControlChange14bit => 8,
    }
}

/// The [`EncoderMessageType`] that a wire code stands for, if any.
pub open spec fn encoder_message_type_from_code(c: u8) -> Option<EncoderMessageType> {
    match c {
        0 => Some(EncoderMessageType::ControlChange7Fh01h),
        1 => Some(EncoderMessageType::ControlChange3Fh41h),
        2 => Some(EncoderMessageType::ProgramChange),
        3 => Some(EncoderMessageType::ControlChange),
        4 => Some(EncoderMessageType::PresetChange),
        5 => Some(EncoderMessageType::PitchBend),
        6 => Some(EncoderMessageType::Nrpn7),
        7 => Some(EncoderMessageType::Nrpn14),
        8 => Some(EncoderMessageType::ControlChange14bit),
        _ => None,
    }
}

impl EncoderMessageType {
    /// The wire code of this value.
    pub fn code(&self) -> (r: u8)
        ensures
            r == encoder_message_type_code(*self),
    {
        match self {
            EncoderMessageType::ControlChange7Fh01h => 0,
            EncoderMessageType::ControlChange3Fh41h => 1,
            EncoderMessageType::ProgramChange => 2,
            EncoderMessageType::ControlChange => 3,
            EncoderMessageType::PresetChange => 4,
            EncoderMessageType::PitchBend => 5,
            EncoderMessageType::Nrpn7 => 6,
            EncoderMessageType::Nrpn14 => 7,
            EncoderMessageType::ControlChange14bit => 8,
        }
    }

    /// The value that a wire code stands for, if any.
    pub fn from_code(c: u8) -> (r: Option<EncoderMessageType>)
        ensures
            r == encoder_message_type_from_code(c),
    {
        match c {
            0 => Some(EncoderMessageType::ControlChange7Fh01h),
            1 => Some(EncoderMessageType::ControlChange3Fh41h),
            2 => Some(EncoderMessageType::ProgramChange),
            3 => Some(EncoderMessageType::ControlChange),
            4 => Some(EncoderMessageType::PresetChange),
            5 => Some(EncoderMessageType::PitchBend),
            6 => Some(EncoderMessageType::Nrpn7),
            7 => Some(EncoderMessageType::Nrpn14),
            8 => Some(EncoderMessageType::ControlChange14bit),
            _ => None,
        }
    }
}

/// How an encoder speeds up when turned quickly.
#[derive(Clone, Copy, Debug, PartialEq, Eq, Structural)]
pub enum Accelleration {
    Disabled,
    Slow,
    Medium,
    Fast,
}

/// The wire code of a [`Accelleration`].
pub open spec fn accelleration_code(x: Accelleration) -> u8 {
    match x {
        Accelleration::Disabled => 0,
        Accelleration::Slow => 1,
        Accelleration::Medium => 2,
        Accelleration::Fast => 3,
    }
}

/// The [`Accelleration`] that a wire code stands for, if any.
pub open spec fn accelleration_from_code(c: u8) -> Option<Accelleration> {
    match c {
        0 => Some(Accelleration::Disabled),
        1 => Some(Accelleration::Slow),
        2 => Some(Accelleration::Medium),
        3 => Some(Accelleration::Fast),
        _ => None,
    }
}

impl Accelleration {
    /// The wire code of this value.
    pub fn code(&self) -> (r: u8)
        ensures
            r == accelleration_code(*self),
    {
        match self {
            Accelleration::Disabled => 0,
            Accelleration::Slow => 1,
            Accelleration::Medium => 2,
            Accelleration::Fast => 3,
        }
    }

    /// The value that a wire code stands for, if any.
    pub fn from_code(c: u8) -> (r: Option<Accelleration>)
        ensures
            r == accelleration_from_code(c),
    {
        match c {
            0 => Some(Accelleration::Disabled),
            1 => Some(Accelleration::Slow),
            2 => Some(Accelleration::Medium),
            3 => Some(Accelleration::Fast),
            _ => None,
        }
    }
}

/// How many entries a configuration request addresses.
#[derive(Clone, Copy, Debug, PartialEq, Eq, Structural)]
pub enum Amount {
    /// The one entry at the block's index.
    Single,
    /// Every entry of the block; carries the part marker of the message.
    All(u8),
}

/// Part marker of an `All` request that asks for a closing empty message
/// after the data.
pub const ALL_PARTS_WITH_END: u8 = 0x7E;

/// Sections of the global block.
#[derive(Clone, Copy, Debug, PartialEq, Eq, Structural)]
pub enum GlobalSection {
    /// A MIDI setting, by its number.
    Midi(u16),
    /// A preset setting.
    Presets(PresetIndex),
}

/// The address of a configuration request: block, section and index.
#[derive(Clone, Copy, Debug, PartialEq, Eq, Structural)]
pub enum Block {
    Global(GlobalSection),
    /// A button setting: the button's index and the section.
    Button(u16, ButtonSection),
    /// An encoder setting: the encoder's index and the section.
    Encoder(u16, EncoderSection),
    /// Reserved block: index and raw section.
    Analog(u16, u8),
    /// Reserved block: index and raw section.
    Led(u16, u8),
    /// Reserved block: index and raw section.
    Display(u16, u8),
    /// Reserved block: index and raw section.
    Touchscreen(u16, u8),
}

/// The block byte of an address.
pub open spec fn block_code(b: Block) -> u8 {
    match b {
        Block::Global(_) => 0,
        Block::Button(_, _) => 1,
        Block::Encoder(_, _) => 2,
        Block::Analog(_, _) => 3,
        Block::Led(_, _) => 4,
        Block::Display(_, _) => 5,
        Block::Touchscreen(_, _) => 6,
    }
}

/// The section byte of an address.
pub open spec fn section_code(b: Block) -> u8 {
    match b {
        Block::Global(GlobalSection::Midi(_)) => 0,
        Block::Global(GlobalSection::Presets(_)) => 1,
        Block::Button(_, s) => button_section_code(s),
        Block::Encoder(_, s) => encoder_section_code(s),
        Block::Analog(_, s) => s,
        Block::Led(_, s) => s,
        Block::Display(_, s) => s,
        Block::Touchscreen(_, s) => s,
    }
}

/// The index value of an address.
pub open spec fn block_index(b: Block) -> u16 {
    match b {
        Block::Global(GlobalSection::Midi(setting)) => setting,
        Block::Global(GlobalSection::Presets(p)) => preset_index_code(p) as u16,
        Block::Button(i, _) => i,
        Block::Encoder(i, _) => i,
        Block::Analog(i, _) => i,
        Block::Led(i, _) => i,
        Block::Display(i, _) => i,
        Block::Touchscreen(i, _) => i,
    }
}

/// The block that a (block, section, index) triple addresses, if any.
pub open spec fn block_from_address(bc: u8, sc: u8, index: u16) -> Option<Block> {
    if sc >= 128 {
        None
    } else if bc == 0 {
        if sc == 0 {
            Some(Block::Global(GlobalSection::Midi(index)))
        } else if sc == 1 && index < 128 {
            match preset_index_from_code(index as u8) {
                Some(p) => Some(Block::Global(GlobalSection::Presets(p))),
                None => None,
            }
        } else {
            None
        }
    } else if bc == 1 {
        match button_section_from_code(sc) {
            Some(s) => Some(Block::Button(index, s)),
            None => None,
        }
    } else if bc == 2 {
        match encoder_section_from_code(sc) {
            Some(s) => Some(Block::Encoder(index, s)),
            None => None,
        }
    } else if bc == 3 {
        Some(Block::Analog(index, sc))
    } else if bc == 4 {
        Some(Block::Led(index, sc))
    } else if bc == 5 {
        Some(Block::Display(index, sc))
    } else if bc == 6 {
        Some(Block::Touchscreen(index, sc))
    } else {
        None
    }
}

impl Block {
    /// The (block, section, index) triple of this address.
    pub fn address(&self) -> (r: (u8, u8, u16))
        ensures
            r == (block_code(*self), section_code(*self), block_index(*self)),
    {
        match self {
            Block::Global(GlobalSection::Midi(setting)) => (0, 0, *setting),
            Block::Global(GlobalSection::Presets(p)) => (0, 1, p.code() as u16),
            Block::Button(i, s) => (1, s.code(), *i),
            Block::Encoder(i, s) => (2, s.code(), *i),
            Block::Analog(i, s) => (3, *s, *i),
            Block::Led(i, s) => (4, *s, *i),
            Block::Display(i, s) => (5, *s, *i),
            Block::Touchscreen(i, s) => (6, *s, *i),
        }
    }

    /// The block that a (block, section, index) triple addresses, if any.
    pub fn from_address(bc: u8, sc: u8, index: u16) -> (r: Option<Block>)
        ensures
            r == block_from_address(bc, sc, index),
    {
        if sc >= 128 {
            None
        } else if bc == 0 {
            if sc == 0 {
                Some(Block::Global(GlobalSection::Midi(index)))
            } else if sc == 1 && index < 128 {
                match PresetIndex::from_code(index as u8) {
                    Some(p) => Some(Block::Global(GlobalSection::Presets(p))),
                    None => None,
                }
            } else {
                None
            }
        } else if bc == 1 {
            match ButtonSection::from_code(sc) {
                Some(s) => Some(Block::Button(index, s)),
                None => None,
            }
        } else if bc == 2 {
            match EncoderSection::from_code(sc) {
                Some(s) => Some(Block::Encoder(index, s)),
                None => None,
            }
        } else if bc == 3 {
            Some(Block::Analog(index, sc))
        } else if bc == 4 {
            Some(Block::Led(index, sc))
        } else if bc == 5 {
            Some(Block::Display(index, sc))
        } else if bc == 6 {
            Some(Block::Touchscreen(index, sc))
        } else {
            None
        }
    }
}

/// An address reads back from its own (block, section, index) triple.
pub proof fn lemma_block_address_round_trip(b: Block)
    requires
        section_code(b) < 128,
    ensures
        block_from_address(block_code(b), section_code(b), block_index(b)) == Some(b),
{
}

/// Firmware version triple.
#[derive(Clone, Copy, Debug, PartialEq, Eq, Structural)]
pub struct FirmwareVersion {
    pub major: u8,
    pub minor: u8,
    pub revision: u8,
}

/// Identifier of the hardware.
#[derive(Clone, Copy, Debug, PartialEq, Eq, Structural)]
pub struct HardwareUid(pub u32);

/// How many components of each kind the device has.
#[derive(Clone, Copy, Debug, PartialEq, Eq, Structural)]
pub struct NrOfSupportedComponents {
    pub buttons: u16,
    pub encoders: u16,
    pub analog: u16,
    pub leds: u16,
    pub touchscreen_buttons: u16,
}

/// Answers to special requests.
#[derive(Clone, Copy, Debug, PartialEq, Eq, Structural)]
pub enum SpecialResponse {
    Handshake,
    /// The value width in use; its value is written by the renderer.
    ValueSize,
    ValuesPerMessage(u16),
    FirmwareVersion(FirmwareVersion),
    HardwareUID(HardwareUid),
    FirmwareVersionAndHardwareUUID(FirmwareVersion, HardwareUid),
    BootloaderSupport(bool),
    NrOfSupportedPresets(u16),
    NrOfSupportedComponents(NrOfSupportedComponents),
}

/// A parsed request.
#[derive(Debug)]
pub enum Request {
    Special(SpecialRequest),
    /// Verb, amount, address, and the values carried (the value to write,
    /// for `Write`).
    Configuration(Wish, Amount, Block, Vec<u16>),
}

/// The mathematical content of a [`Request`].
pub enum RequestView {
    Special(SpecialRequest),
    Configuration(Wish, Amount, Block, Seq<u16>),
}

impl View for Request {
    type V = RequestView;

    open spec fn view(&self) -> RequestView {
        match self {
            Request::Special(s) => RequestView::Special(*s),
            Request::Configuration(w, a, b, vs) => RequestView::Configuration(*w, *a, *b, vs@),
        }
    }
}

/// A response to be rendered.
#[derive(Debug)]
pub enum Response {
    Special(SpecialResponse),
    /// Verb, amount and address echoed from the request, and the values read.
    Configuration(Wish, Amount, Block, Vec<u16>),
}

/// The mathematical content of a [`Response`].
pub enum ResponseView {
    Special(SpecialResponse),
    Configuration(Wish, Amount, Block, Seq<u16>),
}

impl View for Response {
    type V = ResponseView;

    open spec fn view(&self) -> ResponseView {
        match self {
            Response::Special(s) => ResponseView::Special(*s),
            Response::Configuration(w, a, b, vs) => ResponseView::Configuration(*w, *a, *b, vs@),
        }
    }
}

/// Why a message could not be parsed.
#[derive(Clone, Copy, Debug, PartialEq, Eq, Structural)]
pub enum ParseError {
    /// The message is framed correctly but its status is not `Request`:
    /// the host is to be answered with a handshake carrying this status.
    StatusError(MessageStatus),
    /// Anything else: the message is dropped without an answer.
    Malformed,
}

} // verus!
