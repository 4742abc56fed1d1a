use pedalboard_midi::codec::ValueSize;
use pedalboard_midi::config::{Config, DeviceAction};
use pedalboard_midi::parser::Parser;
use pedalboard_midi::protocol::{
    Amount, Block, ButtonSection, EncoderSection, FirmwareVersion, GlobalSection, HardwareUid,
    MessageStatus, NrOfSupportedComponents, ParseError, PresetIndex, Request, Response,
    SpecialRequest, SpecialResponse, Wish,
};
use pedalboard_midi::renderer::{RenderError, Renderer};

const HEADER: [u8; 4] = [0xF0, 0x00, 0x53, 0x43];

fn request(body: &[u8], part: u8) -> Vec<u8> {
    let mut v = HEADER.to_vec();
    v.push(0x00);
    v.push(part);
    v.extend_from_slice(body);
    v.push(0xF7);
    v
}

fn response(body: &[u8], part: u8) -> Vec<u8> {
    let mut v = HEADER.to_vec();
    v.push(0x01);
    v.push(part);
    v.extend_from_slice(body);
    v.push(0xF7);
    v
}

#[test]
fn handshake_is_acknowledged() {
    let mut c = Config::new();
    assert!(!c.armed());
    let r = c.process_sysex(&request(&[0x01], 0));
    assert_eq!(r.messages, vec![vec![0xF0, 0x00, 0x53, 0x43, 0x01, 0x00, 0x01, 0xF7]]);
    assert_eq!(r.action, None);
    assert!(c.armed());
}

#[test]
fn handshake_twice_stays_armed() {
    let mut c = Config::new();
    let first = c.process_sysex(&request(&[0x01], 0));
    let second = c.process_sysex(&request(&[0x01], 0));
    assert!(c.armed());
    assert_eq!(first.messages, second.messages);
}

#[test]
fn other_requests_do_not_arm() {
    let mut c = Config::new();
    c.process_sysex(&request(&[0x56], 0));
    c.process_sysex(&request(&[0x00, 0x00, 0x01, 0x03, 0x00, 0x00], 0));
    assert!(!c.armed());
}

#[test]
fn supported_components_are_the_build_constants() {
    let mut c = Config::new();
    let r = c.process_sysex(&request(&[0x4D], 0));
    assert_eq!(
        r.messages,
        vec![response(&[0x4D, 0, 8, 0, 2, 0, 2, 0, 8, 0, 0], 0)]
    );
}

#[test]
fn supported_presets_and_values_per_message() {
    let mut c = Config::new();
    assert_eq!(c.process_sysex(&request(&[0x50], 0)).messages, vec![response(&[0x50, 0, 2], 0)]);
    assert_eq!(c.process_sysex(&request(&[0x03], 0)).messages, vec![response(&[0x03, 0, 32], 0)]);
    assert_eq!(c.process_sysex(&request(&[0x51], 0)).messages, vec![response(&[0x51, 0, 1], 0)]);
    assert_eq!(c.process_sysex(&request(&[0x02], 0)).messages, vec![response(&[0x02, 0, 2], 0)]);
}

#[test]
fn firmware_version_and_uid() {
    let mut c = Config::new();
    assert_eq!(
        c.process_sysex(&request(&[0x56], 0)).messages,
        vec![response(&[0x56, 0, 1, 0, 0, 0, 0], 0)]
    );
    assert_eq!(
        c.process_sysex(&request(&[0x42], 0)).messages,
        vec![response(&[0x42, 0, 0x12, 0, 0x34, 0, 0x56, 0, 0x77], 0)]
    );
    assert_eq!(
        c.process_sysex(&request(&[0x43], 0)).messages,
        vec![response(&[0x43, 0, 1, 0, 0, 0, 0, 0, 0x12, 0, 0x34, 0, 0x56, 0, 0x77], 0)]
    );
}

#[test]
fn identity_is_supplied_at_construction() {
    let v = FirmwareVersion { major: 2, minor: 3, revision: 4 };
    let mut c = Config::with_identity(v, HardwareUid(0x01020304));
    assert_eq!(
        c.process_sysex(&request(&[0x43], 0)).messages,
        vec![response(&[0x43, 0, 2, 0, 3, 0, 4, 0, 1, 0, 2, 0, 3, 0, 4], 0)]
    );
}

#[test]
fn reboot_and_bootloader_are_actions() {
    let mut c = Config::new();
    let r = c.process_sysex(&request(&[0x7F], 0));
    assert!(r.messages.is_empty());
    assert_eq!(r.action, Some(DeviceAction::Reboot));
    let r = c.process_sysex(&request(&[0x55], 0));
    assert!(r.messages.is_empty());
    assert_eq!(r.action, Some(DeviceAction::Bootloader));
}

#[test]
fn factory_reset_is_not_answered() {
    let mut c = Config::new();
    let r = c.process_sysex(&request(&[0x44], 0));
    assert!(r.messages.is_empty());
    assert_eq!(r.action, None);
}

#[test]
fn fresh_button_value_is_one() {
    let mut c = Config::new();
    let r = c.process_sysex(&request(&[0x00, 0x00, 0x01, 0x03, 0x00, 0x00], 0));
    assert_eq!(r.messages, vec![response(&[0x00, 0x00, 0x01, 0x03, 0x00, 0x00, 0x00, 0x01], 0)]);
}

#[test]
fn all_button_midi_ids_are_their_indices() {
    let mut c = Config::new();
    let r = c.process_sysex(&request(&[0x00, 0x01, 0x01, 0x02, 0x00, 0x00], 0x7F));
    let mut expected = vec![0x00, 0x01, 0x01, 0x02, 0x00, 0x00];
    for i in 0..8u8 {
        expected.push(0);
        expected.push(i);
    }
    assert_eq!(r.messages, vec![response(&expected, 0)]);
}

#[test]
fn all_encoders_answer_one_value_each() {
    let mut c = Config::new();
    let r = c.process_sysex(&request(&[0x02, 0x01, 0x02, 0x05, 0x00, 0x00], 0x7F));
    assert_eq!(
        r.messages,
        vec![response(&[0x02, 0x01, 0x02, 0x05, 0x00, 0x00, 0x00, 0x02, 0x00, 0x02], 0)]
    );
}

#[test]
fn bulk_read_with_end_marker_sends_closing_message() {
    let mut c = Config::new();
    let r = c.process_sysex(&request(&[0x02, 0x01, 0x01, 0x03, 0x00, 0x00], 0x7E));
    assert_eq!(r.messages.len(), 2);
    assert_eq!(r.messages[1], response(&[0x02, 0x01, 0x01, 0x03, 0x00, 0x00], 0x7E));
    let mut expected = vec![0x02, 0x01, 0x01, 0x03, 0x00, 0x00];
    for _ in 0..8 {
        expected.push(0);
        expected.push(1);
    }
    assert_eq!(r.messages[0], response(&expected, 0));
}

#[test]
fn write_with_end_marker_sends_no_closing_message() {
    let mut c = Config::new();
    let r = c.process_sysex(&request(&[0x01, 0x01, 0x01, 0x03, 0x00, 0x00, 0x00, 0x05], 0x7E));
    assert_eq!(r.messages.len(), 1);
}

#[test]
fn write_then_read_button() {
    let mut c = Config::new();
    let w = c.process_sysex(&request(&[0x01, 0x00, 0x01, 0x03, 0x00, 0x04, 0x00, 0x55], 0));
    assert_eq!(w.messages, vec![response(&[0x01, 0x00, 0x01, 0x03, 0x00, 0x04], 0)]);
    let r = c.process_sysex(&request(&[0x00, 0x00, 0x01, 0x03, 0x00, 0x04], 0));
    assert_eq!(r.messages, vec![response(&[0x00, 0x00, 0x01, 0x03, 0x00, 0x04, 0x00, 0x55], 0)]);
}

#[test]
fn write_then_read_encoder_limit() {
    let mut c = Config::new();
    c.process_sysex(&request(&[0x01, 0x00, 0x02, 0x0A, 0x00, 0x01, 0x7F, 0x7F], 0));
    let r = c.process_sysex(&request(&[0x00, 0x00, 0x02, 0x0A, 0x00, 0x01], 0));
    assert_eq!(r.messages, vec![response(&[0x00, 0x00, 0x02, 0x0A, 0x00, 0x01, 0x7F, 0x7F], 0)]);
}

#[test]
fn button_value_is_clamped_to_seven_bits() {
    let mut c = Config::new();
    c.process_sysex(&request(&[0x01, 0x00, 0x01, 0x03, 0x00, 0x00, 0x01, 0x00], 0));
    let r = c.process_sysex(&request(&[0x00, 0x00, 0x01, 0x03, 0x00, 0x00], 0));
    assert_eq!(r.messages, vec![response(&[0x00, 0x00, 0x01, 0x03, 0x00, 0x00, 0x00, 0x7F], 0)]);
}

#[test]
fn missing_button_answers_no_value() {
    let mut c = Config::new();
    let r = c.process_sysex(&request(&[0x00, 0x00, 0x01, 0x03, 0x00, 0x08], 0));
    assert_eq!(r.messages, vec![response(&[0x00, 0x00, 0x01, 0x03, 0x00, 0x08], 0)]);
}

#[test]
fn switch_active_preset_then_read() {
    let mut c = Config::new();
    c.process_sysex(&request(&[0x01, 0x00, 0x00, 0x01, 0x00, 0x00, 0x00, 0x01], 0));
    assert_eq!(c.active_preset(), 1);
    let r = c.process_sysex(&request(&[0x00, 0x00, 0x00, 0x01, 0x00, 0x00], 0));
    assert_eq!(r.messages, vec![response(&[0x00, 0x00, 0x00, 0x01, 0x00, 0x00, 0x00, 0x01], 0)]);
}

#[test]
fn out_of_range_preset_keeps_current() {
    let mut c = Config::new();
    c.process_sysex(&request(&[0x01, 0x00, 0x00, 0x01, 0x00, 0x00, 0x00, 0x02], 0));
    assert_eq!(c.active_preset(), 0);
    let r = c.process_sysex(&request(&[0x00, 0x00, 0x01, 0x03, 0x00, 0x00], 0));
    assert_eq!(r.messages, vec![response(&[0x00, 0x00, 0x01, 0x03, 0x00, 0x00, 0x00, 0x01], 0)]);
}

#[test]
fn presets_are_separate() {
    let mut c = Config::new();
    c.process_sysex(&request(&[0x01, 0x00, 0x01, 0x03, 0x00, 0x00, 0x00, 0x09], 0));
    c.process_sysex(&request(&[0x01, 0x00, 0x00, 0x01, 0x00, 0x00, 0x00, 0x01], 0));
    let r = c.process_sysex(&request(&[0x00, 0x00, 0x01, 0x03, 0x00, 0x00], 0));
    assert_eq!(r.messages, vec![response(&[0x00, 0x00, 0x01, 0x03, 0x00, 0x00, 0x00, 0x01], 0)]);
}

#[test]
fn truncated_header_is_dropped() {
    let mut c = Config::new();
    for b in [vec![], vec![0xF0], vec![0xF0, 0x00, 0x53], vec![0xF0, 0x00, 0x53, 0x43, 0x00, 0xF7]] {
        let r = c.process_sysex(&b);
        assert!(r.messages.is_empty());
        assert_eq!(r.action, None);
    }
    assert!(!c.armed());
}

#[test]
fn malformed_messages_are_dropped() {
    let mut c = Config::new();
    let bad = [
        vec![0xF0, 0x00, 0x53, 0x44, 0x00, 0x00, 0x01, 0xF7],
        vec![0xF0, 0x00, 0x53, 0x43, 0x00, 0x00, 0x01, 0xF6],
        vec![0xF0, 0x00, 0x53, 0x43, 0x00, 0x00, 0x30, 0xF7],
        request(&[0x00, 0x00, 0x09, 0x00, 0x00, 0x00], 0),
        request(&[0x00, 0x00, 0x01, 0x03, 0x00, 0x00, 0x00], 0),
        request(&[0x00, 0x00, 0x01, 0x03, 0x00, 0x80], 0),
    ];
    for b in bad.iter() {
        assert!(c.process_sysex(b).messages.is_empty());
    }
}

#[test]
fn wrong_status_is_answered_with_status_error() {
    let mut c = Config::new();
    let b = vec![0xF0, 0x00, 0x53, 0x43, 0x01, 0x00, 0x01, 0xF7];
    let r = c.process_sysex(&b);
    assert_eq!(r.messages, vec![vec![0xF0, 0x00, 0x53, 0x43, 0x02, 0x00, 0x01, 0xF7]]);
    assert!(!c.armed());
}

#[test]
fn parse_errors() {
    let p = Parser::new(ValueSize::TwoBytes);
    assert!(matches!(p.parse(&[0xF0, 0x00]), Err(ParseError::Malformed)));
    assert!(matches!(
        p.parse(&[0xF0, 0x00, 0x53, 0x43, 0x05, 0x00, 0x01, 0xF7]),
        Err(ParseError::StatusError(MessageStatus::StatusError))
    ));
    match p.parse(&request(&[0x01, 0x01, 0x02, 0x05, 0x00, 0x01, 0x00, 0x03], 0x10)) {
        Ok(Request::Configuration(w, a, b, vs)) => {
            assert_eq!(w, Wish::Write);
            assert_eq!(a, Amount::All(0x10));
            assert_eq!(b, Block::Encoder(1, EncoderSection::PulsesPerStep));
            assert_eq!(vs, vec![3]);
        }
        other => panic!("unexpected {:?}", other),
    }
    match p.parse(&request(&[0x01], 0)) {
        Ok(Request::Special(s)) => assert_eq!(s, SpecialRequest::Handshake),
        other => panic!("unexpected {:?}", other),
    }
}

fn round_trip(r: Response, s: MessageStatus, w: ValueSize) {
    let bytes = Renderer::new(w).render(&r, s).unwrap();
    let (back, status) = Parser::new(w).parse_response(&bytes).unwrap();
    assert_eq!(status, s);
    assert_eq!(format!("{:?}", back), format!("{:?}", r));
}

#[test]
fn responses_round_trip_at_both_widths() {
    for w in [ValueSize::OneByte, ValueSize::TwoBytes] {
        round_trip(Response::Special(SpecialResponse::Handshake), MessageStatus::Response, w);
        round_trip(Response::Special(SpecialResponse::ValueSize), MessageStatus::Response, w);
        round_trip(Response::Special(SpecialResponse::BootloaderSupport(true)), MessageStatus::Response, w);
        round_trip(Response::Special(SpecialResponse::HardwareUID(HardwareUid(0x12345677))), MessageStatus::Response, w);
        round_trip(
            Response::Special(SpecialResponse::NrOfSupportedComponents(NrOfSupportedComponents {
                buttons: 8,
                encoders: 2,
                analog: 2,
                leds: 8,
                touchscreen_buttons: 0,
            })),
            MessageStatus::Response,
            w,
        );
        round_trip(
            Response::Configuration(Wish::Get, Amount::Single, Block::Button(3, ButtonSection::Channel), vec![17]),
            MessageStatus::Response,
            w,
        );
        round_trip(
            Response::Configuration(Wish::Backup, Amount::All(0x7E), Block::Encoder(1, EncoderSection::UpperLimit), vec![1, 2, 3]),
            MessageStatus::ReadError,
            w,
        );
        round_trip(
            Response::Configuration(Wish::Write, Amount::Single, Block::Global(GlobalSection::Presets(PresetIndex::Active)), vec![]),
            MessageStatus::Response,
            w,
        );
        round_trip(
            Response::Configuration(Wish::Get, Amount::Single, Block::Led(5, 9), vec![]),
            MessageStatus::Response,
            w,
        );
    }
}

#[test]
fn one_byte_width_renders_single_bytes() {
    let r = Response::Configuration(Wish::Get, Amount::Single, Block::Button(2, ButtonSection::Value), vec![0x41]);
    let bytes = Renderer::new(ValueSize::OneByte).render(&r, MessageStatus::Response).unwrap();
    assert_eq!(bytes, response(&[0x00, 0x00, 0x01, 0x03, 0x02, 0x41], 0));
}

#[test]
fn render_errors() {
    let too_big = Response::Configuration(Wish::Get, Amount::Single, Block::Button(0, ButtonSection::Value), vec![200]);
    assert_eq!(
        Renderer::new(ValueSize::OneByte).render(&too_big, MessageStatus::Response),
        Err(RenderError::ValueOutOfRange)
    );
    let too_long = Response::Configuration(Wish::Get, Amount::Single, Block::Button(0, ButtonSection::Value), vec![1; 26]);
    assert_eq!(
        Renderer::new(ValueSize::TwoBytes).render(&too_long, MessageStatus::Response),
        Err(RenderError::BufferFull)
    );
    let fits = Response::Configuration(Wish::Get, Amount::Single, Block::Button(0, ButtonSection::Value), vec![1; 25]);
    assert_eq!(Renderer::new(ValueSize::TwoBytes).render(&fits, MessageStatus::Response).unwrap().len(), 63);
    let full = Response::Configuration(Wish::Get, Amount::Single, Block::Button(0, ButtonSection::Value), vec![1; 52]);
    assert_eq!(Renderer::new(ValueSize::OneByte).render(&full, MessageStatus::Response).unwrap().len(), 64);
}

#[test]
fn encoder_midi_id_msb_reads_back() {
    let mut c = Config::new();
    c.process_sysex(&request(&[0x01, 0x00, 0x02, 0x07, 0x00, 0x01, 0x00, 0x05], 0));
    let r = c.process_sysex(&request(&[0x00, 0x00, 0x02, 0x07, 0x00, 0x01], 0));
    assert_eq!(r.messages, vec![response(&[0x00, 0x00, 0x02, 0x07, 0x00, 0x01, 0x00, 0x05], 0)]);
    // the lower seven bits (1, the encoder's index) are kept: 5 * 128 + 1
    let r = c.process_sysex(&request(&[0x00, 0x00, 0x02, 0x03, 0x00, 0x01], 0));
    assert_eq!(r.messages, vec![response(&[0x00, 0x00, 0x02, 0x03, 0x00, 0x01, 0x05, 0x01], 0)]);
}

#[test]
fn encoder_midi_id_msb_is_clamped_to_seven_bits() {
    let mut c = Config::new();
    c.process_sysex(&request(&[0x01, 0x00, 0x02, 0x07, 0x00, 0x00, 0x01, 0x00], 0));
    let r = c.process_sysex(&request(&[0x00, 0x00, 0x02, 0x07, 0x00, 0x00], 0));
    assert_eq!(r.messages, vec![response(&[0x00, 0x00, 0x02, 0x07, 0x00, 0x00, 0x00, 0x7F], 0)]);
}
