use pedalboard_midi::devices::MidiMessage;
use pedalboard_midi::handler::dispatch::{create, HandlerEnum};
use pedalboard_midi::handler::live_effect::LiveEffect;
use pedalboard_midi::handler::live_looper::LiveLooper;
use pedalboard_midi::handler::opendeck::OpenDeck;
use pedalboard_midi::handler::setup_looper::SetupLooper;
use pedalboard_midi::handler::test::Test;
use pedalboard_midi::handler::{Actions, Handlers};
use pedalboard_midi::hmi::{blue, dark, dark_blue, dark_green, white, Edge, InputEvent};

fn messages(a: Actions) -> Vec<MidiMessage> {
    a.midi_messages.messages()
}

#[test]
fn live_effect_selects_boards() {
    let mut h = LiveEffect::new();
    let m = messages(h.handle_human_input(InputEvent::ButtonA(Edge::Activate)));
    assert_eq!(
        m,
        vec![
            MidiMessage::ControlChange(1, 102, 0),
            MidiMessage::ControlChange(1, 103, 0),
            MidiMessage::ControlChange(1, 104, 0),
            MidiMessage::ProgramChange(1, 0),
        ]
    );
    let frame = *h.leds();
    let mut leds = frame;
    let data = leds.animate();
    // ring A is the last ring
    assert_eq!(data[7 * 12], blue());
    assert_eq!(data[96], white());
}

#[test]
fn live_effect_bypass_and_level() {
    let mut h = LiveEffect::default();
    assert_eq!(
        messages(h.handle_human_input(InputEvent::ButtonD(Edge::Activate))),
        vec![MidiMessage::ControlChange(2, 1, 0)]
    );
    assert_eq!(
        messages(h.handle_human_input(InputEvent::ButtonD(Edge::Activate))),
        vec![MidiMessage::ControlChange(2, 1, 127)]
    );
    assert_eq!(
        messages(h.handle_human_input(InputEvent::ExpressionPedalB(99))),
        vec![MidiMessage::ControlChange(2, 100, 99)]
    );
    assert!(messages(h.handle_human_input(InputEvent::ButtonA(Edge::Deactivate))).is_empty());
}

#[test]
fn live_looper_drives_the_loop_station() {
    let mut h = LiveLooper::new();
    assert_eq!(
        messages(h.handle_human_input(InputEvent::ButtonF(Edge::Activate))),
        vec![MidiMessage::ControlChange(0, 3, 127), MidiMessage::ControlChange(0, 3, 1)]
    );
    assert_eq!(
        messages(h.handle_human_input(InputEvent::ExpressionPedalB(12))),
        vec![MidiMessage::ControlChange(0, 6, 12)]
    );
}

#[test]
fn setup_looper_steps_patterns_and_kits() {
    let mut h = SetupLooper::default();
    assert_eq!(
        messages(h.handle_human_input(InputEvent::ButtonB(Edge::Activate))),
        vec![MidiMessage::ControlChange(0, 7, 126)]
    );
    assert_eq!(
        messages(h.handle_human_input(InputEvent::ButtonE(Edge::Activate))),
        vec![MidiMessage::ControlChange(0, 8, 126)]
    );
    assert!(messages(h.handle_human_input(InputEvent::ButtonC(Edge::Activate))).is_empty());
}

#[test]
fn test_mode_sends_loudness_probe() {
    let mut h = Test::new();
    assert_eq!(
        messages(h.handle_human_input(InputEvent::GainButton(Edge::Activate))),
        vec![MidiMessage::NoteOff(14, 36, 80)]
    );
    assert!(messages(h.handle_human_input(InputEvent::ButtonA(Edge::Activate))).is_empty());
    let mut leds = *h.leds();
    let data = leds.animate();
    for k in 0..12 {
        assert_eq!(data[7 * 12 + k], dark());
    }
}

#[test]
fn opendeck_mode_serves_sysex() {
    let mut h = OpenDeck::new();
    assert!(messages(h.handle_human_input(InputEvent::ButtonA(Edge::Activate))).is_empty());
    let r = h.process_sysex(&[0xF0, 0x00, 0x53, 0x43, 0x00, 0x00, 0x42, 0xF7]);
    assert_eq!(
        r.messages,
        vec![vec![0xF0, 0x00, 0x53, 0x43, 0x01, 0x00, 0x42, 0, 0x00, 0, 0x12, 0, 0x34, 0, 0x56, 0xF7]]
    );
}

#[test]
fn volume_button_cycles_modes() {
    let mut hs = Handlers::new(create());
    // live effect first: button A picks board 1
    let m = messages(hs.handle_human_input(InputEvent::ButtonA(Edge::Activate)));
    assert_eq!(m.len(), 4);
    for _ in 0..5 {
        assert!(messages(hs.handle_human_input(InputEvent::VolButton(Edge::Activate))).is_empty());
    }
    // five presses bring the first mode back
    let m = messages(hs.handle_human_input(InputEvent::ButtonB(Edge::Activate)));
    assert_eq!(m.last(), Some(&MidiMessage::ProgramChange(1, 1)));
    hs.handle_human_input(InputEvent::VolButton(Edge::Activate));
    let m = messages(hs.handle_human_input(InputEvent::ButtonD(Edge::Activate)));
    assert_eq!(m, vec![MidiMessage::ControlChange(0, 1, 127), MidiMessage::ControlChange(0, 1, 1)]);
}

#[test]
fn sent_messages_flash_the_monitor() {
    let mut hs = Handlers::new(create());
    hs.handle_human_input(InputEvent::ButtonA(Edge::Activate));
    let data = hs.animate_leds();
    assert_eq!(data[97], dark_green());
    let data = hs.animate_leds();
    assert_eq!(data[97], dark());
}

#[test]
fn midi_input_flashes_or_shows_loudness() {
    let mut hs = Handlers::new(create());
    hs.process_midi_input(MidiMessage::ControlChange(0, 1, 2));
    assert_eq!(hs.animate_leds()[97], dark_blue());
    hs.process_midi_input(MidiMessage::NoteOff(0, 36, 20));
    let data = hs.animate_leds();
    // the volume ring (sixth) shows a meter at -20 LUFS: steps up to -24 lit
    assert_ne!(data[5 * 12], dark());
    assert_eq!(data[5 * 12 + 1], dark());
    assert_eq!(data[97], dark());
}

#[test]
fn sysex_reaches_only_the_configuration_mode() {
    let handshake = [0xF0, 0x00, 0x53, 0x43, 0x00, 0x00, 0x01, 0xF7];
    let mut hs = Handlers::new(create());
    assert!(hs.process_sysex(&handshake).messages.is_empty());
    for _ in 0..4 {
        hs.handle_human_input(InputEvent::VolButton(Edge::Activate));
    }
    assert_eq!(hs.process_sysex(&handshake).messages.len(), 1);
    let mut e = HandlerEnum::Test(Test::new());
    assert!(e.process_sysex(&handshake).messages.is_empty());
}
