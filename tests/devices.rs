use pedalboard_midi::devices::pedalboard_audio;
use pedalboard_midi::devices::pedalboardaudio::{PAAction, PedalboardAudio};
use pedalboard_midi::devices::plethora::{Plethora, PlethoraAction};
use pedalboard_midi::devices::rc500::{RC500Event, RC500};
use pedalboard_midi::devices::{Direction, MidiMessage, MidiMessages};

#[test]
fn output_level_is_controller_100_on_channel_2() {
    let mut pa = PedalboardAudio::new();
    let m = pa.midi_messages(PAAction::OutputLevel(64)).messages();
    assert_eq!(m, vec![MidiMessage::ControlChange(2, 100, 64)]);
}

#[test]
fn bypass_sends_zero_and_engage_sends_127() {
    let mut pa = PedalboardAudio::default();
    assert_eq!(
        pa.midi_messages(PAAction::BypassProcessor(7, true)).messages(),
        vec![MidiMessage::ControlChange(2, 7, 0)]
    );
    assert_eq!(
        pa.midi_messages(PAAction::BypassProcessor(7, false)).messages(),
        vec![MidiMessage::ControlChange(2, 7, 127)]
    );
}

#[test]
fn bypass_processor_toggles() {
    let mut pa = pedalboard_audio::PedalboardAudio::new();
    let act = pedalboard_audio::PAAction::BypassProcessor(1);
    assert_eq!(pa.midi_messages(act).messages(), vec![MidiMessage::ControlChange(2, 1, 0)]);
    assert_eq!(pa.midi_messages(act).messages(), vec![MidiMessage::ControlChange(2, 1, 127)]);
    let wrapped = pedalboard_audio::PAAction::BypassProcessor(13);
    assert_eq!(pa.midi_messages(wrapped).messages(), vec![MidiMessage::ControlChange(2, 3, 0)]);
    assert_eq!(
        pa.midi_messages(pedalboard_audio::PAAction::OutputLevel(200)).messages(),
        vec![MidiMessage::ControlChange(2, 100, 127)]
    );
}

#[test]
fn plethora_go_to_board() {
    let p = Plethora {};
    assert_eq!(
        p.midi_messages(PlethoraAction::GoToBoard(3)).messages(),
        vec![
            MidiMessage::ControlChange(1, 102, 0),
            MidiMessage::ControlChange(1, 103, 0),
            MidiMessage::ControlChange(1, 104, 0),
            MidiMessage::ProgramChange(1, 2),
        ]
    );
}

#[test]
fn plethora_board_steps_and_hot_knobs() {
    let p = Plethora {};
    assert_eq!(
        p.midi_messages(PlethoraAction::Board(Direction::Up)).messages(),
        vec![MidiMessage::ControlChange(1, 95, 127)]
    );
    assert_eq!(
        p.midi_messages(PlethoraAction::Board(Direction::Down)).messages(),
        vec![MidiMessage::ControlChange(1, 94, 127)]
    );
    assert_eq!(
        p.midi_messages(PlethoraAction::HotKnob(2, 33)).messages(),
        vec![MidiMessage::ControlChange(1, 108, 33)]
    );
    assert_eq!(
        p.midi_messages(PlethoraAction::HotKnob(40, 33)).messages(),
        vec![MidiMessage::ControlChange(1, 127, 33)]
    );
}

#[test]
fn rc500_toggles_and_memory() {
    let mut rc = RC500::new();
    assert_eq!(
        rc.midi_messages(RC500Event::ToggleRhythm()).messages(),
        vec![MidiMessage::ControlChange(0, 4, 127), MidiMessage::ControlChange(0, 4, 1)]
    );
    assert_eq!(
        rc.midi_messages(RC500Event::Mem(Direction::Down)).messages(),
        vec![MidiMessage::ControlChange(0, 2, 127), MidiMessage::ControlChange(0, 2, 1)]
    );
    assert_eq!(
        rc.midi_messages(RC500Event::Memory(5)).messages(),
        vec![MidiMessage::ProgramChange(0, 4)]
    );
    assert_eq!(
        rc.midi_messages(RC500Event::CurrentChannelLevel(90)).messages(),
        vec![MidiMessage::ControlChange(0, 6, 90)]
    );
}

#[test]
fn rc500_patterns_wrap_both_ways() {
    let mut rc = RC500::default();
    assert_eq!(
        rc.midi_messages(RC500Event::RhythmPattern(Direction::Down)).messages(),
        vec![MidiMessage::ControlChange(0, 7, 126)]
    );
    assert_eq!(
        rc.midi_messages(RC500Event::RhythmPattern(Direction::Up)).messages(),
        vec![MidiMessage::ControlChange(0, 7, 0)]
    );
    assert_eq!(
        rc.midi_messages(RC500Event::RhythmPattern(Direction::Up)).messages(),
        vec![MidiMessage::ControlChange(0, 7, 2)]
    );
    assert_eq!(
        rc.midi_messages(RC500Event::DrumKit(Direction::Up)).messages(),
        vec![MidiMessage::ControlChange(0, 8, 8)]
    );
}

#[test]
fn midi_messages_hold_at_most_eight() {
    let mut m = MidiMessages::none();
    assert!(m.is_empty());
    for i in 0..10u8 {
        m.push(MidiMessage::ProgramChange(0, i));
    }
    let v = m.messages();
    assert_eq!(v.len(), 8);
    assert_eq!(v[7], MidiMessage::ProgramChange(0, 7));
    let mut m = MidiMessages::none();
    m.push(MidiMessage::ProgramChange(0, 1));
    m.clear();
    assert!(m.is_empty());
}
