use midi2key::action::{parse_keys, Action, MidiAction, MidiKeyMapping};
use midi2key::error::{ConfigError, DispatchError, ProtocolError};
use midi2key::event::Event;
use midi2key::handler::{emit_keyboard_events, emit_midi_events, Handler, KeyStroke, Notice};
use midi2key::katana::{calculate_checksum, create_sysex_message, create_sysex_payload, KatanaControl, Preset};
use midi2key::midi::{decode, decode_frame, LiveFrame};
use midi2key::table::{get_mappings, Config, MappingTable};

fn names(v: &[&str]) -> Option<Vec<String>> {
    Some(v.iter().map(|s| s.to_string()).collect())
}

fn mapping(event: &str, desc: &str) -> MidiKeyMapping {
    MidiKeyMapping {
        event: event.to_string(),
        description: desc.to_string(),
        keys: None,
        midi: None,
        device_commands: None,
    }
}

const ENTRY: [u8; 15] = [0xF0, 0x41, 0x00, 0x00, 0x00, 0x00, 0x33, 0x12, 0x7F, 0x00, 0x00, 0x01, 0x01, 0x7F, 0xF7];
const EXIT: [u8; 15] = [0xF0, 0x41, 0x00, 0x00, 0x00, 0x00, 0x33, 0x12, 0x7F, 0x00, 0x00, 0x01, 0x00, 0x00, 0xF7];

#[test]
fn checksum_balances_the_sum() {
    let b = [0x7Fu8, 0x7F, 0x10];
    let s = b.iter().map(|x| *x as u32).sum::<u32>() % 128;
    let c = calculate_checksum(&b);
    assert_eq!(c, 114);
    assert_eq!((s + c as u32) % 128, 0);
}

#[test]
fn checksum_of_nothing_is_zero() {
    assert_eq!(calculate_checksum(&[]), 0);
}

#[test]
fn checksum_of_large_bytes() {
    assert_eq!(calculate_checksum(&[0xFF, 0xFF, 0xFF]), 3);
    assert_eq!(calculate_checksum(&[0x80]), 0);
}

#[test]
fn preset_select_payload_for_a1() {
    let data = [0x00u8, 0x01, 0x00, 0x00, 0x00, u8::from(Preset::A1)];
    let p = create_sysex_payload(&data);
    let cs = calculate_checksum(&[0x00, 0x01, 0x00, 0x00, 0x00, 0x01]);
    assert_eq!(cs, 0x7E);
    assert_eq!(p, vec![0x00, 0x00, 0x00, 0x00, 0x33, 0x12, 0x00, 0x01, 0x00, 0x00, 0x00, 0x01, cs]);
}

#[test]
fn sysex_message_is_framed() {
    let m = create_sysex_message(&[0x7F, 0x00, 0x00, 0x01, 0x01]);
    assert_eq!(m, ENTRY.to_vec());
}

#[test]
fn preset_codes() {
    assert_eq!(u8::from(Preset::Panel), 0);
    assert_eq!(u8::from(Preset::A1), 1);
    assert_eq!(u8::from(Preset::B1), 5);
    assert_eq!(u8::from(Preset::B4), 8);
}

#[test]
fn preset_names() {
    assert_eq!(Preset::try_from("Panel"), Ok(Preset::Panel));
    assert_eq!(Preset::try_from("A1"), Ok(Preset::A1));
    assert_eq!(Preset::try_from("B3"), Ok(Preset::B3));
    assert_eq!(Preset::try_from("C1"), Err(ConfigError::InvalidDeviceCommand));
    assert_eq!(Preset::try_from("a1"), Err(ConfigError::InvalidDeviceCommand));
}

#[test]
fn channel_enters_edit_mode_on_construction() {
    let (ctrl, msg) = KatanaControl::new();
    assert!(ctrl.is_edit_active());
    assert_eq!(msg, ENTRY.to_vec());
}

#[test]
fn change_preset_message() {
    let (mut ctrl, _) = KatanaControl::new();
    let msg = ctrl.change_preset(Preset::A1);
    assert_eq!(
        msg,
        vec![0xF0, 0x41, 0x00, 0x00, 0x00, 0x00, 0x33, 0x12, 0x00, 0x01, 0x00, 0x00, 0x00, 0x01, 0x7E, 0xF7]
    );
    assert!(ctrl.is_edit_active());
}

#[test]
fn edit_mode_bracketing_session() {
    let (mut ctrl, first) = KatanaControl::new();
    let mut sent = vec![first];
    for p in [Preset::A1, Preset::B2, Preset::Panel, Preset::A1] {
        sent.push(ctrl.change_preset(p));
    }
    sent.push(ctrl.exit_edit_mode());
    assert!(!ctrl.is_edit_active());
    assert_eq!(sent.iter().filter(|m| **m == ENTRY.to_vec()).count(), 1);
    assert_eq!(sent.iter().filter(|m| **m == EXIT.to_vec()).count(), 1);
    assert_eq!(sent[0], ENTRY.to_vec());
    assert_eq!(*sent.last().unwrap(), EXIT.to_vec());
}

#[test]
fn event_parse_cc_64() {
    assert_eq!(Event::try_from("CC 64"), Ok(Event::CC(64)));
}

#[test]
fn event_parse_pc_200_fails() {
    assert_eq!(Event::try_from("PC 200"), Err(ConfigError::InvalidEvent));
}

#[test]
fn event_parse_edges() {
    assert_eq!(Event::try_from("PC 0"), Ok(Event::PC(0)));
    assert_eq!(Event::try_from("PC 127"), Ok(Event::PC(127)));
    assert_eq!(Event::try_from("PC 007"), Ok(Event::PC(7)));
    assert_eq!(Event::try_from("PC 128"), Err(ConfigError::InvalidEvent));
    assert_eq!(Event::try_from("PC 1000"), Err(ConfigError::InvalidEvent));
    assert_eq!(Event::try_from("PC"), Err(ConfigError::InvalidEvent));
    assert_eq!(Event::try_from("PC "), Err(ConfigError::InvalidEvent));
    assert_eq!(Event::try_from("NC 1"), Err(ConfigError::InvalidEvent));
    assert_eq!(Event::try_from("PC1"), Err(ConfigError::InvalidEvent));
    assert_eq!(Event::try_from("PC -1"), Err(ConfigError::InvalidEvent));
    assert_eq!(Event::try_from(""), Err(ConfigError::InvalidEvent));
}

#[test]
fn outgoing_message_parse() {
    assert_eq!(MidiAction::try_from("CC 7:100"), Ok(MidiAction::CC(7, 100)));
    assert_eq!(MidiAction::try_from("PC 5"), Ok(MidiAction::PC(5)));
    assert_eq!(MidiAction::try_from("CC 7"), Err(ConfigError::InvalidOutgoingMessage));
    assert_eq!(MidiAction::try_from("CC 200:1"), Err(ConfigError::InvalidOutgoingMessage));
    assert_eq!(MidiAction::try_from("CC 1:2:3"), Err(ConfigError::InvalidOutgoingMessage));
    assert_eq!(MidiAction::try_from("CC :1"), Err(ConfigError::InvalidOutgoingMessage));
    assert_eq!(MidiAction::try_from("PC 128"), Err(ConfigError::InvalidOutgoingMessage));
    assert_eq!(MidiAction::try_from("XX 1"), Err(ConfigError::InvalidOutgoingMessage));
}

#[test]
fn outgoing_message_bytes() {
    assert_eq!(MidiAction::PC(5).to_midi(), vec![0xC0, 5]);
    assert_eq!(MidiAction::CC(7, 100).to_midi(), vec![0xB0, 7, 100]);
    assert_eq!(MidiAction::CC(120, 1).to_midi(), vec![0xB0, 119, 1]);
    let all = emit_midi_events(&[MidiAction::PC(1), MidiAction::CC(2, 3)]);
    assert_eq!(all, vec![vec![0xC0, 1], vec![0xB0, 2, 3]]);
}

#[test]
fn key_names_resolve() {
    let r = parse_keys(&names(&["KEY_A", "KEY_B"]));
    assert_eq!(r, Some(vec![evdev::KeyCode::KEY_A.code(), evdev::KeyCode::KEY_B.code()]));
    assert_eq!(r, Some(vec![30, 48]));
    assert_eq!(parse_keys(&names(&["KEY_A", "NOT_A_KEY"])), None);
    assert_eq!(parse_keys(&None), Some(vec![]));
}

#[test]
fn key_emission_order() {
    let (a, b, c) = (30u16, 48u16, 46u16);
    let r = emit_keyboard_events(&[a, b, c]);
    assert_eq!(
        r,
        vec![
            KeyStroke::Press(a),
            KeyStroke::Press(b),
            KeyStroke::Press(c),
            KeyStroke::Release(c),
            KeyStroke::Release(b),
            KeyStroke::Release(a),
        ]
    );
    assert!(emit_keyboard_events(&[]).is_empty());
}

#[test]
fn action_from_descriptor() {
    let mut m = mapping("PC 1", "next");
    m.keys = names(&["KEY_LEFTCTRL", "KEY_N"]);
    m.midi = names(&["CC 7:100"]);
    m.device_commands = names(&["A2"]);
    let a = Action::try_from(&m).ok().unwrap();
    assert_eq!(a.desc, "next");
    assert_eq!(a.keys, vec![29, 49]);
    assert_eq!(a.midi, vec![MidiAction::CC(7, 100)]);
    assert_eq!(a.device_commands, vec![Preset::A2]);
}

#[test]
fn action_missing_lists_are_empty() {
    let a = Action::try_from(&mapping("PC 1", "nothing")).ok().unwrap();
    assert!(a.keys.is_empty() && a.midi.is_empty() && a.device_commands.is_empty());
}

#[test]
fn action_errors() {
    let mut m = mapping("PC 1", "bad");
    m.keys = names(&["KEY_NOPE"]);
    m.midi = names(&["XX"]);
    assert_eq!(Action::try_from(&m).err(), Some(ConfigError::InvalidKey));
    m.keys = None;
    assert_eq!(Action::try_from(&m).err(), Some(ConfigError::InvalidOutgoingMessage));
    m.midi = None;
    m.device_commands = names(&["Z9"]);
    assert_eq!(Action::try_from(&m).err(), Some(ConfigError::InvalidDeviceCommand));
    assert_eq!(Action::from_key_codes(&mapping("PC 1", "x"), None).err(), Some(ConfigError::InvalidKey));
}

#[test]
fn duplicate_event_keeps_second() {
    let config = Config {
        midi_input: "in".to_string(),
        midi_output: None,
        device_output: None,
        mappings: vec![mapping("PC 3", "first"), mapping("PC 3", "second")],
    };
    let table = get_mappings(&config).ok().unwrap();
    assert_eq!(table.get(&Event::PC(3)).unwrap().desc, "second");
    assert!(table.get(&Event::CC(3)).is_none());
}

#[test]
fn invalid_event_fails_table() {
    let config = Config {
        midi_input: "in".to_string(),
        midi_output: None,
        device_output: None,
        mappings: vec![mapping("PC 3", "ok"), mapping("PC 300", "bad")],
    };
    assert_eq!(get_mappings(&config).err(), Some(ConfigError::InvalidEvent));
}

#[test]
fn decode_frames() {
    assert_eq!(decode(&[0xB0, 64, 127]), Ok(Some(Event::CC(64))));
    assert_eq!(decode(&[0xB3, 64, 0]), Ok(Some(Event::CC(64))));
    assert_eq!(decode(&[0xC0, 5]), Ok(Some(Event::PC(5))));
    assert_eq!(decode(&[0x90, 60, 100]), Ok(None));
    assert_eq!(decode(&[0xF8]), Ok(None));
    assert_eq!(decode(&[]), Err(ProtocolError::Malformed));
    assert_eq!(decode(&[0xC0]), Err(ProtocolError::Malformed));
    assert_eq!(decode(&[0xB0, 0x80, 1]), Err(ProtocolError::Malformed));
    assert_eq!(decode(&[0x40, 1]), Err(ProtocolError::Malformed));
    assert_eq!(decode_frame(LiveFrame::Controller(1, 2)), Ok(Some(Event::CC(1))));
}

fn handler_with(m: MidiKeyMapping, has_output: bool) -> Handler {
    let config = Config { midi_input: "in".to_string(), midi_output: None,
        device_output: None, mappings: vec![m] };
    Handler { mappings: get_mappings(&config).ok().unwrap(), has_output, has_device: false }
}

#[test]
fn unmapped_event_does_nothing() {
    let h = Handler { mappings: MappingTable::new(), has_output: true, has_device: true };
    let p = h.dispatch(&[0xC0, 5]).ok().unwrap();
    assert_eq!(p.notice, Notice::Unmapped);
    assert!(p.keys.is_empty() && p.outgoing.is_empty() && p.device_commands.is_empty());
    assert!(!p.output_missing && !p.device_missing);
}

#[test]
fn mapped_event_runs_action() {
    let mut m = mapping("CC 64", "sustain");
    m.keys = names(&["KEY_A"]);
    m.midi = names(&["PC 9"]);
    m.device_commands = names(&["B1"]);
    let h = handler_with(m, true);
    let p = h.dispatch(&[0xB0, 64, 3]).ok().unwrap();
    assert_eq!(p.notice, Notice::Dispatched);
    assert_eq!(p.keys, vec![KeyStroke::Press(30), KeyStroke::Release(30)]);
    assert_eq!(p.outgoing, vec![vec![0xC0, 9]]);
    assert!(p.device_commands.is_empty());
    assert!(!p.output_missing && p.device_missing);
}

#[test]
fn missing_output_is_advisory() {
    let mut m = mapping("PC 2", "fwd");
    m.midi = names(&["PC 9"]);
    let h = handler_with(m, false);
    let p = h.dispatch(&[0xC0, 2]).ok().unwrap();
    assert!(p.outgoing.is_empty());
    assert!(p.output_missing);
}

#[test]
fn dispatch_signals_and_errors() {
    let h = Handler { mappings: MappingTable::new(), has_output: false, has_device: false };
    assert_eq!(h.dispatch(&[0xF8]).ok().unwrap().notice, Notice::IgnoredFrame);
    assert_eq!(h.dispatch(&[0x90, 1, 1]).ok().unwrap().notice, Notice::UnsupportedMessage);
    assert_eq!(h.dispatch(&[0x80]).err(), Some(DispatchError::Protocol(ProtocolError::Malformed)));
}
