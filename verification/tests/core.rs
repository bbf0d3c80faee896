use handcake::device::DeviceDescriptor;
use handcake::device::Gamepad;
use handcake::device::GamepadError;
use handcake::device::device_name;
use handcake::device::parse_device_id;
use handcake::dispatch::Message;
use handcake::dispatch::MidiRecord;
use handcake::dispatch::dispatch_message;
use handcake::dispatch::drain_records;
use handcake::dispatch::to_record;
use handcake::encode::EventRecord;
use handcake::encode::encode_axis;
use handcake::encode::encode_button;
use handcake::midi::Channel;
use handcake::midi::Midi;
use handcake::midi::MidiError;
use handcake::midi::MidiEvent;
use handcake::midi::decode_midi;
use handcake::midi::midi_channel_to_num;
use handcake::registry::AbsAxis;
use handcake::registry::AxisName;
use handcake::registry::ButtonName;
use handcake::registry::Key;
use handcake::registry::axis_symbol_to_code;
use handcake::registry::button_symbol_to_code;
use handcake::registry::i32_to_absaxis;
use handcake::registry::i32_to_key;

const ALL_BUTTON_NAMES: [ButtonName; 33] = [
    ButtonName::BtnA,
    ButtonName::BtnB,
    ButtonName::BtnX,
    ButtonName::BtnY,
    ButtonName::BtnMenu,
    ButtonName::BtnStart,
    ButtonName::BtnView,
    ButtonName::BtnSelect,
    ButtonName::BtnMode,
    ButtonName::BtnXbox,
    ButtonName::BtnLb,
    ButtonName::BtnRb,
    ButtonName::BtnLs,
    ButtonName::BtnRs,
    ButtonName::BtnCross,
    ButtonName::BtnCircle,
    ButtonName::BtnSquare,
    ButtonName::BtnTriangle,
    ButtonName::BtnOptions,
    ButtonName::BtnShare,
    ButtonName::BtnPs,
    ButtonName::BtnL1,
    ButtonName::BtnR1,
    ButtonName::BtnL3,
    ButtonName::BtnR3,
    ButtonName::BtnSouth,
    ButtonName::BtnEast,
    ButtonName::BtnWest,
    ButtonName::BtnNorth,
    ButtonName::BtnLbumper,
    ButtonName::BtnRbumper,
    ButtonName::BtnLthumb,
    ButtonName::BtnRthumb,
];

const ALL_AXIS_NAMES: [AxisName; 8] = [
    AxisName::AxisLstickX,
    AxisName::AxisLstickY,
    AxisName::AxisRstickX,
    AxisName::AxisRstickY,
    AxisName::AxisLtrigger,
    AxisName::AxisRtrigger,
    AxisName::AxisDpadX,
    AxisName::AxisDpadY,
];

#[test]
fn registry_button_round_trip() {
    for name in ALL_BUTTON_NAMES {
        let code = button_symbol_to_code(name);
        let key = i32_to_key(code);
        assert_ne!(key, Key::Unknown);
        assert_eq!(key.code() as i32, code);
    }
}

#[test]
fn registry_axis_round_trip() {
    for name in ALL_AXIS_NAMES {
        let code = axis_symbol_to_code(name);
        let axis = i32_to_absaxis(code);
        assert_ne!(axis, AbsAxis::Reserved);
        assert_eq!(axis.code() as i32, code);
    }
}

#[test]
fn registry_aliases_share_codes() {
    let south = button_symbol_to_code(ButtonName::BtnSouth);
    assert_eq!(button_symbol_to_code(ButtonName::BtnA), south);
    assert_eq!(button_symbol_to_code(ButtonName::BtnCross), south);
    assert_eq!(south, 0x130);

    assert_eq!(
        button_symbol_to_code(ButtonName::BtnMenu),
        button_symbol_to_code(ButtonName::BtnStart)
    );
    assert_eq!(
        button_symbol_to_code(ButtonName::BtnView),
        button_symbol_to_code(ButtonName::BtnShare)
    );
    assert_eq!(
        button_symbol_to_code(ButtonName::BtnXbox),
        button_symbol_to_code(ButtonName::BtnPs)
    );
    assert_eq!(
        button_symbol_to_code(ButtonName::BtnLb),
        button_symbol_to_code(ButtonName::BtnL1)
    );
    assert_eq!(
        button_symbol_to_code(ButtonName::BtnRs),
        button_symbol_to_code(ButtonName::BtnR3)
    );
}

#[test]
fn registry_wire_codes_match_evdev() {
    assert_eq!(button_symbol_to_code(ButtonName::BtnB), 0x131);
    assert_eq!(button_symbol_to_code(ButtonName::BtnX), 0x134);
    assert_eq!(button_symbol_to_code(ButtonName::BtnY), 0x133);
    assert_eq!(button_symbol_to_code(ButtonName::BtnMode), 0x13c);
    assert_eq!(axis_symbol_to_code(AxisName::AxisLstickX), 0x00);
    assert_eq!(axis_symbol_to_code(AxisName::AxisLstickY), 0x01);
    assert_eq!(axis_symbol_to_code(AxisName::AxisRstickX), 0x03);
    assert_eq!(axis_symbol_to_code(AxisName::AxisRstickY), 0x04);
    assert_eq!(axis_symbol_to_code(AxisName::AxisLtrigger), 0x15);
    assert_eq!(axis_symbol_to_code(AxisName::AxisRtrigger), 0x14);
    assert_eq!(axis_symbol_to_code(AxisName::AxisDpadX), 0x10);
    assert_eq!(axis_symbol_to_code(AxisName::AxisDpadY), 0x11);
}

#[test]
fn unknown_codes_fail_soft() {
    assert_eq!(i32_to_key(999), Key::Unknown);
    assert_eq!(i32_to_key(0x138), Key::Unknown);
    assert_eq!(i32_to_key(-1), Key::Unknown);
    assert_eq!(i32_to_absaxis(2), AbsAxis::Reserved);
    assert_eq!(i32_to_absaxis(-7), AbsAxis::Reserved);
}

#[test]
fn encode_button_two_records_sync_last() {
    let evs = encode_button(Key::ButtonSouth, true);
    assert_eq!(evs.len(), 2);
    assert_eq!(evs[0], EventRecord { kind: 1, code: 0x130, value: 1 });
    assert_eq!(evs[1], EventRecord { kind: 0, code: 0, value: 0 });

    let evs = encode_button(Key::ButtonTR, false);
    assert_eq!(evs.len(), 2);
    assert_eq!(evs[0], EventRecord { kind: 1, code: 0x137, value: 0 });
    assert_eq!(evs[1], EventRecord { kind: 0, code: 0, value: 0 });
}

#[test]
fn encode_axis_two_records_sync_last() {
    let evs = encode_axis(AbsAxis::RX, -17000);
    assert_eq!(evs.len(), 2);
    assert_eq!(evs[0], EventRecord { kind: 3, code: 0x03, value: -17000 });
    assert_eq!(evs[1], EventRecord { kind: 0, code: 0, value: 0 });
}

#[test]
fn axis_scaling_linear_and_symmetric() {
    // The caller scales a normalized position by round(32768 * value)
    // before encoding; the encoder embeds the scaled value unchanged.
    let scale = |value: f32| -> i32 { (32768.0 * value).round() as i32 };
    for (normalized, scaled) in [(1.0f32, 32768), (-1.0, -32768), (0.0, 0), (0.5, 16384)] {
        let evs = encode_axis(AbsAxis::X, scale(normalized));
        assert_eq!(evs[0].value, scaled);
    }
    assert_eq!(scale(0.25) + scale(-0.25), 0);
}

#[test]
fn unknown_button_passes_sentinel_through() {
    let mut pad = Gamepad::new();
    pad.create(None).unwrap();
    let evs = pad.button(999, true);
    assert_eq!(evs.len(), 2);
    assert_eq!(evs[0], EventRecord { kind: 1, code: 240, value: 1 });
}

#[test]
fn gamepad_button_axis_encode() {
    let mut pad = Gamepad::new();
    pad.create(None).unwrap();
    let evs = pad.button(0x13d, true);
    assert_eq!(evs[0], EventRecord { kind: 1, code: 0x13d, value: 1 });
    let evs = pad.axis(0x04, 12345);
    assert_eq!(evs[0], EventRecord { kind: 3, code: 0x04, value: 12345 });
    assert_eq!(evs[1], EventRecord { kind: 0, code: 0, value: 0 });
}

fn created_descriptor(id: Option<&str>) -> DeviceDescriptor {
    let mut pad = Gamepad::new();
    pad.create(id).unwrap()
}

#[test]
fn create_with_override_sets_identity() {
    let d = created_descriptor(Some("1038:1412"));
    assert_eq!(d.vendor, 0x1038);
    assert_eq!(d.product, 0x1412);
    assert_eq!(d.bus_type, 3);
    assert_eq!(d.version, 0);
}

#[test]
fn create_without_override_uses_default_identity() {
    let d = created_descriptor(None);
    assert_eq!(d.vendor, 0x045e);
    assert_eq!(d.product, 0x0b12);
}

#[test]
fn create_declares_fixed_capability_set() {
    let d = created_descriptor(None);
    assert_eq!(d.keys.len(), 11);
    assert_eq!(d.keys[0], Key::ButtonSouth);
    assert_eq!(d.keys[10], Key::ButtonMode);
    assert_eq!(d.axes.len(), 8);
    assert_eq!(d.axes[0].axis, AbsAxis::X);
    assert_eq!(d.axes[7].axis, AbsAxis::Hat0Y);
    for setup in d.axes.iter() {
        assert_eq!(setup.info.minimum, -32767);
        assert_eq!(setup.info.maximum, 32767);
        assert_eq!(setup.info.flat, 0);
        assert_eq!(setup.info.fuzz, 0);
        assert_eq!(setup.info.resolution, 10);
        assert_eq!(setup.info.value, 0);
    }
}

#[test]
fn create_twice_is_an_error() {
    let mut pad = Gamepad::new();
    assert!(pad.create(None).is_ok());
    assert_eq!(pad.create(None).unwrap_err(), GamepadError::AlreadyCreated);
}

#[test]
fn create_with_malformed_override_fails() {
    for bad in ["", "1038", "1038:", ":1412", "10388:1412", "1038:14123", "103g:1412",
        "1038:14:12", "1038-1412"] {
        let mut pad = Gamepad::new();
        assert_eq!(pad.create(Some(bad)).unwrap_err(), GamepadError::BadIdentity, "{}", bad);
        assert!(!pad.created);
        assert!(pad.create(None).is_ok());
    }
}

#[test]
fn parse_device_id_exact_values() {
    assert_eq!(parse_device_id(b"1038:1412"), Some((0x1038, 0x1412)));
    assert_eq!(parse_device_id(b"45e:b12"), Some((0x045e, 0x0b12)));
    assert_eq!(parse_device_id(b"F:a"), Some((0x0f, 0x0a)));
    assert_eq!(parse_device_id(b"ffff:FFFF"), Some((0xffff, 0xffff)));
    assert_eq!(parse_device_id(b"0:0"), Some((0, 0)));
    assert_eq!(parse_device_id(b"00045e:b12"), None);
    assert_eq!(parse_device_id(b"45e b12"), None);
}

#[test]
fn device_name_is_stable() {
    assert_eq!(device_name(), "handcake Virtual Controller");
}

#[test]
fn decode_is_total_on_arbitrary_bytes() {
    // Anything at all classifies; nothing panics or errors.
    let samples: [&[u8]; 10] = [
        b"",
        &[0x90],
        &[0x90, 60],
        &[0x00, 0x00, 0x00],
        &[0x30, 1, 2],
        &[0xa0, 1, 2],
        &[0xd0, 1, 2],
        &[0xf0, 0x7e, 0x00, 0x06, 0x02, 0xf7],
        &[0xf8, 0, 0],
        &[0xff, 0xff, 0xff],
    ];
    for raw in samples {
        assert_eq!(decode_midi(raw), MidiEvent::Invalid);
    }
    let mut exhaustive = 0u32;
    for status in 0u8..=255 {
        let e = decode_midi(&[status, 1, 2]);
        if e != MidiEvent::Invalid {
            exhaustive += 1;
        }
    }
    // Five supported families of sixteen channels each.
    assert_eq!(exhaustive, 80);
}

#[test]
fn decode_note_on() {
    assert_eq!(
        decode_midi(&[0x90, 60, 100]),
        MidiEvent::NoteOn { channel: Channel::Ch1, key: 60, vel: 100 }
    );
    assert_eq!(
        decode_midi(&[0x9f, 0, 127]),
        MidiEvent::NoteOn { channel: Channel::Ch16, key: 0, vel: 127 }
    );
}

#[test]
fn decode_note_off() {
    assert_eq!(
        decode_midi(&[0x83, 61, 0]),
        MidiEvent::NoteOff { channel: Channel::Ch4, key: 61, vel: 0 }
    );
}

#[test]
fn decode_control_change() {
    assert_eq!(
        decode_midi(&[0xb0, 114, 65]),
        MidiEvent::ControlChange { channel: Channel::Ch1, control: 114, value: 65 }
    );
}

#[test]
fn decode_program_change() {
    assert_eq!(
        decode_midi(&[0xc5, 42, 0]),
        MidiEvent::ProgramChange { channel: Channel::Ch6, program: 42 }
    );
}

#[test]
fn decode_pitch_bend_combines_fourteen_bits() {
    assert_eq!(
        decode_midi(&[0xe3, 0x01, 0x40]),
        MidiEvent::PitchBend { channel: Channel::Ch4, value: 0x40 * 128 + 0x01 }
    );
    assert_eq!(
        decode_midi(&[0xe0, 0x7f, 0x7f]),
        MidiEvent::PitchBend { channel: Channel::Ch1, value: 16383 }
    );
    assert_eq!(
        decode_midi(&[0xe0, 0x00, 0x00]),
        MidiEvent::PitchBend { channel: Channel::Ch1, value: 0 }
    );
}

#[test]
fn channel_numbers_are_one_based() {
    assert_eq!(midi_channel_to_num(&Channel::Ch1), 1);
    assert_eq!(midi_channel_to_num(&Channel::Ch10), 10);
    assert_eq!(midi_channel_to_num(&Channel::Ch16), 16);
    assert_eq!(midi_channel_to_num(&Channel::Invalid), -1);
}

#[test]
fn select_port_zero_ports_is_fatal() {
    let r = Midi::select_port(0, None);
    assert_eq!(r, Err(MidiError::NoPorts));
    assert_eq!(Midi::select_port(0, Some(0)), Err(MidiError::NoPorts));
    assert_eq!(r.unwrap_err().message(), "No ports on system.");
}

#[test]
fn select_port_rules() {
    assert_eq!(Midi::select_port(1, None), Ok(0));
    assert_eq!(Midi::select_port(1, Some(7)), Ok(0));
    assert_eq!(Midi::select_port(3, None), Err(MidiError::PortUnspecified));
    assert_eq!(Midi::select_port(3, Some(2)), Ok(2));
    assert_eq!(Midi::select_port(3, Some(3)), Err(MidiError::PortOutOfRange));
}

#[test]
fn note_on_dispatches_exact_record_shape() {
    let event = decode_midi(&[0x90, 60, 100]);
    let record = dispatch_message(&Message::Midi(event), true).unwrap();
    assert_eq!(record, MidiRecord::NoteOn { channel: 1, key: 60, vel: 100 });
    assert_eq!(record.event_name(), "note_on");
}

#[test]
fn record_shapes_per_variant() {
    let cases: [(MidiEvent, MidiRecord, &str); 5] = [
        (
            MidiEvent::NoteOn { channel: Channel::Ch2, key: 10, vel: 20 },
            MidiRecord::NoteOn { channel: 2, key: 10, vel: 20 },
            "note_on",
        ),
        (
            MidiEvent::NoteOff { channel: Channel::Ch3, key: 11, vel: 0 },
            MidiRecord::NoteOff { channel: 3, key: 11, vel: 0 },
            "note_off",
        ),
        (
            MidiEvent::ControlChange { channel: Channel::Ch4, control: 7, value: 99 },
            MidiRecord::ControlChange { channel: 4, control: 7, value: 99 },
            "control_change",
        ),
        (
            MidiEvent::ProgramChange { channel: Channel::Ch5, program: 8 },
            MidiRecord::ProgramChange { channel: 5, program: 8 },
            "program_change",
        ),
        (
            MidiEvent::PitchBend { channel: Channel::Ch6, value: 8192 },
            MidiRecord::PitchBend { channel: 6, value: 8192 },
            "pitch_bend",
        ),
    ];
    for (event, record, name) in cases {
        let got = to_record(&event).unwrap();
        assert_eq!(got, record);
        assert_eq!(got.event_name(), name);
    }
}

#[test]
fn invalid_events_are_filtered_out() {
    assert_eq!(to_record(&MidiEvent::Invalid), None);
    assert_eq!(dispatch_message(&Message::Midi(MidiEvent::Invalid), true), None);
}

#[test]
fn no_handler_discards_without_error() {
    let event = decode_midi(&[0x90, 60, 100]);
    assert_eq!(dispatch_message(&Message::Midi(event), false), None);

    let mut midi = Midi::new();
    midi.send(Message::Midi(event));
    midi.send(Message::Midi(MidiEvent::Invalid));
    let records = drain_records(&mut midi, false);
    assert!(records.is_empty());
    assert_eq!(midi.queue_len(), 0);
}

#[test]
fn dispatch_preserves_order_without_gaps_or_duplicates() {
    let mut midi = Midi::new();
    let raws: [[u8; 3]; 5] = [
        [0x90, 60, 100],
        [0x80, 60, 0],
        [0xb2, 7, 127],
        [0xc1, 5, 0],
        [0xe0, 0x00, 0x40],
    ];
    for raw in raws {
        midi.send(Message::Midi(decode_midi(&raw)));
    }
    assert_eq!(midi.queue_len(), 5);
    let records = drain_records(&mut midi, true);
    assert_eq!(midi.queue_len(), 0);
    assert_eq!(
        records,
        vec![
            MidiRecord::NoteOn { channel: 1, key: 60, vel: 100 },
            MidiRecord::NoteOff { channel: 1, key: 60, vel: 0 },
            MidiRecord::ControlChange { channel: 3, control: 7, value: 127 },
            MidiRecord::ProgramChange { channel: 2, program: 5 },
            MidiRecord::PitchBend { channel: 1, value: 0x40 * 128 },
        ]
    );
}

#[test]
fn dispatch_skips_invalid_but_keeps_order() {
    let mut midi = Midi::new();
    midi.send(Message::Midi(decode_midi(&[0x90, 1, 2])));
    midi.send(Message::Midi(decode_midi(&[0xf8, 0, 0])));
    midi.send(Message::Midi(decode_midi(&[0x80, 1, 0])));
    let records = drain_records(&mut midi, true);
    assert_eq!(
        records,
        vec![
            MidiRecord::NoteOn { channel: 1, key: 1, vel: 2 },
            MidiRecord::NoteOff { channel: 1, key: 1, vel: 0 },
        ]
    );
}

#[test]
fn queue_is_fifo() {
    let mut midi = Midi::new();
    assert_eq!(midi.recv(), None);
    let a = Message::Midi(MidiEvent::ProgramChange { channel: Channel::Ch1, program: 1 });
    let b = Message::Midi(MidiEvent::ProgramChange { channel: Channel::Ch1, program: 2 });
    midi.send(a);
    midi.send(b);
    assert_eq!(midi.recv(), Some(a));
    assert_eq!(midi.recv(), Some(b));
    assert_eq!(midi.recv(), None);
}

#[test]
fn error_messages_are_user_facing() {
    assert_eq!(MidiError::PortUnspecified.message(), "Several ports on system; pass a port index.");
    assert_eq!(MidiError::PortOutOfRange.message(), "No port with that index on system.");
    assert_eq!(GamepadError::AlreadyCreated.message(), "Device was already created.");
    assert_eq!(
        GamepadError::BadIdentity.message(),
        "Device identity must be of the form vendor:product, in hex."
    );
}
