use car_remote::schema::{
    Command, DecodeError, DoorControllerCommand, EngineCommand, PeripheralKind, DOOR_LOCK_CHAR,
    DOOR_SERVICE_UUID, DOOR_WINDOW_LEFT_CHAR, DOOR_WINDOW_RIGHT_CHAR, ENGINE_SERVICE_UUID,
    ENGINE_STATE_CHAR,
};
use car_remote::text::{char_is_space, same_text, strip_prefix, trim};

const ENGINE_STATES: [EngineCommand; 4] = [
    EngineCommand::Off,
    EngineCommand::Radio,
    EngineCommand::Engine,
    EngineCommand::Ignition,
];

const DOOR_COMMANDS: [DoorControllerCommand; 6] = [
    DoorControllerCommand::Lock,
    DoorControllerCommand::Unlock,
    DoorControllerCommand::WindowLeftUp,
    DoorControllerCommand::WindowLeftDown,
    DoorControllerCommand::WindowRightUp,
    DoorControllerCommand::WindowRightDown,
];

#[test]
fn engine_bytes_round_trip() {
    for (byte, state) in ENGINE_STATES.iter().enumerate() {
        assert_eq!(state.wire_byte(), byte as u8);
        assert_eq!(EngineCommand::from_wire_byte(byte as u8), Ok(*state));
    }
}

#[test]
fn every_other_byte_is_a_decoding_error() {
    for byte in 4..=255u8 {
        assert_eq!(EngineCommand::from_wire_byte(byte), Err(DecodeError::InvalidByte(byte)));
    }
}

#[test]
fn engine_states_are_ordered() {
    assert!(EngineCommand::Off < EngineCommand::Radio);
    assert!(EngineCommand::Radio < EngineCommand::Engine);
    assert!(EngineCommand::Engine < EngineCommand::Ignition);
    assert!(!EngineCommand::Off.powers_doors());
    assert!(!EngineCommand::Radio.powers_doors());
    assert!(EngineCommand::Engine.powers_doors());
    assert!(EngineCommand::Ignition.powers_doors());
}

#[test]
fn door_commands_round_trip_through_characteristic_and_byte() {
    for command in DOOR_COMMANDS {
        assert_eq!(
            DoorControllerCommand::from_wire(command.characteristic(), command.wire_byte()),
            Some(command)
        );
    }
    assert_eq!(DoorControllerCommand::Lock.characteristic(), DOOR_LOCK_CHAR);
    assert_eq!(DoorControllerCommand::Lock.wire_byte(), 0);
    assert_eq!(DoorControllerCommand::Unlock.wire_byte(), 1);
    assert_eq!(DoorControllerCommand::WindowLeftUp.characteristic(), DOOR_WINDOW_LEFT_CHAR);
    assert_eq!(DoorControllerCommand::WindowLeftUp.wire_byte(), 0);
    assert_eq!(DoorControllerCommand::WindowLeftDown.wire_byte(), 1);
    assert_eq!(DoorControllerCommand::WindowRightDown.characteristic(), DOOR_WINDOW_RIGHT_CHAR);
    assert_eq!(DoorControllerCommand::WindowRightUp.wire_byte(), 0);
    assert_eq!(DoorControllerCommand::WindowRightDown.wire_byte(), 1);
    assert_eq!(DoorControllerCommand::from_wire(DOOR_LOCK_CHAR, 2), None);
    assert_eq!(DoorControllerCommand::from_wire(ENGINE_STATE_CHAR, 0), None);
    assert_eq!(DoorControllerCommand::from_wire(0, 1), None);
}

#[test]
fn hold_is_short_for_the_lock_and_long_for_windows() {
    assert_eq!(DoorControllerCommand::Lock.hold_secs(), 3);
    assert_eq!(DoorControllerCommand::Unlock.hold_secs(), 3);
    assert_eq!(DoorControllerCommand::WindowLeftUp.hold_secs(), 10);
    assert_eq!(DoorControllerCommand::WindowLeftDown.hold_secs(), 10);
    assert_eq!(DoorControllerCommand::WindowRightUp.hold_secs(), 10);
    assert_eq!(DoorControllerCommand::WindowRightDown.hold_secs(), 10);
}

#[test]
fn identifiers_are_the_published_ones() {
    assert_eq!(ENGINE_SERVICE_UUID, 0x0e35_3531_5159_42a0_92ff_38e9_e49a_b7d1);
    assert_eq!(ENGINE_STATE_CHAR, 0x13d2_4b59_3d13_4ef7_98db_e174_8690_78e0);
    assert_eq!(DOOR_SERVICE_UUID, 0x5eb5_b117_5231_409e_a1ca_b768_9f48_8473);
    assert_eq!(DOOR_LOCK_CHAR, 0x446f_5ef8_e889_4098_8444_e823_31c9_2339);
    assert_eq!(DOOR_WINDOW_LEFT_CHAR, 0xb163_c9c8_b1ac_445a_8232_b7b4_62bf_6b91);
    assert_eq!(DOOR_WINDOW_RIGHT_CHAR, 0x8f73_8eee_bbb7_4cce_8b82_726a_5653_2bdc);
    assert_eq!(PeripheralKind::Starter.service(), ENGINE_SERVICE_UUID);
    assert_eq!(PeripheralKind::DoorController.service(), DOOR_SERVICE_UUID);
}

#[test]
fn commands_are_read_from_their_names() {
    let names = [
        ("lock", Command::DoorController(DoorControllerCommand::Lock)),
        ("unlock", Command::DoorController(DoorControllerCommand::Unlock)),
        ("window_left_up", Command::DoorController(DoorControllerCommand::WindowLeftUp)),
        ("window_left_down", Command::DoorController(DoorControllerCommand::WindowLeftDown)),
        ("window_right_up", Command::DoorController(DoorControllerCommand::WindowRightUp)),
        ("window_right_down", Command::DoorController(DoorControllerCommand::WindowRightDown)),
        ("off", Command::Engine(EngineCommand::Off)),
        ("radio", Command::Engine(EngineCommand::Radio)),
        ("engine", Command::Engine(EngineCommand::Engine)),
        ("ignition", Command::Engine(EngineCommand::Ignition)),
    ];
    for (name, command) in names {
        assert_eq!(Command::from_name(name), Some(command));
        assert_eq!(command.name(), name);
    }
    for name in ["", "Lock", "LOCK", "lock ", "window", "windowLeftUp", "running", "engine\0"] {
        assert_eq!(Command::from_name(name), None, "{name:?}");
    }
    assert_eq!(DoorControllerCommand::from_name("engine"), None);
    assert_eq!(EngineCommand::from_name("lock"), None);
}

#[test]
fn trim_removes_unicode_whitespace_at_both_ends() {
    assert_eq!(trim(""), "");
    assert_eq!(trim(" \t\r\n"), "");
    assert_eq!(trim("  a b  "), "a b");
    assert_eq!(trim("\u{3000}\u{85}x\u{a0}\u{2003}"), "x");
    assert_eq!(trim("\u{200b}x"), "\u{200b}x");
    assert_eq!(trim("é "), "é");
    for text in ["", " ", " a", "a ", "\n\ta\u{2028}b\u{1680}", "no space", "\u{feff}x "] {
        assert_eq!(trim(text), text.trim(), "{text:?}");
    }
}

#[test]
fn whitespace_is_the_unicode_property() {
    for code in 0..=0x3_0000u32 {
        if let Some(c) = char::from_u32(code) {
            assert_eq!(char_is_space(c), c.is_whitespace(), "{code:#x}");
        }
    }
}

#[test]
fn prefix_is_split_off_by_characters() {
    assert_eq!(strip_prefix("setup:abc", "setup:"), Some("abc"));
    assert_eq!(strip_prefix("setup:", "setup:"), Some(""));
    assert_eq!(strip_prefix("setup", "setup:"), None);
    assert_eq!(strip_prefix(" setup:abc", "setup:"), None);
    assert_eq!(strip_prefix("Setup:abc", "setup:"), None);
    assert_eq!(strip_prefix("äöü", "ä"), Some("öü"));
    assert_eq!(strip_prefix("abc", ""), Some("abc"));
    assert_eq!(strip_prefix("", "a"), None);
}

#[test]
fn same_text_compares_characters() {
    assert!(same_text("", ""));
    assert!(same_text("lock", "lock"));
    assert!(!same_text("lock", "Lock"));
    assert!(!same_text("lock", "lock "));
}

#[test]
fn command_claims_are_names_or_unit_objects() {
    assert_eq!(
        Command::from_claim("\"lock\""),
        Some(Command::DoorController(DoorControllerCommand::Lock))
    );
    assert_eq!(Command::from_claim("{\"off\":null}"), Some(Command::Engine(EngineCommand::Off)));
    for command in DOOR_COMMANDS {
        let command = Command::DoorController(command);
        assert_eq!(Command::from_claim(&format!("\"{}\"", command.name())), Some(command));
        assert_eq!(Command::from_claim(&format!("{{\"{}\":null}}", command.name())), Some(command));
    }
    for state in ENGINE_STATES {
        let command = Command::Engine(state);
        assert_eq!(Command::from_claim(&format!("\"{}\"", command.name())), Some(command));
        assert_eq!(Command::from_claim(&format!("{{\"{}\":null}}", command.name())), Some(command));
    }
    for claim in ["", "\"", "lock", "{\"lock\":nul}", "{\"lock\":null} ", "{lock:null}", "\"l\u{f6}ck\""] {
        assert_eq!(Command::from_claim(claim), None, "{claim}");
    }
}
