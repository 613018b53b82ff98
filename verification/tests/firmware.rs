use car_remote::door::{
    on_read as door_on_read, on_write as door_on_write, polarity_from_gatt, DoorWrite, Lock,
    WindowLeft, WindowRight,
};
use car_remote::gatt::{decide_bond, AttError, BondDecision, BondStoreKey, FromGattError, SerializationError};
use car_remote::key::{read_key_position, Debounced, KeyListener, Level};
use car_remote::relay::{switching_ops, Relay, RelayHandler, RelayId, RelayOp, Relays};
use car_remote::schema::{
    DoorControllerCommand, DOOR_LOCK_CHAR, DOOR_WINDOW_LEFT_CHAR, DOOR_WINDOW_RIGHT_CHAR,
    ENGINE_STATE_CHAR,
};
use car_remote::starter::{
    notifies, on_read as starter_on_read, on_write as starter_on_write, EngineState, KeyPosition,
    StarterWrite,
};
use car_remote::updater::{Chunk, ChunkPoll, StreamChunker};

use Level::{High, Low};

#[test]
fn key_position_maps_to_engine_state() {
    assert_eq!(KeyPosition::Off.as_engine_state(), EngineState::Off);
    assert_eq!(KeyPosition::Radio.as_engine_state(), EngineState::Radio);
    assert_eq!(KeyPosition::Engine.as_engine_state(), EngineState::Engine);
    assert_eq!(KeyPosition::Ignition.as_engine_state(), EngineState::Running);
}

#[test]
fn engine_state_travels_as_one_byte() {
    let states = [EngineState::Off, EngineState::Radio, EngineState::Engine, EngineState::Running];
    for (byte, state) in states.iter().enumerate() {
        assert_eq!(state.as_gatt(), [byte as u8]);
        assert_eq!(EngineState::from_gatt(&[byte as u8]), Ok(*state));
        assert_eq!(EngineState::from_gatt(&[byte as u8, 77]), Ok(*state));
    }
    assert_eq!(EngineState::from_gatt(&[]), Err(FromGattError::InvalidLength));
    assert_eq!(EngineState::from_gatt(&[4]), Err(FromGattError::InvalidCharacter));
    assert_eq!(EngineState::default(), EngineState::Off);
    assert!(EngineState::Off < EngineState::Running);
}

#[test]
fn starter_takes_writes_over_encrypted_connections_only() {
    assert_eq!(
        starter_on_write(false, ENGINE_STATE_CHAR, &[2]),
        StarterWrite::Reject(AttError::InsufficientEncryption)
    );
    assert_eq!(
        starter_on_write(false, 5, &[]),
        StarterWrite::Reject(AttError::InsufficientEncryption)
    );
    assert_eq!(starter_on_write(true, ENGINE_STATE_CHAR, &[2]), StarterWrite::Request(EngineState::Engine));
    assert_eq!(starter_on_write(true, ENGINE_STATE_CHAR, &[3]), StarterWrite::Request(EngineState::Running));
    assert_eq!(
        starter_on_write(true, ENGINE_STATE_CHAR, &[9]),
        StarterWrite::Reject(AttError::ValueNotAllowed)
    );
    assert_eq!(
        starter_on_write(true, ENGINE_STATE_CHAR, &[]),
        StarterWrite::Reject(AttError::ValueNotAllowed)
    );
    assert_eq!(starter_on_write(true, DOOR_LOCK_CHAR, &[1]), StarterWrite::Ignore);
    assert_eq!(starter_on_read(true), None);
    assert_eq!(starter_on_read(false), Some(AttError::InsufficientEncryption));
    assert!(notifies(true));
    assert!(!notifies(false));
}

#[test]
fn door_values_are_one_polarity_byte() {
    assert_eq!(Lock::Lock.as_gatt(), [0]);
    assert_eq!(Lock::Unlock.as_gatt(), [1]);
    assert_eq!(WindowLeft::Up.as_gatt(), [0]);
    assert_eq!(WindowLeft::Down.as_gatt(), [1]);
    assert_eq!(WindowRight::Up.as_gatt(), [0]);
    assert_eq!(WindowRight::Down.as_gatt(), [1]);
    assert_eq!(Lock::from_gatt(&[0]), Ok(Lock::Lock));
    assert_eq!(Lock::from_gatt(&[1, 2]), Ok(Lock::Unlock));
    assert_eq!(Lock::from_gatt(&[2]), Err(FromGattError::InvalidCharacter));
    assert_eq!(Lock::from_gatt(&[]), Err(FromGattError::InvalidLength));
    assert_eq!(WindowLeft::from_gatt(&[0]), Ok(WindowLeft::Up));
    assert_eq!(WindowLeft::from_gatt(&[1]), Ok(WindowLeft::Down));
    assert_eq!(WindowLeft::from_gatt(&[255]), Err(FromGattError::InvalidCharacter));
    assert_eq!(WindowRight::from_gatt(&[0]), Ok(WindowRight::Up));
    assert_eq!(WindowRight::from_gatt(&[1]), Ok(WindowRight::Down));
    assert_eq!(WindowRight::from_gatt(&[]), Err(FromGattError::InvalidLength));
    assert_eq!(polarity_from_gatt(&[1]), Ok(1));
    assert_eq!(Lock::default(), Lock::Lock);
    assert_eq!(WindowLeft::default(), WindowLeft::Up);
    assert_eq!(WindowRight::default(), WindowRight::Up);
    assert_eq!(Lock::Unlock.command(), DoorControllerCommand::Unlock);
    assert_eq!(WindowLeft::Down.command(), DoorControllerCommand::WindowLeftDown);
    assert_eq!(WindowRight::Up.command(), DoorControllerCommand::WindowRightUp);
}

#[test]
fn door_controller_carries_out_what_the_gateway_writes() {
    let commands = [
        DoorControllerCommand::Lock,
        DoorControllerCommand::Unlock,
        DoorControllerCommand::WindowLeftUp,
        DoorControllerCommand::WindowLeftDown,
        DoorControllerCommand::WindowRightUp,
        DoorControllerCommand::WindowRightDown,
    ];
    for command in commands {
        let data = [command.wire_byte()];
        assert_eq!(
            door_on_write(true, command.characteristic(), &data),
            DoorWrite::Operate(command)
        );
        assert_eq!(
            door_on_write(false, command.characteristic(), &data),
            DoorWrite::Reject(AttError::InsufficientEncryption)
        );
        assert_eq!(
            door_on_write(true, command.characteristic(), &[2]),
            DoorWrite::Reject(AttError::ValueNotAllowed)
        );
        assert_eq!(
            door_on_write(true, command.characteristic(), &[]),
            DoorWrite::Reject(AttError::ValueNotAllowed)
        );
        assert_eq!(
            door_on_read(true, command.characteristic()),
            Some(AttError::WriteRequestRejected)
        );
    }
    assert_eq!(door_on_write(true, ENGINE_STATE_CHAR, &[0]), DoorWrite::Ignore);
    assert_eq!(door_on_read(true, ENGINE_STATE_CHAR), None);
    for characteristic in [DOOR_LOCK_CHAR, DOOR_WINDOW_LEFT_CHAR, DOOR_WINDOW_RIGHT_CHAR, 1] {
        assert_eq!(door_on_read(false, characteristic), Some(AttError::InsufficientEncryption));
    }
}

#[test]
fn first_bond_is_the_only_one() {
    assert_eq!(decide_bond(false, true), BondDecision::Adopt { persist: true });
    assert_eq!(decide_bond(false, false), BondDecision::Adopt { persist: false });
    assert_eq!(decide_bond(true, true), BondDecision::Refuse);
    assert_eq!(decide_bond(true, false), BondDecision::Refuse);
}

#[test]
fn bond_record_begins_with_its_name() {
    assert_eq!(BondStoreKey::get_len(), 4);
    assert_eq!(BondStoreKey::deserialize_from(b"BOND"), Ok((BondStoreKey, 4)));
    assert_eq!(BondStoreKey::deserialize_from(b"BONDxyz"), Ok((BondStoreKey, 4)));
    for record in [&b""[..], b"BON", b"bond", b"XBOND", b"BONE!"] {
        assert_eq!(BondStoreKey::deserialize_from(record), Err(SerializationError::InvalidData));
    }
}

#[test]
fn contacts_give_the_key_position() {
    assert_eq!(read_key_position(Low, Low, Low), KeyPosition::Off);
    assert_eq!(read_key_position(High, Low, Low), KeyPosition::Radio);
    assert_eq!(read_key_position(Low, High, Low), KeyPosition::Engine);
    assert_eq!(read_key_position(High, High, Low), KeyPosition::Engine);
    for radio in [Low, High] {
        for engine in [Low, High] {
            assert_eq!(read_key_position(radio, engine, High), KeyPosition::Ignition);
        }
    }
}

#[test]
fn level_is_stable_after_threshold_equal_samples() {
    let mut input = Debounced::new(3);
    assert_eq!(input.sample(Low), None);
    assert_eq!(input.sample(Low), None);
    assert_eq!(input.sample(Low), Some(Low));
    // The count starts again after a report.
    assert_eq!(input.sample(Low), None);
    assert_eq!(input.sample(High), None);
    assert_eq!(input.sample(High), None);
    assert_eq!(input.sample(High), None);
    assert_eq!(input.sample(High), Some(High));
    // A bounce starts the count again.
    assert_eq!(input.sample(High), None);
    assert_eq!(input.sample(Low), None);
    assert_eq!(input.sample(High), None);
    assert_eq!(input.sample(High), None);
    assert_eq!(input.sample(High), None);
    assert_eq!(input.sample(High), Some(High));
}

#[test]
fn debounce_thresholds_at_the_edges() {
    let mut input = Debounced::new(0);
    assert_eq!(input.sample(Low), Some(Low));
    assert_eq!(input.sample(High), None);
    assert_eq!(input.sample(High), Some(High));
    let mut input = Debounced::new(1);
    assert_eq!(input.sample(Low), Some(Low));
    let mut input = Debounced::new(255);
    for _ in 0..254 {
        assert_eq!(input.sample(Low), None);
    }
    assert_eq!(input.sample(Low), Some(Low));
    let mut input = Debounced::new(20);
    for _ in 0..19 {
        assert_eq!(input.sample(Low), None);
    }
    assert_eq!(input.sample(Low), Some(Low));
}

fn levels(position: KeyPosition) -> (Level, Level, Level) {
    match position {
        KeyPosition::Off => (Low, Low, Low),
        KeyPosition::Radio => (High, Low, Low),
        KeyPosition::Engine => (High, High, Low),
        KeyPosition::Ignition => (High, High, High),
    }
}

fn turn(listener: &mut KeyListener, position: KeyPosition) -> Option<KeyPosition> {
    let (radio, engine, ignition) = levels(position);
    listener.observe(radio, engine, ignition)
}

#[test]
fn key_turned_up_and_down_is_signalled_step_by_step() {
    let mut listener = KeyListener::new();
    assert_eq!(turn(&mut listener, KeyPosition::Off), None);
    assert_eq!(turn(&mut listener, KeyPosition::Radio), Some(KeyPosition::Radio));
    assert_eq!(turn(&mut listener, KeyPosition::Radio), None);
    assert_eq!(turn(&mut listener, KeyPosition::Engine), Some(KeyPosition::Engine));
    assert_eq!(turn(&mut listener, KeyPosition::Ignition), Some(KeyPosition::Ignition));
    assert_eq!(turn(&mut listener, KeyPosition::Engine), Some(KeyPosition::Engine));
    assert_eq!(turn(&mut listener, KeyPosition::Radio), Some(KeyPosition::Radio));
    assert_eq!(turn(&mut listener, KeyPosition::Off), Some(KeyPosition::Off));
}

#[test]
fn gap_between_engine_and_ignition_is_filtered_out() {
    let mut listener = KeyListener::new();
    turn(&mut listener, KeyPosition::Engine);
    assert_eq!(turn(&mut listener, KeyPosition::Ignition), Some(KeyPosition::Ignition));
    // From ignition the contacts show nothing for a moment.
    assert_eq!(turn(&mut listener, KeyPosition::Off), Some(KeyPosition::Engine));
    assert_eq!(turn(&mut listener, KeyPosition::Engine), None);
}

#[test]
fn fourth_jump_from_engine_to_off_is_believed() {
    let mut listener = KeyListener::new();
    assert_eq!(turn(&mut listener, KeyPosition::Engine), Some(KeyPosition::Engine));
    for _ in 0..3 {
        assert_eq!(turn(&mut listener, KeyPosition::Off), None);
    }
    assert_eq!(turn(&mut listener, KeyPosition::Off), Some(KeyPosition::Off));
    // The count has started again.
    assert_eq!(turn(&mut listener, KeyPosition::Engine), Some(KeyPosition::Engine));
    for _ in 0..3 {
        assert_eq!(turn(&mut listener, KeyPosition::Off), None);
    }
    assert_eq!(turn(&mut listener, KeyPosition::Off), Some(KeyPosition::Off));
}

#[test]
fn fast_turns_that_skip_a_position_are_believed() {
    let mut listener = KeyListener::new();
    assert_eq!(turn(&mut listener, KeyPosition::Ignition), Some(KeyPosition::Ignition));
    assert_eq!(turn(&mut listener, KeyPosition::Radio), Some(KeyPosition::Radio));
    assert_eq!(turn(&mut listener, KeyPosition::Ignition), Some(KeyPosition::Ignition));
    let mut listener = KeyListener::new();
    assert_eq!(turn(&mut listener, KeyPosition::Engine), Some(KeyPosition::Engine));
    assert_eq!(turn(&mut listener, KeyPosition::Radio), Some(KeyPosition::Radio));
    assert_eq!(turn(&mut listener, KeyPosition::Off), Some(KeyPosition::Off));
}

use RelayId::{Engine, EngineConsumers, Ignition, Radio};
use RelayOp::{Power, Unpower, Wait};

#[test]
fn relays_are_switched_in_order() {
    assert_eq!(
        switching_ops(EngineState::Off, false),
        vec![Unpower(Ignition), Unpower(Engine), Unpower(EngineConsumers), Unpower(Radio), Wait(2)]
    );
    assert_eq!(
        switching_ops(EngineState::Radio, false),
        vec![Unpower(Ignition), Unpower(Engine), Unpower(EngineConsumers), Power(Radio), Wait(2)]
    );
    assert_eq!(
        switching_ops(EngineState::Engine, true),
        vec![Unpower(Ignition), Power(Radio), Power(Engine), Power(EngineConsumers), Wait(0)]
    );
    assert_eq!(
        switching_ops(EngineState::Running, false),
        vec![
            Unpower(Ignition),
            Unpower(Engine),
            Unpower(EngineConsumers),
            Unpower(Radio),
            Wait(2),
            Power(Radio),
            Power(Engine),
            Power(Ignition),
            Wait(1),
            Unpower(Ignition),
            Power(EngineConsumers),
        ]
    );
    assert_eq!(
        switching_ops(EngineState::Running, true),
        vec![
            Unpower(Ignition),
            Unpower(Engine),
            Unpower(EngineConsumers),
            Unpower(Radio),
            Wait(0),
            Power(Radio),
            Power(Engine),
            Power(Ignition),
        ]
    );
}

#[test]
fn relays_show_the_state_they_were_brought_into() {
    for skip_cooldown in [false, true] {
        let mut handler = RelayHandler::new();
        assert_eq!(handler.state(), EngineState::Off);
        for state in [
            EngineState::Running,
            EngineState::Radio,
            EngineState::Engine,
            EngineState::Off,
            EngineState::Engine,
            EngineState::Running,
            EngineState::Off,
        ] {
            assert_eq!(handler.set_state(state, skip_cooldown), switching_ops(state, skip_cooldown));
            assert_eq!(handler.state(), state);
            assert_eq!(handler.current_state(), state);
        }
    }
}

#[test]
fn request_counts_only_while_the_key_is_off() {
    let mut handler = RelayHandler::new();
    assert_eq!(
        handler.on_ble_request(EngineState::Engine),
        Some(switching_ops(EngineState::Engine, false))
    );
    assert_eq!(handler.state(), EngineState::Engine);
    assert_eq!(
        handler.on_key_position(KeyPosition::Engine),
        Some(switching_ops(EngineState::Engine, true))
    );
    assert_eq!(handler.on_ble_request(EngineState::Off), None);
    assert_eq!(handler.state(), EngineState::Engine);
    assert_eq!(
        handler.on_key_position(KeyPosition::Off),
        Some(switching_ops(EngineState::Off, true))
    );
    assert_eq!(
        handler.on_ble_request(EngineState::Running),
        Some(switching_ops(EngineState::Running, false))
    );
    assert_eq!(handler.state(), EngineState::Running);
}

#[test]
fn key_back_to_radio_does_not_stop_a_requested_engine() {
    let mut handler = RelayHandler::new();
    handler.on_ble_request(EngineState::Running);
    // The owner gets in and turns the key to take over.
    assert_eq!(handler.on_key_position(KeyPosition::Radio), None);
    assert_eq!(handler.state(), EngineState::Running);
    // The key now overrules requests.
    assert_eq!(handler.on_ble_request(EngineState::Off), None);
    assert_eq!(
        handler.on_key_position(KeyPosition::Engine),
        Some(switching_ops(EngineState::Engine, true))
    );
    assert_eq!(handler.state(), EngineState::Engine);
    // Set by the key, so the key back at radio is obeyed.
    assert_eq!(
        handler.on_key_position(KeyPosition::Radio),
        Some(switching_ops(EngineState::Radio, true))
    );
    assert_eq!(handler.state(), EngineState::Radio);
}

#[test]
fn key_at_radio_is_obeyed_when_the_request_was_for_less() {
    let mut handler = RelayHandler::new();
    handler.on_ble_request(EngineState::Radio);
    assert_eq!(
        handler.on_key_position(KeyPosition::Radio),
        Some(switching_ops(EngineState::Radio, true))
    );
    let mut handler = RelayHandler::new();
    handler.on_ble_request(EngineState::Engine);
    assert_eq!(
        handler.on_key_position(KeyPosition::Ignition),
        Some(switching_ops(EngineState::Running, true))
    );
    assert_eq!(handler.state(), EngineState::Running);
}

#[test]
fn every_fourth_poll_yields_nothing() {
    let mut stream = StreamChunker::new();
    let polls: Vec<ChunkPoll> = (0..9).map(|_| stream.poll()).collect();
    let read = ChunkPoll::Read;
    let pending = ChunkPoll::Pending;
    assert_eq!(polls, vec![read, read, read, pending, read, read, read, pending, read]);
}

#[test]
fn reads_are_counted_and_no_bytes_end_the_stream() {
    let mut stream = StreamChunker::new();
    assert_eq!(stream.record_read(1024), Chunk::Data(1024));
    assert_eq!(stream.record_read(17), Chunk::Data(17));
    assert_eq!(stream.total_read(), 1041);
    assert_eq!(stream.record_read(0), Chunk::End);
    assert_eq!(stream.total_read(), 1041);
}

#[test]
fn relay_is_powered_or_not() {
    let mut relay = Relay { powered: false };
    assert!(relay.is_unpowered());
    assert!(!relay.is_powered());
    relay.power();
    assert!(relay.is_powered());
    assert!(!relay.is_unpowered());
    relay.unpower();
    assert!(relay.is_unpowered());
}

#[test]
fn relays_hang_on_their_pins() {
    assert_eq!(Radio.pin(), 10);
    assert_eq!(Engine.pin(), 21);
    assert_eq!(EngineConsumers.pin(), 7);
    assert_eq!(Ignition.pin(), 20);
}

#[test]
fn performing_the_switching_settles_the_relays() {
    let all_on = Relays { radio: true, engine: true, engine_consumers: true, ignition: true };
    let all_off = Relays { radio: false, engine: false, engine_consumers: false, ignition: false };
    for start in [all_on, all_off] {
        for (state, skip_cooldown, radio, engine, engine_consumers, ignition) in [
            (EngineState::Off, false, false, false, false, false),
            (EngineState::Radio, false, true, false, false, false),
            (EngineState::Engine, false, true, true, true, false),
            (EngineState::Running, false, true, true, true, false),
            (EngineState::Running, true, true, true, false, true),
        ] {
            let mut relays = start;
            for op in switching_ops(state, skip_cooldown) {
                relays.perform(op);
            }
            assert_eq!(relays, Relays { radio, engine, engine_consumers, ignition });
            assert_eq!(relays.relay(Ignition).is_powered(), ignition);
            assert_eq!(relays.relay(Radio).is_powered(), radio);
        }
    }
}
