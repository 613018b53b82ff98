use car_remote::link::{
    classify_services, Discovery, LinkEvent, LinkStep, Observation, Reconnect,
};
use car_remote::schema::{
    Command, DecodeError, DoorControllerCommand, EngineCommand, PeripheralKind, DOOR_LOCK_CHAR,
    DOOR_SERVICE_UUID, DOOR_WINDOW_LEFT_CHAR, DOOR_WINDOW_RIGHT_CHAR, ENGINE_SERVICE_UUID,
    ENGINE_STATE_CHAR,
};
use car_remote::session::{
    decode_engine_state, EngineStateCache, Notification, PeripheralSession, Sessions, WriteError,
    WriteRequest,
};

const STARTER_ADDRESS: u64 = 0x94f1_a077_4b6e;
const DOOR_ADDRESS: u64 = 0xb798_494e_0d17;

fn starter() -> PeripheralSession {
    PeripheralSession::new(STARTER_ADDRESS, vec![ENGINE_STATE_CHAR])
}

fn door() -> PeripheralSession {
    PeripheralSession::new(
        DOOR_ADDRESS,
        vec![DOOR_LOCK_CHAR, DOOR_WINDOW_LEFT_CHAR, DOOR_WINDOW_RIGHT_CHAR],
    )
}

fn both() -> Sessions {
    let mut sessions = Sessions::new();
    assert!(sessions.bind(PeripheralKind::Starter, starter()));
    assert!(sessions.bind(PeripheralKind::DoorController, door()));
    sessions
}

#[test]
fn first_peripheral_keeps_its_slot() {
    let mut sessions = Sessions::new();
    assert!(!sessions.is_bound(PeripheralKind::Starter));
    assert!(sessions.bind(PeripheralKind::Starter, starter()));
    assert!(!sessions.bind(PeripheralKind::Starter, PeripheralSession::new(7, vec![])));
    assert_eq!(sessions.address(PeripheralKind::Starter), Some(STARTER_ADDRESS));
    assert_eq!(sessions.address(PeripheralKind::DoorController), None);
    assert!(sessions.holds(STARTER_ADDRESS));
    assert!(!sessions.holds(7));
}

#[test]
fn replace_changes_one_slot() {
    let mut sessions = both();
    sessions.replace(PeripheralKind::Starter, PeripheralSession::new(9, vec![1, 2]));
    assert_eq!(sessions.address(PeripheralKind::Starter), Some(9));
    assert_eq!(sessions.address(PeripheralKind::DoorController), Some(DOOR_ADDRESS));
    let mut sessions = Sessions::new();
    sessions.replace(PeripheralKind::DoorController, door());
    assert!(sessions.is_bound(PeripheralKind::DoorController));
    assert!(!sessions.is_bound(PeripheralKind::Starter));
}

#[test]
fn commands_resolve_to_their_characteristic_and_byte() {
    let sessions = both();
    let cases = [
        (Command::Engine(EngineCommand::Off), PeripheralKind::Starter, ENGINE_STATE_CHAR, 0),
        (Command::Engine(EngineCommand::Radio), PeripheralKind::Starter, ENGINE_STATE_CHAR, 1),
        (Command::Engine(EngineCommand::Engine), PeripheralKind::Starter, ENGINE_STATE_CHAR, 2),
        (Command::Engine(EngineCommand::Ignition), PeripheralKind::Starter, ENGINE_STATE_CHAR, 3),
        (
            Command::DoorController(DoorControllerCommand::Lock),
            PeripheralKind::DoorController,
            DOOR_LOCK_CHAR,
            0,
        ),
        (
            Command::DoorController(DoorControllerCommand::Unlock),
            PeripheralKind::DoorController,
            DOOR_LOCK_CHAR,
            1,
        ),
        (
            Command::DoorController(DoorControllerCommand::WindowLeftUp),
            PeripheralKind::DoorController,
            DOOR_WINDOW_LEFT_CHAR,
            0,
        ),
        (
            Command::DoorController(DoorControllerCommand::WindowLeftDown),
            PeripheralKind::DoorController,
            DOOR_WINDOW_LEFT_CHAR,
            1,
        ),
        (
            Command::DoorController(DoorControllerCommand::WindowRightUp),
            PeripheralKind::DoorController,
            DOOR_WINDOW_RIGHT_CHAR,
            0,
        ),
        (
            Command::DoorController(DoorControllerCommand::WindowRightDown),
            PeripheralKind::DoorController,
            DOOR_WINDOW_RIGHT_CHAR,
            1,
        ),
    ];
    for (command, peripheral, characteristic, value) in cases {
        assert_eq!(
            sessions.plan_write(command),
            Ok(WriteRequest { peripheral, characteristic, value })
        );
        assert_eq!(command.peripheral(), peripheral);
        assert_eq!(command.characteristic(), characteristic);
        assert_eq!(command.wire_byte(), value);
    }
}

#[test]
fn empty_slot_and_missing_characteristic_are_different_errors() {
    let mut sessions = Sessions::new();
    assert_eq!(
        sessions.plan_write(Command::Engine(EngineCommand::Engine)),
        Err(WriteError::NoSession(PeripheralKind::Starter))
    );
    assert_eq!(
        sessions.plan_write(Command::DoorController(DoorControllerCommand::Lock)),
        Err(WriteError::NoSession(PeripheralKind::DoorController))
    );
    sessions.bind(PeripheralKind::Starter, PeripheralSession::new(1, vec![DOOR_LOCK_CHAR]));
    sessions.bind(
        PeripheralKind::DoorController,
        PeripheralSession::new(2, vec![DOOR_LOCK_CHAR, ENGINE_STATE_CHAR]),
    );
    assert_eq!(
        sessions.plan_write(Command::Engine(EngineCommand::Engine)),
        Err(WriteError::MissingCharacteristic {
            peripheral: PeripheralKind::Starter,
            characteristic: ENGINE_STATE_CHAR
        })
    );
    assert_eq!(
        sessions.plan_write(Command::DoorController(DoorControllerCommand::WindowLeftUp)),
        Err(WriteError::MissingCharacteristic {
            peripheral: PeripheralKind::DoorController,
            characteristic: DOOR_WINDOW_LEFT_CHAR
        })
    );
    assert!(sessions.plan_write(Command::DoorController(DoorControllerCommand::Unlock)).is_ok());
}

#[test]
fn only_a_lost_starter_is_reconnected_at_once() {
    let sessions = both();
    assert!(sessions.reconnect_on_disconnect(STARTER_ADDRESS));
    assert!(!sessions.reconnect_on_disconnect(DOOR_ADDRESS));
    assert!(!sessions.reconnect_on_disconnect(1));
    assert!(!Sessions::new().reconnect_on_disconnect(STARTER_ADDRESS));
}

#[test]
fn notification_payload_decodes_by_its_first_byte() {
    assert_eq!(decode_engine_state(&[]), Err(DecodeError::Empty));
    assert_eq!(decode_engine_state(&[0]), Ok(EngineCommand::Off));
    assert_eq!(decode_engine_state(&[1]), Ok(EngineCommand::Radio));
    assert_eq!(decode_engine_state(&[2]), Ok(EngineCommand::Engine));
    assert_eq!(decode_engine_state(&[3]), Ok(EngineCommand::Ignition));
    assert_eq!(decode_engine_state(&[3, 200]), Ok(EngineCommand::Ignition));
    assert_eq!(decode_engine_state(&[4]), Err(DecodeError::InvalidByte(4)));
    assert_eq!(decode_engine_state(&[255, 0]), Err(DecodeError::InvalidByte(255)));
}

#[test]
fn cache_follows_valid_notifications_only() {
    let mut cache = EngineStateCache::new();
    assert_eq!(cache.get(), EngineCommand::Off);
    assert_eq!(
        cache.apply_notification(ENGINE_STATE_CHAR, &[2]),
        Notification::Updated(EngineCommand::Engine)
    );
    assert_eq!(cache.get(), EngineCommand::Engine);
    assert_eq!(
        cache.apply_notification(ENGINE_STATE_CHAR, &[9]),
        Notification::Invalid(DecodeError::InvalidByte(9))
    );
    assert_eq!(cache.get(), EngineCommand::Engine);
    assert_eq!(
        cache.apply_notification(ENGINE_STATE_CHAR, &[]),
        Notification::Invalid(DecodeError::Empty)
    );
    assert_eq!(cache.apply_notification(DOOR_LOCK_CHAR, &[1]), Notification::Ignored);
    assert_eq!(cache.get(), EngineCommand::Engine);
    assert_eq!(
        cache.apply_notification(ENGINE_STATE_CHAR, &[1]),
        Notification::Updated(EngineCommand::Radio)
    );
    assert_eq!(cache.get(), EngineCommand::Radio);
}

#[test]
fn backoff_grows_by_three_up_to_thirty() {
    let mut discovery = Discovery::new();
    let waits: Vec<u64> = (0..13).map(|_| discovery.next_wait()).collect();
    assert_eq!(waits, vec![3, 6, 9, 12, 15, 18, 21, 24, 27, 30, 30, 30, 30]);
}

#[test]
fn scan_filters_by_both_services() {
    assert_eq!(Discovery::scan_filter(), [DOOR_SERVICE_UUID, ENGINE_SERVICE_UUID]);
}

#[test]
fn services_classify_by_the_first_wanted_one() {
    let both = [7, DOOR_SERVICE_UUID, ENGINE_SERVICE_UUID];
    assert_eq!(classify_services(&both, false, false), Some(PeripheralKind::DoorController));
    assert_eq!(classify_services(&both, false, true), Some(PeripheralKind::Starter));
    assert_eq!(classify_services(&both, true, false), Some(PeripheralKind::DoorController));
    assert_eq!(classify_services(&both, true, true), None);
    assert_eq!(classify_services(&[], false, false), None);
    assert_eq!(classify_services(&[1, 2, 3], false, false), None);
    assert_eq!(classify_services(&[ENGINE_SERVICE_UUID], false, false), Some(PeripheralKind::Starter));
    assert_eq!(classify_services(&[ENGINE_SERVICE_UUID], true, false), None);
}

#[test]
fn discovery_binds_one_peripheral_of_each_kind() {
    let mut discovery = Discovery::new();
    let mut sessions = Sessions::new();
    assert!(discovery.wants(&sessions, STARTER_ADDRESS));
    assert_eq!(
        discovery.observe(&mut sessions, PeripheralSession::new(5, vec![]), &[1, 2]),
        Observation::Unmatched
    );
    assert_eq!(
        discovery.observe(&mut sessions, starter(), &[ENGINE_SERVICE_UUID]),
        Observation::Bound(PeripheralKind::Starter)
    );
    assert!(!discovery.is_complete());
    assert!(!discovery.wants(&sessions, STARTER_ADDRESS));
    assert!(discovery.wants(&sessions, DOOR_ADDRESS));
    // A second starter is passed over: its kind is no longer wanted.
    assert_eq!(
        discovery.observe(&mut sessions, PeripheralSession::new(6, vec![]), &[ENGINE_SERVICE_UUID]),
        Observation::Unmatched
    );
    assert_eq!(sessions.address(PeripheralKind::Starter), Some(STARTER_ADDRESS));
    assert_eq!(
        discovery.observe(&mut sessions, door(), &[DOOR_SERVICE_UUID]),
        Observation::Bound(PeripheralKind::DoorController)
    );
    assert!(discovery.is_complete());
    assert!(!discovery.wants(&sessions, 99));
    assert_eq!(sessions, both());
}

#[test]
fn discovery_turns_away_a_match_for_a_filled_slot() {
    let mut sessions = Sessions::new();
    sessions.bind(PeripheralKind::Starter, starter());
    let mut discovery = Discovery::new();
    assert_eq!(
        discovery.observe(&mut sessions, PeripheralSession::new(6, vec![]), &[ENGINE_SERVICE_UUID]),
        Observation::SlotTaken(PeripheralKind::Starter)
    );
    assert_eq!(sessions.address(PeripheralKind::Starter), Some(STARTER_ADDRESS));
    assert!(!discovery.is_complete());
    assert_eq!(
        discovery.observe(&mut sessions, door(), &[DOOR_SERVICE_UUID]),
        Observation::Bound(PeripheralKind::DoorController)
    );
    assert!(discovery.is_complete());
}

#[test]
fn connected_session_needs_no_connect() {
    let sessions = both();
    let run = Reconnect::begin(&sessions, PeripheralKind::DoorController, true);
    assert_eq!(run.pending(), LinkStep::Done(true));
    assert_eq!(run.outcome(), Some(true));
}

#[test]
fn empty_slot_cannot_be_reconnected() {
    let mut sessions = Sessions::new();
    for connected in [false, true] {
        let mut run = Reconnect::begin(&sessions, PeripheralKind::Starter, connected);
        assert_eq!(run.pending(), LinkStep::Done(false));
        assert_eq!(run.advance(&mut sessions, LinkEvent::Recreated(true)), LinkStep::Done(false));
    }
    assert_eq!(sessions, Sessions::new());
}

#[test]
fn reconnect_recreates_connects_and_rebinds() {
    let mut sessions = both();
    let mut run = Reconnect::begin(&sessions, PeripheralKind::Starter, false);
    assert_eq!(run.pending(), LinkStep::Recreate(STARTER_ADDRESS));
    assert_eq!(run.outcome(), None);
    assert_eq!(run.advance(&mut sessions, LinkEvent::Recreated(true)), LinkStep::Connect);
    assert_eq!(run.advance(&mut sessions, LinkEvent::Connected(false)), LinkStep::Wait(1));
    assert_eq!(run.advance(&mut sessions, LinkEvent::Waited), LinkStep::Connect);
    assert_eq!(run.advance(&mut sessions, LinkEvent::Connected(true)), LinkStep::Discover);
    // Until the services were looked for the slot is as it was.
    assert_eq!(sessions, both());
    assert_eq!(
        run.advance(&mut sessions, LinkEvent::Discovered(vec![ENGINE_STATE_CHAR, 5])),
        LinkStep::Done(true)
    );
    assert_eq!(run.outcome(), Some(true));
    let mut expected = both();
    expected.replace(
        PeripheralKind::Starter,
        PeripheralSession::new(STARTER_ADDRESS, vec![ENGINE_STATE_CHAR, 5]),
    );
    assert_eq!(sessions, expected);
}

// Answers every connect with a failure and counts the connects.
fn fail_every_connect(run: &mut Reconnect, sessions: &mut Sessions) -> u32 {
    let mut step = run.advance(sessions, LinkEvent::Recreated(true));
    let mut connects = 0;
    let mut waits = 0;
    loop {
        step = match step {
            LinkStep::Connect => {
                connects += 1;
                run.advance(sessions, LinkEvent::Connected(false))
            }
            LinkStep::Wait(secs) => {
                assert_eq!(secs, 1);
                waits += 1;
                run.advance(sessions, LinkEvent::Waited)
            }
            LinkStep::Done(connected) => {
                assert!(!connected);
                break;
            }
            other => panic!("unexpected {other:?}"),
        };
        assert!(connects <= 10);
    }
    assert_eq!(waits, connects);
    connects
}

#[test]
fn reconnect_gives_up_after_ten_connects() {
    let mut sessions = both();
    let mut run = Reconnect::begin(&sessions, PeripheralKind::DoorController, false);
    assert_eq!(fail_every_connect(&mut run, &mut sessions), 10);
    assert_eq!(run.outcome(), Some(false));
    assert_eq!(run.advance(&mut sessions, LinkEvent::Connected(true)), LinkStep::Done(false));
    // Nothing was lost: both slots are as they were.
    assert_eq!(sessions, both());
}

#[test]
fn peripheral_can_be_brought_back_after_a_run_gave_up() {
    let mut sessions = both();
    let mut run = Reconnect::begin(&sessions, PeripheralKind::DoorController, false);
    assert_eq!(fail_every_connect(&mut run, &mut sessions), 10);
    assert_eq!(sessions.address(PeripheralKind::DoorController), Some(DOOR_ADDRESS));

    // The door controller has power again: the next run starts over with
    // the same address, and this time the first connect succeeds.
    let mut run = Reconnect::begin(&sessions, PeripheralKind::DoorController, false);
    assert_eq!(run.pending(), LinkStep::Recreate(DOOR_ADDRESS));
    assert_eq!(run.advance(&mut sessions, LinkEvent::Recreated(true)), LinkStep::Connect);
    assert_eq!(run.advance(&mut sessions, LinkEvent::Connected(true)), LinkStep::Discover);
    assert_eq!(
        run.advance(&mut sessions, LinkEvent::Discovered(vec![DOOR_LOCK_CHAR])),
        LinkStep::Done(true)
    );
    assert_eq!(sessions.address(PeripheralKind::DoorController), Some(DOOR_ADDRESS));
    assert!(sessions
        .plan_write(Command::DoorController(DoorControllerCommand::Lock))
        .is_ok());

    // And a second run after that gives up in its turn keeps it as well.
    let mut run = Reconnect::begin(&sessions, PeripheralKind::DoorController, false);
    assert_eq!(fail_every_connect(&mut run, &mut sessions), 10);
    let run = Reconnect::begin(&sessions, PeripheralKind::DoorController, false);
    assert_eq!(run.pending(), LinkStep::Recreate(DOOR_ADDRESS));
}

#[test]
fn reconnect_ends_when_no_handle_can_be_made() {
    let mut sessions = both();
    let mut run = Reconnect::begin(&sessions, PeripheralKind::Starter, false);
    assert_eq!(run.advance(&mut sessions, LinkEvent::Recreated(false)), LinkStep::Done(false));
    assert_eq!(sessions, both());
    let run = Reconnect::begin(&sessions, PeripheralKind::Starter, false);
    assert_eq!(run.pending(), LinkStep::Recreate(STARTER_ADDRESS));
}

#[test]
fn reconnect_ends_on_an_event_out_of_order() {
    let mut sessions = both();
    let mut run = Reconnect::begin(&sessions, PeripheralKind::Starter, false);
    assert_eq!(run.advance(&mut sessions, LinkEvent::Connected(true)), LinkStep::Done(false));
    let mut run = Reconnect::begin(&sessions, PeripheralKind::DoorController, false);
    run.advance(&mut sessions, LinkEvent::Recreated(true));
    assert_eq!(
        run.advance(&mut sessions, LinkEvent::Discovered(vec![DOOR_LOCK_CHAR])),
        LinkStep::Done(false)
    );
    assert_eq!(sessions, both());
}
