use car_remote::schema::{Command, DoorControllerCommand, EngineCommand};
use car_remote::sequencer::{Saga, SagaEvent, SagaFailure, SagaStep};

// Runs a saga in which the bus takes every command, and collects the steps.
fn run(cached: EngineCommand, request: DoorControllerCommand, connected: bool) -> Vec<SagaStep> {
    let mut saga = Saga::start(cached, request);
    let mut steps = vec![saga.pending()];
    while saga.outcome().is_none() {
        let event = match saga.pending() {
            SagaStep::Push(_) => SagaEvent::Pushed(true),
            SagaStep::EnsureConnected => SagaEvent::Connection(connected),
            SagaStep::Hold(_) => SagaEvent::HoldElapsed,
            SagaStep::Done(_) => unreachable!(),
        };
        steps.push(saga.advance(event));
        assert!(steps.len() < 10);
    }
    steps
}

fn bus(steps: &[SagaStep]) -> Vec<Command> {
    steps
        .iter()
        .filter_map(|step| match step {
            SagaStep::Push(command) => Some(*command),
            _ => None,
        })
        .collect()
}

#[test]
fn lock_from_radio_raises_operates_holds_and_restores() {
    let steps = run(EngineCommand::Radio, DoorControllerCommand::Lock, true);
    assert_eq!(
        steps,
        vec![
            SagaStep::Push(Command::Engine(EngineCommand::Engine)),
            SagaStep::EnsureConnected,
            SagaStep::Push(Command::DoorController(DoorControllerCommand::Lock)),
            SagaStep::Hold(3),
            SagaStep::Push(Command::Engine(EngineCommand::Radio)),
            SagaStep::Done(Ok(())),
        ]
    );
    assert_eq!(
        bus(&steps),
        vec![
            Command::Engine(EngineCommand::Engine),
            Command::DoorController(DoorControllerCommand::Lock),
            Command::Engine(EngineCommand::Radio),
        ]
    );
}

#[test]
fn unlock_with_engine_on_neither_raises_nor_restores() {
    let steps = run(EngineCommand::Engine, DoorControllerCommand::Unlock, true);
    assert_eq!(
        steps,
        vec![
            SagaStep::EnsureConnected,
            SagaStep::Push(Command::DoorController(DoorControllerCommand::Unlock)),
            SagaStep::Hold(3),
            SagaStep::Done(Ok(())),
        ]
    );
    assert_eq!(bus(&steps), vec![Command::DoorController(DoorControllerCommand::Unlock)]);
}

#[test]
fn ignition_counts_as_powered() {
    let steps = run(EngineCommand::Ignition, DoorControllerCommand::WindowRightUp, true);
    assert_eq!(bus(&steps), vec![Command::DoorController(DoorControllerCommand::WindowRightUp)]);
    assert_eq!(steps[2], SagaStep::Hold(10));
}

#[test]
fn window_from_off_holds_long_and_restores_off() {
    let steps = run(EngineCommand::Off, DoorControllerCommand::WindowLeftDown, true);
    assert_eq!(
        steps,
        vec![
            SagaStep::Push(Command::Engine(EngineCommand::Engine)),
            SagaStep::EnsureConnected,
            SagaStep::Push(Command::DoorController(DoorControllerCommand::WindowLeftDown)),
            SagaStep::Hold(10),
            SagaStep::Push(Command::Engine(EngineCommand::Off)),
            SagaStep::Done(Ok(())),
        ]
    );
}

#[test]
fn no_door_command_without_a_connection() {
    let cached = [
        EngineCommand::Off,
        EngineCommand::Radio,
        EngineCommand::Engine,
        EngineCommand::Ignition,
    ];
    let requests = [
        DoorControllerCommand::Lock,
        DoorControllerCommand::Unlock,
        DoorControllerCommand::WindowLeftUp,
        DoorControllerCommand::WindowLeftDown,
        DoorControllerCommand::WindowRightUp,
        DoorControllerCommand::WindowRightDown,
    ];
    for state in cached {
        for request in requests {
            let steps = run(state, request, false);
            assert_eq!(steps.last(), Some(&SagaStep::Done(Err(SagaFailure::NotConnected))));
            for command in bus(&steps) {
                assert!(matches!(command, Command::Engine(_)), "{state:?} {request:?}");
            }
            // The raise, where there was one, is not taken back.
            let expected = if state.powers_doors() {
                vec![]
            } else {
                vec![Command::Engine(EngineCommand::Engine)]
            };
            assert_eq!(bus(&steps), expected);
        }
    }
}

#[test]
fn closed_bus_ends_the_saga() {
    let mut saga = Saga::start(EngineCommand::Off, DoorControllerCommand::Lock);
    assert_eq!(
        saga.advance(SagaEvent::Pushed(false)),
        SagaStep::Done(Err(SagaFailure::BusClosed))
    );
    assert_eq!(saga.outcome(), Some(Err(SagaFailure::BusClosed)));

    let mut saga = Saga::start(EngineCommand::Engine, DoorControllerCommand::Lock);
    assert_eq!(
        saga.advance(SagaEvent::Connection(true)),
        SagaStep::Push(Command::DoorController(DoorControllerCommand::Lock))
    );
    assert_eq!(
        saga.advance(SagaEvent::Pushed(false)),
        SagaStep::Done(Err(SagaFailure::BusClosed))
    );

    let mut saga = Saga::start(EngineCommand::Radio, DoorControllerCommand::Lock);
    saga.advance(SagaEvent::Pushed(true));
    saga.advance(SagaEvent::Connection(true));
    saga.advance(SagaEvent::Pushed(true));
    assert_eq!(
        saga.advance(SagaEvent::HoldElapsed),
        SagaStep::Push(Command::Engine(EngineCommand::Radio))
    );
    assert_eq!(
        saga.advance(SagaEvent::Pushed(false)),
        SagaStep::Done(Err(SagaFailure::BusClosed))
    );
}

#[test]
fn event_out_of_order_ends_the_saga() {
    let mut saga = Saga::start(EngineCommand::Off, DoorControllerCommand::Lock);
    assert_eq!(
        saga.advance(SagaEvent::Connection(true)),
        SagaStep::Done(Err(SagaFailure::OutOfOrder))
    );
    let mut saga = Saga::start(EngineCommand::Engine, DoorControllerCommand::Lock);
    assert_eq!(saga.advance(SagaEvent::HoldElapsed), SagaStep::Done(Err(SagaFailure::OutOfOrder)));
    let mut saga = Saga::start(EngineCommand::Engine, DoorControllerCommand::Lock);
    saga.advance(SagaEvent::Connection(true));
    saga.advance(SagaEvent::Pushed(true));
    assert_eq!(
        saga.advance(SagaEvent::Pushed(true)),
        SagaStep::Done(Err(SagaFailure::OutOfOrder))
    );
}

#[test]
fn finished_saga_stays_finished() {
    let mut saga = Saga::start(EngineCommand::Engine, DoorControllerCommand::Lock);
    saga.advance(SagaEvent::Connection(false));
    for event in [SagaEvent::Connection(true), SagaEvent::Pushed(true), SagaEvent::HoldElapsed] {
        assert_eq!(saga.advance(event), SagaStep::Done(Err(SagaFailure::NotConnected)));
    }
    assert_eq!(saga.pending(), SagaStep::Done(Err(SagaFailure::NotConnected)));
}

#[test]
fn pending_step_is_stable_until_answered() {
    let saga = Saga::start(EngineCommand::Radio, DoorControllerCommand::Lock);
    assert_eq!(saga.pending(), saga.pending());
    assert_eq!(saga.outcome(), None);
}
