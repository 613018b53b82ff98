//! The door-operation sequencer.
//!
//! The door relays draw their power from the engine circuit. A door operation
//! is therefore a saga of three parts: raise the engine circuit unless it is
//! raised already, operate the relay and hold the power for as long as the
//! mechanism takes, and put the circuit back into the state it was found in.
//! The saga decides; the caller pushes onto the bus, asks for the connection
//! and waits, and reports what came of each step.
//!
//! The saga sees the bus, not the peripheral: it gives up when the bus is
//! closed, and it does not learn whether a command that it pushed was written.

use crate::schema::{Command, DoorControllerCommand, EngineCommand};
use vstd::prelude::*;

verus! {

/// Why a saga ended without having run to its end.
#[derive(Debug, Clone, Copy, PartialEq, Eq, Structural)]
pub enum SagaFailure {
    /// The door controller could not be connected: the door command was
    /// never issued.
    NotConnected,
    /// The command bus is closed.
    BusClosed,
    /// An event came that does not answer the pending step.
    OutOfOrder,
}

/// What the caller is to do next.
#[derive(Debug, Clone, Copy, PartialEq, Eq)]
pub enum SagaStep {
    /// Put this command on the command bus.
    Push(Command),
    /// Make sure the door controller is connected.
    EnsureConnected,
    /// Keep the circuit as it is for this many seconds.
    Hold(u64),
    /// Nothing more: the saga has ended.
    Done(Result<(), SagaFailure>),
}

/// What came of the step that was handed out last.
#[derive(Debug, Clone, Copy, PartialEq, Eq, Structural)]
pub enum SagaEvent {
    /// Whether the bus took the command.
    Pushed(bool),
    /// Whether the door controller is connected.
    Connection(bool),
    /// The hold is over.
    HoldElapsed,
}

/// Where a saga stands: which step it waits on, or how it ended.
#[derive(Debug, Clone, Copy, PartialEq, Eq)]
pub enum SagaPhase {
    Raising,
    Connecting,
    Operating,
    Holding,
    Restoring,
    Finished(Result<(), SagaFailure>),
}

/// One door operation under way.
#[derive(Debug, Clone, Copy, PartialEq, Eq)]
pub struct Saga {
    request: DoorControllerCommand,
    restore_state: EngineCommand,
    phase: SagaPhase,
}

/// The mathematical value of a [`Saga`].
pub struct SagaView {
    /// The door operation that was asked for.
    pub request: DoorControllerCommand,
    /// The engine state that was cached when the saga began.
    pub restore_state: EngineCommand,
    pub phase: SagaPhase,
}

impl SagaView {
    /// Whether this saga raises the engine circuit itself, and so is the one
    /// to restore it.
    pub open spec fn raises(self) -> bool {
        !self.restore_state.spec_powers_doors()
    }

    /// What every saga satisfies: only one that raises the circuit stands at
    /// raising or restoring it.
    pub open spec fn wf(self) -> bool {
        (self.phase is Raising || self.phase is Restoring) ==> self.raises()
    }

    /// The saga for the door operation `request`, begun while the cached
    /// engine state is `cached`.
    pub open spec fn start(cached: EngineCommand, request: DoorControllerCommand) -> SagaView {
        SagaView {
            request,
            restore_state: cached,
            phase: if cached.spec_powers_doors() {
                SagaPhase::Connecting
            } else {
                SagaPhase::Raising
            },
        }
    }

    /// The step that the saga waits on.
    pub open spec fn pending(self) -> SagaStep {
        match self.phase {
            SagaPhase::Raising => SagaStep::Push(Command::Engine(EngineCommand::Engine)),
            SagaPhase::Connecting => SagaStep::EnsureConnected,
            SagaPhase::Operating => SagaStep::Push(Command::DoorController(self.request)),
            SagaPhase::Holding => SagaStep::Hold(self.request.spec_hold_secs()),
            SagaPhase::Restoring => SagaStep::Push(Command::Engine(self.restore_state)),
            SagaPhase::Finished(result) => SagaStep::Done(result),
        }
    }

    /// This saga in another phase.
    pub open spec fn at(self, phase: SagaPhase) -> SagaView {
        SagaView { phase, ..self }
    }

    /// The saga after `event`. An event that does not answer the pending
    /// step ends the saga; a saga that has ended stays as it is.
    pub open spec fn advance(self, event: SagaEvent) -> SagaView {
        match (self.phase, event) {
            (SagaPhase::Finished(_), _) => self,
            (SagaPhase::Raising, SagaEvent::Pushed(true)) => self.at(SagaPhase::Connecting),
            (SagaPhase::Raising, SagaEvent::Pushed(false)) => self.at(
                SagaPhase::Finished(Err(SagaFailure::BusClosed)),
            ),
            (SagaPhase::Connecting, SagaEvent::Connection(true)) => self.at(SagaPhase::Operating),
            (SagaPhase::Connecting, SagaEvent::Connection(false)) => self.at(
                SagaPhase::Finished(Err(SagaFailure::NotConnected)),
            ),
            (SagaPhase::Operating, SagaEvent::Pushed(true)) => self.at(SagaPhase::Holding),
            (SagaPhase::Operating, SagaEvent::Pushed(false)) => self.at(
                SagaPhase::Finished(Err(SagaFailure::BusClosed)),
            ),
            (SagaPhase::Holding, SagaEvent::HoldElapsed) => if self.raises() {
                self.at(SagaPhase::Restoring)
            } else {
                self.at(SagaPhase::Finished(Ok(())))
            },
            (SagaPhase::Restoring, SagaEvent::Pushed(true)) => self.at(SagaPhase::Finished(Ok(()))),
            (SagaPhase::Restoring, SagaEvent::Pushed(false)) => self.at(
                SagaPhase::Finished(Err(SagaFailure::BusClosed)),
            ),
            _ => self.at(SagaPhase::Finished(Err(SagaFailure::OutOfOrder))),
        }
    }

    /// The steps handed out while `events` come in, the pending one first.
    pub open spec fn steps(self, events: Seq<SagaEvent>) -> Seq<SagaStep>
        decreases events.len(),
    {
        if events.len() == 0 {
            seq![self.pending()]
        } else {
            seq![self.pending()] + self.advance(events[0]).steps(events.drop_first())
        }
    }
}

/// The commands among `steps` that go onto the bus, in order.
pub open spec fn bus_sequence(steps: Seq<SagaStep>) -> Seq<Command>
    decreases steps.len(),
{
    if steps.len() == 0 {
        Seq::empty()
    } else {
        match steps[0] {
            SagaStep::Push(command) => seq![command] + bus_sequence(steps.drop_first()),
            _ => bus_sequence(steps.drop_first()),
        }
    }
}

/// Whether `step` puts a door command on the bus.
pub open spec fn is_door_push(step: SagaStep) -> bool {
    step matches SagaStep::Push(Command::DoorController(_))
}

impl View for Saga {
    type V = SagaView;

    closed spec fn view(&self) -> SagaView {
        SagaView { request: self.request, restore_state: self.restore_state, phase: self.phase }
    }
}

impl Saga {
    #[verifier::type_invariant]
    spec fn valid(&self) -> bool {
        self@.wf()
    }

    /// Begins the saga for the door operation `request`. `cached` is the
    /// engine state last reported by the starter; it is what the saga
    /// restores at its end, whatever is asked of the engine in between.
    pub fn start(cached: EngineCommand, request: DoorControllerCommand) -> (saga: Saga)
        ensures
            saga@ == SagaView::start(cached, request),
            saga@.wf(),
    {
        let phase = if cached.powers_doors() {
            SagaPhase::Connecting
        } else {
            SagaPhase::Raising
        };
        Saga { request, restore_state: cached, phase }
    }

    /// The step that the saga waits on.
    pub fn pending(&self) -> (step: SagaStep)
        ensures
            step == self@.pending(),
            self@.wf(),
    {
        proof {
            use_type_invariant(self);
        }
        match self.phase {
            SagaPhase::Raising => SagaStep::Push(Command::Engine(EngineCommand::Engine)),
            SagaPhase::Connecting => SagaStep::EnsureConnected,
            SagaPhase::Operating => SagaStep::Push(Command::DoorController(self.request)),
            SagaPhase::Holding => SagaStep::Hold(self.request.hold_secs()),
            SagaPhase::Restoring => SagaStep::Push(Command::Engine(self.restore_state)),
            SagaPhase::Finished(result) => SagaStep::Done(result),
        }
    }

    /// How the saga ended, if it has.
    pub fn outcome(&self) -> (res: Option<Result<(), SagaFailure>>)
        ensures
            res == match self@.phase {
                SagaPhase::Finished(result) => Some(result),
                _ => None,
            },
    {
        match self.phase {
            SagaPhase::Finished(result) => Some(result),
            _ => None,
        }
    }

    /// Takes in what came of the pending step and hands out the next one.
    ///
    /// A door command is handed out only in answer to a connection that is
    /// there. The engine is restored only by a saga that raised it.
    pub fn advance(&mut self, event: SagaEvent) -> (step: SagaStep)
        ensures
            final(self)@ == old(self)@.advance(event),
            step == final(self)@.pending(),
            final(self)@.wf(),
            is_door_push(step) ==> old(self)@.phase is Connecting && event == SagaEvent::Connection(
                true,
            ),
    {
        proof {
            use_type_invariant(&*self);
        }
        let phase = self.phase;
        let next = match phase {
            SagaPhase::Finished(result) => SagaPhase::Finished(result),
            SagaPhase::Raising => match event {
                SagaEvent::Pushed(true) => SagaPhase::Connecting,
                SagaEvent::Pushed(false) => SagaPhase::Finished(Err(SagaFailure::BusClosed)),
                _ => SagaPhase::Finished(Err(SagaFailure::OutOfOrder)),
            },
            SagaPhase::Connecting => match event {
                SagaEvent::Connection(true) => SagaPhase::Operating,
                SagaEvent::Connection(false) => SagaPhase::Finished(Err(SagaFailure::NotConnected)),
                _ => SagaPhase::Finished(Err(SagaFailure::OutOfOrder)),
            },
            SagaPhase::Operating => match event {
                SagaEvent::Pushed(true) => SagaPhase::Holding,
                SagaEvent::Pushed(false) => SagaPhase::Finished(Err(SagaFailure::BusClosed)),
                _ => SagaPhase::Finished(Err(SagaFailure::OutOfOrder)),
            },
            SagaPhase::Holding => match event {
                SagaEvent::HoldElapsed => if self.restore_state.powers_doors() {
                    SagaPhase::Finished(Ok(()))
                } else {
                    SagaPhase::Restoring
                },
                _ => SagaPhase::Finished(Err(SagaFailure::OutOfOrder)),
            },
            SagaPhase::Restoring => match event {
                SagaEvent::Pushed(true) => SagaPhase::Finished(Ok(())),
                SagaEvent::Pushed(false) => SagaPhase::Finished(Err(SagaFailure::BusClosed)),
                _ => SagaPhase::Finished(Err(SagaFailure::OutOfOrder)),
            },
        };
        self.phase = next;
        self.pending()
    }
}

/// The events of a saga in which every step succeeds, for a saga that raises
/// the circuit itself.
pub open spec fn smooth_raised() -> Seq<SagaEvent> {
    seq![
        SagaEvent::Pushed(true),
        SagaEvent::Connection(true),
        SagaEvent::Pushed(true),
        SagaEvent::HoldElapsed,
        SagaEvent::Pushed(true),
    ]
}

/// The events of a saga in which every step succeeds, for a saga that finds
/// the circuit raised.
pub open spec fn smooth_powered() -> Seq<SagaEvent> {
    seq![SagaEvent::Connection(true), SagaEvent::Pushed(true), SagaEvent::HoldElapsed]
}

/// A saga that finds the circuit unpowered raises it, operates the door
/// once the controller is connected, holds for as long as the operation
/// takes, and then restores the state it found: the bus sees the raise, the
/// door command and the restore, in this order, with the hold between the
/// last two.
pub proof fn lemma_saga_raises_and_restores(cached: EngineCommand, request: DoorControllerCommand)
    requires
        !cached.spec_powers_doors(),
    ensures
        SagaView::start(cached, request).steps(smooth_raised()) == seq![
            SagaStep::Push(Command::Engine(EngineCommand::Engine)),
            SagaStep::EnsureConnected,
            SagaStep::Push(Command::DoorController(request)),
            SagaStep::Hold(request.spec_hold_secs()),
            SagaStep::Push(Command::Engine(cached)),
            SagaStep::Done(Ok(())),
        ],
        bus_sequence(SagaView::start(cached, request).steps(smooth_raised())) == seq![
            Command::Engine(EngineCommand::Engine),
            Command::DoorController(request),
            Command::Engine(cached),
        ],
{
    let s0 = SagaView::start(cached, request);
    let e = smooth_raised();
    let s1 = s0.advance(e[0]);
    let s2 = s1.advance(e[1]);
    let s3 = s2.advance(e[2]);
    let s4 = s3.advance(e[3]);
    let s5 = s4.advance(e[4]);
    let e1 = e.drop_first();
    let e2 = e1.drop_first();
    let e3 = e2.drop_first();
    let e4 = e3.drop_first();
    let e5 = e4.drop_first();
    assert(e1[0] == e[1] && e2[0] == e[2] && e3[0] == e[3] && e4[0] == e[4]);
    assert(e5.len() == 0);
    let none = Seq::<SagaStep>::empty();
    assert(s5.steps(e5) == seq![s5.pending()] + none);
    assert(s4.steps(e4) == seq![s4.pending()] + s5.steps(e5));
    assert(s3.steps(e3) == seq![s3.pending()] + s4.steps(e4));
    assert(s2.steps(e2) == seq![s2.pending()] + s3.steps(e3));
    assert(s1.steps(e1) == seq![s1.pending()] + s2.steps(e2));
    assert(s0.steps(e) == seq![s0.pending()] + s1.steps(e1));
    lemma_bus_sequence_cons(s5.pending(), none);
    lemma_bus_sequence_cons(s4.pending(), s5.steps(e5));
    lemma_bus_sequence_cons(s3.pending(), s4.steps(e4));
    lemma_bus_sequence_cons(s2.pending(), s3.steps(e3));
    lemma_bus_sequence_cons(s1.pending(), s2.steps(e2));
    lemma_bus_sequence_cons(s0.pending(), s1.steps(e1));
}

/// A saga that finds the circuit powered neither raises nor restores it: the
/// bus sees the door command alone.
pub proof fn lemma_saga_leaves_powered_circuit(cached: EngineCommand, request: DoorControllerCommand)
    requires
        cached.spec_powers_doors(),
    ensures
        SagaView::start(cached, request).steps(smooth_powered()) == seq![
            SagaStep::EnsureConnected,
            SagaStep::Push(Command::DoorController(request)),
            SagaStep::Hold(request.spec_hold_secs()),
            SagaStep::Done(Ok(())),
        ],
        bus_sequence(SagaView::start(cached, request).steps(smooth_powered())) == seq![
            Command::DoorController(request),
        ],
{
    let s0 = SagaView::start(cached, request);
    let e = smooth_powered();
    let s1 = s0.advance(e[0]);
    let s2 = s1.advance(e[1]);
    let s3 = s2.advance(e[2]);
    let e1 = e.drop_first();
    let e2 = e1.drop_first();
    let e3 = e2.drop_first();
    assert(e1[0] == e[1] && e2[0] == e[2]);
    assert(e3.len() == 0);
    let none = Seq::<SagaStep>::empty();
    assert(s3.steps(e3) == seq![s3.pending()] + none);
    assert(s2.steps(e2) == seq![s2.pending()] + s3.steps(e3));
    assert(s1.steps(e1) == seq![s1.pending()] + s2.steps(e2));
    assert(s0.steps(e) == seq![s0.pending()] + s1.steps(e1));
    lemma_bus_sequence_cons(s3.pending(), none);
    lemma_bus_sequence_cons(s2.pending(), s3.steps(e3));
    lemma_bus_sequence_cons(s1.pending(), s2.steps(e2));
    lemma_bus_sequence_cons(s0.pending(), s1.steps(e1));
}

/// The bus sequence of a step followed by more steps: the command of the
/// step, if it pushes one, and then the bus sequence of the rest.
pub proof fn lemma_bus_sequence_cons(step: SagaStep, rest: Seq<SagaStep>)
    ensures
        bus_sequence(seq![step] + rest) == match step {
            SagaStep::Push(command) => seq![command] + bus_sequence(rest),
            _ => bus_sequence(rest),
        },
{
    let all = seq![step] + rest;
    assert(all[0] == step);
    assert(all.drop_first() == rest);
}

/// Unless the door controller is reported connected, no door command is
/// ever handed out, whatever the cached engine state is and whatever else
/// comes in.
pub proof fn lemma_no_door_command_without_connection(
    cached: EngineCommand,
    request: DoorControllerCommand,
    events: Seq<SagaEvent>,
)
    requires
        !events.contains(SagaEvent::Connection(true)),
    ensures
        forall|i: int|
            0 <= i < SagaView::start(cached, request).steps(events).len() ==> !is_door_push(
                #[trigger] SagaView::start(cached, request).steps(events)[i],
            ),
{
    lemma_no_door_push_from(SagaView::start(cached, request), events);
}

/// From any phase but the one that operates the door, no door command is
/// handed out while no connection is reported.
pub proof fn lemma_no_door_push_from(saga: SagaView, events: Seq<SagaEvent>)
    requires
        !events.contains(SagaEvent::Connection(true)),
        !(saga.phase is Operating),
    ensures
        forall|i: int| 0 <= i < saga.steps(events).len() ==> !is_door_push(#[trigger] saga.steps(events)[i]),
    decreases events.len(),
{
    if events.len() > 0 {
        let next = saga.advance(events[0]);
        let rest = events.drop_first();
        assert(events[0] != SagaEvent::Connection(true));
        assert forall|event: SagaEvent| rest.contains(event) implies events.contains(event) by {
            let j = choose|j: int| 0 <= j < rest.len() && rest[j] == event;
            assert(events[j + 1] == event);
        }
        lemma_no_door_push_from(next, rest);
        assert forall|i: int| 0 <= i < saga.steps(events).len() implies !is_door_push(
            #[trigger] saga.steps(events)[i],
        ) by {
            if i > 0 {
                assert(saga.steps(events)[i] == next.steps(rest)[i - 1]);
            }
        }
    }
}

} // verus!
