//! The two peripheral sessions: which peripheral fills which slot, where a
//! command is written, and the engine state that the starter reports.

use crate::schema::{
    engine_of_byte, Command, DecodeError, EngineCommand, PeripheralKind, ENGINE_STATE_CHAR,
};
use vstd::prelude::*;

verus! {

/// What is known of a peripheral that fills a slot: the hardware address it
/// was seen at, from which a fresh handle can be made, and the
/// characteristics found on it.
#[derive(Debug, Clone, PartialEq, Eq)]
pub struct PeripheralSession {
    /// The hardware address, as a 48-bit number.
    pub address: u64,
    /// The identifiers of the characteristics discovered on the peripheral.
    pub characteristics: Vec<u128>,
}

/// The mathematical value of a [`PeripheralSession`].
pub struct SessionView {
    pub address: u64,
    pub characteristics: Seq<u128>,
}

impl View for PeripheralSession {
    type V = SessionView;

    open spec fn view(&self) -> SessionView {
        SessionView { address: self.address, characteristics: self.characteristics@ }
    }
}

/// The view of a slot.
pub open spec fn slot_view(slot: Option<PeripheralSession>) -> Option<SessionView> {
    match slot {
        Some(session) => Some(session@),
        None => None,
    }
}

impl PeripheralSession {
    /// A session for the peripheral at `address` with the given
    /// characteristics.
    pub fn new(address: u64, characteristics: Vec<u128>) -> (session: PeripheralSession)
        ensures
            session@ == (SessionView { address, characteristics: characteristics@ }),
    {
        PeripheralSession { address, characteristics }
    }

    /// Whether the characteristic `uuid` was discovered on this peripheral.
    pub fn has_characteristic(&self, uuid: u128) -> (res: bool)
        ensures
            res == self@.characteristics.contains(uuid),
    {
        let mut i: usize = 0;
        while i < self.characteristics.len()
            invariant
                i <= self.characteristics.len(),
                forall|j: int| 0 <= j < i ==> self.characteristics@[j] != uuid,
            decreases self.characteristics.len() - i,
        {
            if self.characteristics[i] == uuid {
                return true;
            }
            i = i + 1;
        }
        false
    }
}

/// One write of one byte to a characteristic of a peripheral.
#[derive(Debug, Clone, Copy, PartialEq, Eq, Structural)]
pub struct WriteRequest {
    pub peripheral: PeripheralKind,
    pub characteristic: u128,
    pub value: u8,
}

/// Why a command cannot be written.
#[derive(Debug, Clone, Copy, PartialEq, Eq, Structural)]
pub enum WriteError {
    /// No peripheral fills the slot.
    NoSession(PeripheralKind),
    /// The peripheral in the slot does not offer the characteristic: its
    /// firmware does not match.
    MissingCharacteristic { peripheral: PeripheralKind, characteristic: u128 },
}

/// The two slots, one for each kind of peripheral. A slot that was filled is
/// never emptied again: the address of a peripheral, once seen, is what it
/// is brought back by when the connection is lost.
#[derive(Debug, Clone, PartialEq, Eq)]
pub struct Sessions {
    starter: Option<PeripheralSession>,
    door_controller: Option<PeripheralSession>,
}

/// The mathematical value of [`Sessions`].
pub struct SessionsView {
    pub starter: Option<SessionView>,
    pub door_controller: Option<SessionView>,
}

impl SessionsView {
    /// The slot for peripherals of kind `kind`.
    pub open spec fn slot(self, kind: PeripheralKind) -> Option<SessionView> {
        match kind {
            PeripheralKind::Starter => self.starter,
            PeripheralKind::DoorController => self.door_controller,
        }
    }

    /// These slots with the one for `kind` holding `slot`.
    pub open spec fn with_slot(self, kind: PeripheralKind, slot: Option<SessionView>) -> SessionsView {
        match kind {
            PeripheralKind::Starter => SessionsView { starter: slot, ..self },
            PeripheralKind::DoorController => SessionsView { door_controller: slot, ..self },
        }
    }

    /// Whether the peripheral at `address` fills one of the slots.
    pub open spec fn holds(self, address: u64) -> bool {
        ||| self.starter matches Some(session) && session.address == address
        ||| self.door_controller matches Some(session) && session.address == address
    }

    /// The write that carries out `command`, or why there is none.
    pub open spec fn plan_write(self, command: Command) -> Result<WriteRequest, WriteError> {
        let peripheral = command.spec_peripheral();
        let characteristic = command.spec_characteristic();
        match self.slot(peripheral) {
            None => Err(WriteError::NoSession(peripheral)),
            Some(session) => if session.characteristics.contains(characteristic) {
                Ok(WriteRequest { peripheral, characteristic, value: command.spec_wire_byte() })
            } else {
                Err(WriteError::MissingCharacteristic { peripheral, characteristic })
            },
        }
    }
}

impl View for Sessions {
    type V = SessionsView;

    closed spec fn view(&self) -> SessionsView {
        SessionsView {
            starter: slot_view(self.starter),
            door_controller: slot_view(self.door_controller),
        }
    }
}

impl Sessions {
    /// Two empty slots.
    pub fn new() -> (sessions: Sessions)
        ensures
            sessions@.starter is None,
            sessions@.door_controller is None,
    {
        Sessions { starter: None, door_controller: None }
    }

    /// Whether a peripheral fills the slot for `kind`.
    pub fn is_bound(&self, kind: PeripheralKind) -> (res: bool)
        ensures
            res == (self@.slot(kind) is Some),
    {
        match kind {
            PeripheralKind::Starter => self.starter.is_some(),
            PeripheralKind::DoorController => self.door_controller.is_some(),
        }
    }

    /// The address of the peripheral in the slot for `kind`.
    pub fn address(&self, kind: PeripheralKind) -> (res: Option<u64>)
        ensures
            res == match self@.slot(kind) {
                Some(session) => Some(session.address),
                None => None,
            },
    {
        match kind {
            PeripheralKind::Starter => match &self.starter {
                Some(session) => Some(session.address),
                None => None,
            },
            PeripheralKind::DoorController => match &self.door_controller {
                Some(session) => Some(session.address),
                None => None,
            },
        }
    }

    /// Whether the peripheral at `address` fills one of the slots.
    pub fn holds(&self, address: u64) -> (res: bool)
        ensures
            res == self@.holds(address),
    {
        let starter = match &self.starter {
            Some(session) => session.address == address,
            None => false,
        };
        let door_controller = match &self.door_controller {
            Some(session) => session.address == address,
            None => false,
        };
        starter || door_controller
    }

    /// Binds `session` to the slot for `kind` if the slot is empty. The
    /// first peripheral keeps its slot: binding to a filled slot changes
    /// nothing and returns `false`.
    pub fn bind(&mut self, kind: PeripheralKind, session: PeripheralSession) -> (bound: bool)
        ensures
            bound == (old(self)@.slot(kind) is None),
            final(self)@ == if bound {
                old(self)@.with_slot(kind, Some(session@))
            } else {
                old(self)@
            },
    {
        match kind {
            PeripheralKind::Starter => {
                if self.starter.is_some() {
                    false
                } else {
                    self.starter = Some(session);
                    true
                }
            },
            PeripheralKind::DoorController => {
                if self.door_controller.is_some() {
                    false
                } else {
                    self.door_controller = Some(session);
                    true
                }
            },
        }
    }

    /// Puts `session` into the slot for `kind` in place of what was there:
    /// the peripheral as it is after its handle was made afresh.
    pub fn replace(&mut self, kind: PeripheralKind, session: PeripheralSession)
        ensures
            final(self)@ == old(self)@.with_slot(kind, Some(session@)),
    {
        match kind {
            PeripheralKind::Starter => {
                self.starter = Some(session);
            },
            PeripheralKind::DoorController => {
                self.door_controller = Some(session);
            },
        }
    }

    /// Whether the platform's report that the peripheral at `address` has
    /// disconnected calls for a reconnect: only the starter is brought back
    /// at once, since the door controller loses power with the engine circuit
    /// and is reconnected when it is next needed.
    pub fn reconnect_on_disconnect(&self, address: u64) -> (res: bool)
        ensures
            res == (self@.starter matches Some(session) && session.address == address),
    {
        match &self.starter {
            Some(session) => session.address == address,
            None => false,
        }
    }

    /// Resolves `command` to the write that carries it out. An empty slot
    /// and a missing characteristic are different errors.
    pub fn plan_write(&self, command: Command) -> (res: Result<WriteRequest, WriteError>)
        ensures
            res == self@.plan_write(command),
    {
        let peripheral = command.peripheral();
        let characteristic = command.characteristic();
        let slot = match peripheral {
            PeripheralKind::Starter => &self.starter,
            PeripheralKind::DoorController => &self.door_controller,
        };
        match slot {
            None => Err(WriteError::NoSession(peripheral)),
            Some(session) => {
                if session.has_characteristic(characteristic) {
                    Ok(WriteRequest { peripheral, characteristic, value: command.wire_byte() })
                } else {
                    Err(WriteError::MissingCharacteristic { peripheral, characteristic })
                }
            },
        }
    }
}

/// What a notification did to the cached engine state.
#[derive(Debug, Clone, Copy, PartialEq, Eq, Structural)]
pub enum Notification {
    /// It came from another characteristic and was passed over.
    Ignored,
    /// It was decoded and is now the cached state.
    Updated(EngineCommand),
    /// It could not be decoded; the cached state stands.
    Invalid(DecodeError),
}

/// The engine state that a notification payload reports: its first byte
/// decides.
pub open spec fn engine_of_payload(value: Seq<u8>) -> Result<EngineCommand, DecodeError> {
    if value.len() == 0 {
        Err(DecodeError::Empty)
    } else {
        match engine_of_byte(value[0]) {
            Some(state) => Ok(state),
            None => Err(DecodeError::InvalidByte(value[0])),
        }
    }
}

/// Decodes the payload of an engine-state notification.
pub fn decode_engine_state(value: &[u8]) -> (res: Result<EngineCommand, DecodeError>)
    ensures
        res == engine_of_payload(value@),
{
    if value.len() == 0 {
        Err(DecodeError::Empty)
    } else {
        EngineCommand::from_wire_byte(value[0])
    }
}

/// The engine state last reported by the starter. It is what was last
/// observed, which need not be what was last asked for.
#[derive(Debug, Clone, Copy, PartialEq, Eq)]
pub struct EngineStateCache {
    state: EngineCommand,
}

impl View for EngineStateCache {
    type V = EngineCommand;

    closed spec fn view(&self) -> EngineCommand {
        self.state
    }
}

/// The cached state after a notification for `characteristic` with payload
/// `value`, and what the notification did.
pub open spec fn notified(cached: EngineCommand, characteristic: u128, value: Seq<u8>) -> (
    EngineCommand,
    Notification,
) {
    if characteristic != ENGINE_STATE_CHAR {
        (cached, Notification::Ignored)
    } else {
        match engine_of_payload(value) {
            Ok(state) => (state, Notification::Updated(state)),
            Err(error) => (cached, Notification::Invalid(error)),
        }
    }
}

impl EngineStateCache {
    /// The cache before any report: the engine is taken to be off.
    pub fn new() -> (cache: EngineStateCache)
        ensures
            cache@ == EngineCommand::Off,
    {
        EngineStateCache { state: EngineCommand::Off }
    }

    /// The cached state.
    pub fn get(&self) -> (state: EngineCommand)
        ensures
            state == self@,
    {
        self.state
    }

    /// Takes in one notification. Only a notification of the engine-state
    /// characteristic with a valid payload changes the cache; an invalid one
    /// is reported and otherwise dropped.
    pub fn apply_notification(&mut self, characteristic: u128, value: &[u8]) -> (outcome:
        Notification)
        ensures
            (final(self)@, outcome) == notified(old(self)@, characteristic, value@),
    {
        if characteristic != ENGINE_STATE_CHAR {
            Notification::Ignored
        } else {
            match decode_engine_state(value) {
                Ok(state) => {
                    self.state = state;
                    Notification::Updated(state)
                },
                Err(error) => Notification::Invalid(error),
            }
        }
    }
}

} // verus!
