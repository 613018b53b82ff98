//! The starter peripheral's side of the protocol: the key switch, the engine
//! state it reports, and the byte that state travels as.

use crate::gatt::{AttError, FromGattError};
use crate::schema::ENGINE_STATE_CHAR;
use vstd::prelude::*;

verus! {

/// Position of the physical key in the lock, which the relays imitate.
#[derive(Debug, Clone, Copy, PartialEq, Eq, Hash, Structural)]
pub enum KeyPosition {
    Off,
    Radio,
    Engine,
    Ignition,
}

/// State of the engine. A key rests in `Ignition` only while the engine is
/// being started; the engine then stays `Running` until it is switched off.
#[derive(Debug, Clone, Copy, PartialEq, Eq, PartialOrd, Ord, Hash, Structural)]
pub enum EngineState {
    Off,
    Radio,
    Engine,
    Running,
}

impl KeyPosition {
    /// The engine state that the key in this position asks for.
    pub open spec fn spec_as_engine_state(self) -> EngineState {
        match self {
            KeyPosition::Off => EngineState::Off,
            KeyPosition::Radio => EngineState::Radio,
            KeyPosition::Engine => EngineState::Engine,
            KeyPosition::Ignition => EngineState::Running,
        }
    }

    /// The engine state that the key in this position asks for: each
    /// position its namesake, and `Ignition` a running engine.
    pub fn as_engine_state(&self) -> (state: EngineState)
        ensures
            state == self.spec_as_engine_state(),
    {
        match self {
            KeyPosition::Off => EngineState::Off,
            KeyPosition::Radio => EngineState::Radio,
            KeyPosition::Engine => EngineState::Engine,
            KeyPosition::Ignition => EngineState::Running,
        }
    }
}

/// The engine state that a characteristic value stands for: its first byte
/// decides.
pub open spec fn engine_state_of_gatt(data: Seq<u8>) -> Result<EngineState, FromGattError> {
    if data.len() == 0 {
        Err(FromGattError::InvalidLength)
    } else if data[0] == 0 {
        Ok(EngineState::Off)
    } else if data[0] == 1 {
        Ok(EngineState::Radio)
    } else if data[0] == 2 {
        Ok(EngineState::Engine)
    } else if data[0] == 3 {
        Ok(EngineState::Running)
    } else {
        Err(FromGattError::InvalidCharacter)
    }
}

impl EngineState {
    /// The byte this state is reported as.
    pub open spec fn spec_byte(self) -> u8 {
        match self {
            EngineState::Off => 0,
            EngineState::Radio => 1,
            EngineState::Engine => 2,
            EngineState::Running => 3,
        }
    }

    /// The one-byte characteristic value of this state.
    pub fn as_gatt(&self) -> (data: [u8; 1])
        ensures
            data@ == seq![self.spec_byte()],
            engine_state_of_gatt(data@) == Ok::<EngineState, FromGattError>(*self),
    {
        let byte: u8 = match self {
            EngineState::Off => 0,
            EngineState::Radio => 1,
            EngineState::Engine => 2,
            EngineState::Running => 3,
        };
        let data: [u8; 1] = [byte];
        assert(data@ =~= seq![byte]);
        data
    }

    /// Reads a state from a characteristic value.
    pub fn from_gatt(data: &[u8]) -> (res: Result<EngineState, FromGattError>)
        ensures
            res == engine_state_of_gatt(data@),
    {
        if data.len() == 0 {
            return Err(FromGattError::InvalidLength);
        }
        let byte: u8 = data[0];
        if byte == 0 {
            Ok(EngineState::Off)
        } else if byte == 1 {
            Ok(EngineState::Radio)
        } else if byte == 2 {
            Ok(EngineState::Engine)
        } else if byte == 3 {
            Ok(EngineState::Running)
        } else {
            Err(FromGattError::InvalidCharacter)
        }
    }
}

impl Default for EngineState {
    fn default() -> (state: EngineState)
        ensures
            state == EngineState::Off,
    {
        EngineState::Off
    }
}

/// What the starter does about a write.
#[derive(Debug, Clone, Copy, PartialEq, Eq, Structural)]
pub enum StarterWrite {
    /// Accept the write and ask the relays for this state.
    Request(EngineState),
    /// Turn the write away with this error.
    Reject(AttError),
    /// The write is to another characteristic: it is passed over.
    Ignore,
}

/// What the starter does about a write of `data` to `characteristic`.
/// Nothing is taken over an unencrypted connection; over an encrypted one
/// the value must be an engine state.
pub open spec fn starter_write(encrypted: bool, characteristic: u128, data: Seq<u8>) -> StarterWrite {
    if !encrypted {
        StarterWrite::Reject(AttError::InsufficientEncryption)
    } else if characteristic != ENGINE_STATE_CHAR {
        StarterWrite::Ignore
    } else {
        match engine_state_of_gatt(data) {
            Ok(state) => StarterWrite::Request(state),
            Err(_) => StarterWrite::Reject(AttError::ValueNotAllowed),
        }
    }
}

/// The error a read is turned away with, if it is: the engine state is read
/// over an encrypted connection only.
pub open spec fn starter_read(encrypted: bool) -> Option<AttError> {
    if encrypted {
        None
    } else {
        Some(AttError::InsufficientEncryption)
    }
}

/// Decides about a write to the starter.
pub fn on_write(encrypted: bool, characteristic: u128, data: &[u8]) -> (decision: StarterWrite)
    ensures
        decision == starter_write(encrypted, characteristic, data@),
{
    if !encrypted {
        StarterWrite::Reject(AttError::InsufficientEncryption)
    } else if characteristic != ENGINE_STATE_CHAR {
        StarterWrite::Ignore
    } else {
        match EngineState::from_gatt(data) {
            Ok(state) => StarterWrite::Request(state),
            Err(_) => StarterWrite::Reject(AttError::ValueNotAllowed),
        }
    }
}

/// Decides about a read from the starter: the error to turn it away with,
/// or nothing where the read is accepted.
pub fn on_read(encrypted: bool) -> (rejection: Option<AttError>)
    ensures
        rejection == starter_read(encrypted),
{
    if encrypted {
        None
    } else {
        Some(AttError::InsufficientEncryption)
    }
}

/// Whether a changed engine state is notified: over an encrypted
/// connection only.
pub fn notifies(encrypted: bool) -> (res: bool)
    ensures
        res == encrypted,
{
    encrypted
}

/// The starter reports its state as the byte the gateway decodes: what is
/// running here is the gateway's `Ignition`, and each other state its
/// namesake.
pub proof fn lemma_engine_state_travels(state: EngineState)
    ensures
        engine_state_of_gatt(seq![state.spec_byte()]) == Ok::<EngineState, FromGattError>(state),
        crate::schema::engine_of_byte(state.spec_byte()) is Some,
        crate::schema::engine_of_byte(state.spec_byte())->Some_0.spec_wire_byte() == state.spec_byte(),
{
    let data = seq![state.spec_byte()];
    assert(data[0] == state.spec_byte());
}

} // verus!
