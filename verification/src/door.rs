//! The door controller's side of the protocol: its three write-only
//! characteristics and the operation a write to one asks for.

use crate::gatt::{AttError, FromGattError};
use crate::schema::{
    door_of_wire, DoorControllerCommand, DOOR_LOCK_CHAR, DOOR_WINDOW_LEFT_CHAR,
    DOOR_WINDOW_RIGHT_CHAR,
};
use vstd::prelude::*;

verus! {

/// What the lock characteristic holds.
#[derive(Debug, Clone, Copy, PartialEq, Eq, Structural)]
pub enum Lock {
    Lock,
    Unlock,
}

/// What the characteristic of the left window holds.
#[derive(Debug, Clone, Copy, PartialEq, Eq, Structural)]
pub enum WindowLeft {
    Up,
    Down,
}

/// What the characteristic of the right window holds.
#[derive(Debug, Clone, Copy, PartialEq, Eq, Structural)]
pub enum WindowRight {
    Up,
    Down,
}

/// The polarity that a characteristic value stands for: its first byte must
/// be `0` or `1`.
pub open spec fn polarity_of_gatt(data: Seq<u8>) -> Result<u8, FromGattError> {
    if data.len() == 0 {
        Err(FromGattError::InvalidLength)
    } else if data[0] <= 1 {
        Ok(data[0])
    } else {
        Err(FromGattError::InvalidCharacter)
    }
}

/// Reads the polarity byte of a characteristic value.
pub fn polarity_from_gatt(data: &[u8]) -> (res: Result<u8, FromGattError>)
    ensures
        res == polarity_of_gatt(data@),
{
    if data.len() == 0 {
        Err(FromGattError::InvalidLength)
    } else if data[0] <= 1 {
        Ok(data[0])
    } else {
        Err(FromGattError::InvalidCharacter)
    }
}

impl Lock {
    /// The polarity byte of this value.
    pub open spec fn spec_byte(self) -> u8 {
        match self {
            Lock::Lock => 0,
            Lock::Unlock => 1,
        }
    }

    /// The door operation this value asks for.
    pub open spec fn spec_command(self) -> DoorControllerCommand {
        match self {
            Lock::Lock => DoorControllerCommand::Lock,
            Lock::Unlock => DoorControllerCommand::Unlock,
        }
    }

    /// The one-byte characteristic value.
    pub fn as_gatt(&self) -> (data: [u8; 1])
        ensures
            data@ == seq![self.spec_byte()],
    {
        let data: [u8; 1] = match self {
            Lock::Lock => [0],
            Lock::Unlock => [1],
        };
        assert(data@ =~= seq![self.spec_byte()]);
        data
    }

    /// Reads a value from what was written to the characteristic.
    pub fn from_gatt(data: &[u8]) -> (res: Result<Lock, FromGattError>)
        ensures
            match res {
                Ok(value) => polarity_of_gatt(data@) == Ok::<u8, FromGattError>(value.spec_byte()),
                Err(error) => polarity_of_gatt(data@) == Err::<u8, FromGattError>(error),
            },
    {
        match polarity_from_gatt(data) {
            Ok(byte) => if byte == 0 {
                Ok(Lock::Lock)
            } else {
                Ok(Lock::Unlock)
            },
            Err(error) => Err(error),
        }
    }

    /// The door operation this value asks for.
    pub fn command(&self) -> (command: DoorControllerCommand)
        ensures
            command == self.spec_command(),
            door_of_wire(DOOR_LOCK_CHAR, self.spec_byte()) == Some(command),
    {
        match self {
            Lock::Lock => DoorControllerCommand::Lock,
            Lock::Unlock => DoorControllerCommand::Unlock,
        }
    }
}

impl Default for Lock {
    fn default() -> (value: Lock)
        ensures
            value == Lock::Lock,
    {
        Lock::Lock
    }
}

impl WindowLeft {
    /// The polarity byte of this value.
    pub open spec fn spec_byte(self) -> u8 {
        match self {
            WindowLeft::Up => 0,
            WindowLeft::Down => 1,
        }
    }

    /// The door operation this value asks for.
    pub open spec fn spec_command(self) -> DoorControllerCommand {
        match self {
            WindowLeft::Up => DoorControllerCommand::WindowLeftUp,
            WindowLeft::Down => DoorControllerCommand::WindowLeftDown,
        }
    }

    /// The one-byte characteristic value.
    pub fn as_gatt(&self) -> (data: [u8; 1])
        ensures
            data@ == seq![self.spec_byte()],
    {
        let data: [u8; 1] = match self {
            WindowLeft::Up => [0],
            WindowLeft::Down => [1],
        };
        assert(data@ =~= seq![self.spec_byte()]);
        data
    }

    /// Reads a value from what was written to the characteristic.
    pub fn from_gatt(data: &[u8]) -> (res: Result<WindowLeft, FromGattError>)
        ensures
            match res {
                Ok(value) => polarity_of_gatt(data@) == Ok::<u8, FromGattError>(value.spec_byte()),
                Err(error) => polarity_of_gatt(data@) == Err::<u8, FromGattError>(error),
            },
    {
        match polarity_from_gatt(data) {
            Ok(byte) => if byte == 0 {
                Ok(WindowLeft::Up)
            } else {
                Ok(WindowLeft::Down)
            },
            Err(error) => Err(error),
        }
    }

    /// The door operation this value asks for.
    pub fn command(&self) -> (command: DoorControllerCommand)
        ensures
            command == self.spec_command(),
            door_of_wire(DOOR_WINDOW_LEFT_CHAR, self.spec_byte()) == Some(command),
    {
        match self {
            WindowLeft::Up => DoorControllerCommand::WindowLeftUp,
            WindowLeft::Down => DoorControllerCommand::WindowLeftDown,
        }
    }
}

impl Default for WindowLeft {
    fn default() -> (value: WindowLeft)
        ensures
            value == WindowLeft::Up,
    {
        WindowLeft::Up
    }
}

impl WindowRight {
    /// The polarity byte of this value.
    pub open spec fn spec_byte(self) -> u8 {
        match self {
            WindowRight::Up => 0,
            WindowRight::Down => 1,
        }
    }

    /// The door operation this value asks for.
    pub open spec fn spec_command(self) -> DoorControllerCommand {
        match self {
            WindowRight::Up => DoorControllerCommand::WindowRightUp,
            WindowRight::Down => DoorControllerCommand::WindowRightDown,
        }
    }

    /// The one-byte characteristic value.
    pub fn as_gatt(&self) -> (data: [u8; 1])
        ensures
            data@ == seq![self.spec_byte()],
    {
        let data: [u8; 1] = match self {
            WindowRight::Up => [0],
            WindowRight::Down => [1],
        };
        assert(data@ =~= seq![self.spec_byte()]);
        data
    }

    /// Reads a value from what was written to the characteristic.
    pub fn from_gatt(data: &[u8]) -> (res: Result<WindowRight, FromGattError>)
        ensures
            match res {
                Ok(value) => polarity_of_gatt(data@) == Ok::<u8, FromGattError>(value.spec_byte()),
                Err(error) => polarity_of_gatt(data@) == Err::<u8, FromGattError>(error),
            },
    {
        match polarity_from_gatt(data) {
            Ok(byte) => if byte == 0 {
                Ok(WindowRight::Up)
            } else {
                Ok(WindowRight::Down)
            },
            Err(error) => Err(error),
        }
    }

    /// The door operation this value asks for.
    pub fn command(&self) -> (command: DoorControllerCommand)
        ensures
            command == self.spec_command(),
            door_of_wire(DOOR_WINDOW_RIGHT_CHAR, self.spec_byte()) == Some(command),
    {
        match self {
            WindowRight::Up => DoorControllerCommand::WindowRightUp,
            WindowRight::Down => DoorControllerCommand::WindowRightDown,
        }
    }
}

impl Default for WindowRight {
    fn default() -> (value: WindowRight)
        ensures
            value == WindowRight::Up,
    {
        WindowRight::Up
    }
}

/// What the door controller does about a write.
#[derive(Debug, Clone, Copy, PartialEq, Eq, Structural)]
pub enum DoorWrite {
    /// Hand this operation to the relay controller.
    Operate(DoorControllerCommand),
    /// Turn the write away with this error.
    Reject(AttError),
    /// The write is to a characteristic that is none of the door's: it is
    /// passed over.
    Ignore,
}

/// Whether `characteristic` is one of the door controller's three.
pub open spec fn is_door_characteristic(characteristic: u128) -> bool {
    characteristic == DOOR_LOCK_CHAR || characteristic == DOOR_WINDOW_LEFT_CHAR || characteristic
        == DOOR_WINDOW_RIGHT_CHAR
}

/// What the door controller does about a write of `data` to
/// `characteristic`. Nothing is taken over an unencrypted connection; over
/// an encrypted one the first byte must be a polarity.
pub open spec fn door_write(encrypted: bool, characteristic: u128, data: Seq<u8>) -> DoorWrite {
    if !encrypted {
        DoorWrite::Reject(AttError::InsufficientEncryption)
    } else if !is_door_characteristic(characteristic) {
        DoorWrite::Ignore
    } else {
        match polarity_of_gatt(data) {
            Err(_) => DoorWrite::Reject(AttError::ValueNotAllowed),
            Ok(byte) => match door_of_wire(characteristic, byte) {
                Some(command) => DoorWrite::Operate(command),
                None => DoorWrite::Reject(AttError::ValueNotAllowed),
            },
        }
    }
}

/// The error a read of `characteristic` is turned away with, if it is:
/// nothing is read over an unencrypted connection, and the door's
/// characteristics are never read.
pub open spec fn door_read(encrypted: bool, characteristic: u128) -> Option<AttError> {
    if !encrypted {
        Some(AttError::InsufficientEncryption)
    } else if is_door_characteristic(characteristic) {
        Some(AttError::WriteRequestRejected)
    } else {
        None
    }
}

/// Decides about a write to the door controller.
pub fn on_write(encrypted: bool, characteristic: u128, data: &[u8]) -> (decision: DoorWrite)
    ensures
        decision == door_write(encrypted, characteristic, data@),
{
    if !encrypted {
        DoorWrite::Reject(AttError::InsufficientEncryption)
    } else if characteristic == DOOR_LOCK_CHAR {
        match Lock::from_gatt(data) {
            Ok(value) => DoorWrite::Operate(value.command()),
            Err(_) => DoorWrite::Reject(AttError::ValueNotAllowed),
        }
    } else if characteristic == DOOR_WINDOW_LEFT_CHAR {
        match WindowLeft::from_gatt(data) {
            Ok(value) => DoorWrite::Operate(value.command()),
            Err(_) => DoorWrite::Reject(AttError::ValueNotAllowed),
        }
    } else if characteristic == DOOR_WINDOW_RIGHT_CHAR {
        match WindowRight::from_gatt(data) {
            Ok(value) => DoorWrite::Operate(value.command()),
            Err(_) => DoorWrite::Reject(AttError::ValueNotAllowed),
        }
    } else {
        DoorWrite::Ignore
    }
}

/// Decides about a read from the door controller: the error to turn it away
/// with, or nothing where the read is left to the stack.
pub fn on_read(encrypted: bool, characteristic: u128) -> (rejection: Option<AttError>)
    ensures
        rejection == door_read(encrypted, characteristic),
{
    if !encrypted {
        Some(AttError::InsufficientEncryption)
    } else if characteristic == DOOR_LOCK_CHAR || characteristic == DOOR_WINDOW_LEFT_CHAR
        || characteristic == DOOR_WINDOW_RIGHT_CHAR {
        Some(AttError::WriteRequestRejected)
    } else {
        None
    }
}

/// The door controller carries out exactly what the gateway wrote: a
/// command written as its characteristic and byte over an encrypted
/// connection comes out as that command.
pub proof fn lemma_door_write_carries_command(command: DoorControllerCommand, more: Seq<u8>)
    ensures
        door_write(
            true,
            command.spec_characteristic(),
            seq![command.spec_wire_byte()] + more,
        ) == DoorWrite::Operate(command),
        door_write(false, command.spec_characteristic(), seq![command.spec_wire_byte()] + more)
            == DoorWrite::Reject(AttError::InsufficientEncryption),
{
    let data = seq![command.spec_wire_byte()] + more;
    assert(data[0] == command.spec_wire_byte());
}

} // verus!
