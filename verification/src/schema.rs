//! The commands carried on the command bus and their one-byte wire encoding.

use crate::text::same_text;
use vstd::prelude::*;
use vstd::string::StrSliceExecFns;

verus! {

/// Desired or observed power state of the starter circuit.
///
/// The variants are ordered by how much of the circuit is powered; the wire
/// byte of a variant is its position in that order.
#[derive(Debug, Clone, Copy, PartialEq, Eq, PartialOrd, Ord, Hash, Structural)]
pub enum EngineCommand {
    Off,
    Radio,
    Engine,
    Ignition,
}

/// Why a status payload could not be decoded into an [`EngineCommand`].
#[derive(Debug, Clone, Copy, PartialEq, Eq, Structural)]
pub enum DecodeError {
    /// The payload held no byte at all.
    Empty,
    /// The first byte is none of `0..=3`.
    InvalidByte(u8),
}

/// The engine state that a wire byte stands for, if any.
pub open spec fn engine_of_byte(byte: u8) -> Option<EngineCommand> {
    if byte == 0 {
        Some(EngineCommand::Off)
    } else if byte == 1 {
        Some(EngineCommand::Radio)
    } else if byte == 2 {
        Some(EngineCommand::Engine)
    } else if byte == 3 {
        Some(EngineCommand::Ignition)
    } else {
        None
    }
}

impl EngineCommand {
    /// The wire byte of this state.
    pub open spec fn spec_wire_byte(self) -> u8 {
        match self {
            EngineCommand::Off => 0,
            EngineCommand::Radio => 1,
            EngineCommand::Engine => 2,
            EngineCommand::Ignition => 3,
        }
    }

    /// Whether the circuit that feeds the door relays is powered in this state.
    pub open spec fn spec_powers_doors(self) -> bool {
        self == EngineCommand::Engine || self == EngineCommand::Ignition
    }

    /// Encodes the state as the single byte written to the engine-state
    /// characteristic.
    pub fn wire_byte(&self) -> (byte: u8)
        ensures
            byte == self.spec_wire_byte(),
            byte <= 3,
            engine_of_byte(byte) == Some(*self),
    {
        match self {
            EngineCommand::Off => 0,
            EngineCommand::Radio => 1,
            EngineCommand::Engine => 2,
            EngineCommand::Ignition => 3,
        }
    }

    /// Decodes one wire byte: `0..=3` give a state, every other byte is an
    /// error that carries the byte.
    pub fn from_wire_byte(byte: u8) -> (res: Result<EngineCommand, DecodeError>)
        ensures
            res == match engine_of_byte(byte) {
                Some(state) => Ok::<EngineCommand, DecodeError>(state),
                None => Err(DecodeError::InvalidByte(byte)),
            },
    {
        if byte == 0 {
            Ok(EngineCommand::Off)
        } else if byte == 1 {
            Ok(EngineCommand::Radio)
        } else if byte == 2 {
            Ok(EngineCommand::Engine)
        } else if byte == 3 {
            Ok(EngineCommand::Ignition)
        } else {
            Err(DecodeError::InvalidByte(byte))
        }
    }

    /// Whether the door relays have power in this state.
    pub fn powers_doors(&self) -> (res: bool)
        ensures
            res == self.spec_powers_doors(),
    {
        match self {
            EngineCommand::Engine | EngineCommand::Ignition => true,
            _ => false,
        }
    }
}

/// The service that the starter advertises.
pub const ENGINE_SERVICE_UUID: u128 = 0x0e353531515942a092ff38e9e49ab7d1;

/// Engine state of the starter: readable, writable, and notified on change.
pub const ENGINE_STATE_CHAR: u128 = 0x13d24b593d134ef798dbe174869078e0;

/// The service that the door controller advertises.
pub const DOOR_SERVICE_UUID: u128 = 0x5eb5b1175231409ea1cab7689f488473;

/// Door lock: `0` locks, `1` unlocks.
pub const DOOR_LOCK_CHAR: u128 = 0x446f5ef8e88940988444e82331c92339;

/// Left window: `0` moves it up, `1` down.
pub const DOOR_WINDOW_LEFT_CHAR: u128 = 0xb163c9c8b1ac445a8232b7b462bf6b91;

/// Right window: `0` moves it up, `1` down.
pub const DOOR_WINDOW_RIGHT_CHAR: u128 = 0x8f738eeebbb74cce8b82726a56532bdc;

/// Seconds the engine circuit stays raised for a lock or unlock.
pub const LOCK_HOLD_SECS: u64 = 3;

/// Seconds the engine circuit stays raised while a window moves.
pub const WINDOW_HOLD_SECS: u64 = 10;

/// The two peripherals the gateway talks to.
#[derive(Debug, Clone, Copy, PartialEq, Eq, Hash, Structural)]
pub enum PeripheralKind {
    Starter,
    DoorController,
}

impl PeripheralKind {
    /// The service by which a peripheral of this kind is recognised.
    pub open spec fn spec_service(self) -> u128 {
        match self {
            PeripheralKind::Starter => ENGINE_SERVICE_UUID,
            PeripheralKind::DoorController => DOOR_SERVICE_UUID,
        }
    }

    /// The service by which a peripheral of this kind is recognised.
    pub fn service(&self) -> (uuid: u128)
        ensures
            uuid == self.spec_service(),
    {
        match self {
            PeripheralKind::Starter => ENGINE_SERVICE_UUID,
            PeripheralKind::DoorController => DOOR_SERVICE_UUID,
        }
    }
}

/// One relay operation of the door controller.
#[derive(Debug, Clone, Copy, PartialEq, Eq, PartialOrd, Ord, Hash, Structural)]
pub enum DoorControllerCommand {
    Lock,
    Unlock,
    WindowLeftUp,
    WindowLeftDown,
    WindowRightUp,
    WindowRightDown,
}

/// The door operation that a byte written to a characteristic asks for.
pub open spec fn door_of_wire(characteristic: u128, byte: u8) -> Option<DoorControllerCommand> {
    if characteristic == DOOR_LOCK_CHAR && byte == 0 {
        Some(DoorControllerCommand::Lock)
    } else if characteristic == DOOR_LOCK_CHAR && byte == 1 {
        Some(DoorControllerCommand::Unlock)
    } else if characteristic == DOOR_WINDOW_LEFT_CHAR && byte == 0 {
        Some(DoorControllerCommand::WindowLeftUp)
    } else if characteristic == DOOR_WINDOW_LEFT_CHAR && byte == 1 {
        Some(DoorControllerCommand::WindowLeftDown)
    } else if characteristic == DOOR_WINDOW_RIGHT_CHAR && byte == 0 {
        Some(DoorControllerCommand::WindowRightUp)
    } else if characteristic == DOOR_WINDOW_RIGHT_CHAR && byte == 1 {
        Some(DoorControllerCommand::WindowRightDown)
    } else {
        None
    }
}

impl DoorControllerCommand {
    /// The characteristic whose relay pair carries out this operation.
    pub open spec fn spec_characteristic(self) -> u128 {
        match self {
            DoorControllerCommand::Lock | DoorControllerCommand::Unlock => DOOR_LOCK_CHAR,
            DoorControllerCommand::WindowLeftUp
            | DoorControllerCommand::WindowLeftDown => DOOR_WINDOW_LEFT_CHAR,
            DoorControllerCommand::WindowRightUp
            | DoorControllerCommand::WindowRightDown => DOOR_WINDOW_RIGHT_CHAR,
        }
    }

    /// The polarity byte: `0` for lock and up, `1` for unlock and down.
    pub open spec fn spec_wire_byte(self) -> u8 {
        match self {
            DoorControllerCommand::Lock
            | DoorControllerCommand::WindowLeftUp
            | DoorControllerCommand::WindowRightUp => 0,
            DoorControllerCommand::Unlock
            | DoorControllerCommand::WindowLeftDown
            | DoorControllerCommand::WindowRightDown => 1,
        }
    }

    /// How long the relay needs power for the mechanism to finish, in seconds.
    pub open spec fn spec_hold_secs(self) -> u64 {
        match self {
            DoorControllerCommand::Lock | DoorControllerCommand::Unlock => LOCK_HOLD_SECS,
            _ => WINDOW_HOLD_SECS,
        }
    }

    /// The characteristic to write for this operation.
    pub fn characteristic(&self) -> (uuid: u128)
        ensures
            uuid == self.spec_characteristic(),
    {
        match self {
            DoorControllerCommand::Lock | DoorControllerCommand::Unlock => DOOR_LOCK_CHAR,
            DoorControllerCommand::WindowLeftUp
            | DoorControllerCommand::WindowLeftDown => DOOR_WINDOW_LEFT_CHAR,
            DoorControllerCommand::WindowRightUp
            | DoorControllerCommand::WindowRightDown => DOOR_WINDOW_RIGHT_CHAR,
        }
    }

    /// The byte to write for this operation.
    pub fn wire_byte(&self) -> (byte: u8)
        ensures
            byte == self.spec_wire_byte(),
            byte <= 1,
            door_of_wire(self.spec_characteristic(), byte) == Some(*self),
    {
        match self {
            DoorControllerCommand::Lock
            | DoorControllerCommand::WindowLeftUp
            | DoorControllerCommand::WindowRightUp => 0,
            DoorControllerCommand::Unlock
            | DoorControllerCommand::WindowLeftDown
            | DoorControllerCommand::WindowRightDown => 1,
        }
    }

    /// Reads an operation back from the characteristic and byte of a write.
    pub fn from_wire(characteristic: u128, byte: u8) -> (res: Option<DoorControllerCommand>)
        ensures
            res == door_of_wire(characteristic, byte),
    {
        if byte > 1 {
            None
        } else if characteristic == DOOR_LOCK_CHAR {
            if byte == 0 {
                Some(DoorControllerCommand::Lock)
            } else {
                Some(DoorControllerCommand::Unlock)
            }
        } else if characteristic == DOOR_WINDOW_LEFT_CHAR {
            if byte == 0 {
                Some(DoorControllerCommand::WindowLeftUp)
            } else {
                Some(DoorControllerCommand::WindowLeftDown)
            }
        } else if characteristic == DOOR_WINDOW_RIGHT_CHAR {
            if byte == 0 {
                Some(DoorControllerCommand::WindowRightUp)
            } else {
                Some(DoorControllerCommand::WindowRightDown)
            }
        } else {
            None
        }
    }

    /// Seconds to keep the engine circuit raised after the write: the short
    /// hold for the lock, the long one for a window.
    pub fn hold_secs(&self) -> (secs: u64)
        ensures
            secs == self.spec_hold_secs(),
    {
        match self {
            DoorControllerCommand::Lock | DoorControllerCommand::Unlock => LOCK_HOLD_SECS,
            _ => WINDOW_HOLD_SECS,
        }
    }
}

/// The unit of work on the command bus.
#[derive(Debug, Clone, Copy, PartialEq, Eq, PartialOrd, Ord, Hash, Structural)]
pub enum Command {
    DoorController(DoorControllerCommand),
    Engine(EngineCommand),
}

impl Command {
    /// The peripheral that carries out this command.
    pub open spec fn spec_peripheral(self) -> PeripheralKind {
        match self {
            Command::DoorController(_) => PeripheralKind::DoorController,
            Command::Engine(_) => PeripheralKind::Starter,
        }
    }

    /// The characteristic this command is written to.
    pub open spec fn spec_characteristic(self) -> u128 {
        match self {
            Command::DoorController(door) => door.spec_characteristic(),
            Command::Engine(_) => ENGINE_STATE_CHAR,
        }
    }

    /// The byte this command is written as.
    pub open spec fn spec_wire_byte(self) -> u8 {
        match self {
            Command::DoorController(door) => door.spec_wire_byte(),
            Command::Engine(engine) => engine.spec_wire_byte(),
        }
    }

    /// The peripheral that carries out this command.
    pub fn peripheral(&self) -> (kind: PeripheralKind)
        ensures
            kind == self.spec_peripheral(),
    {
        match self {
            Command::DoorController(_) => PeripheralKind::DoorController,
            Command::Engine(_) => PeripheralKind::Starter,
        }
    }

    /// The characteristic this command is written to.
    pub fn characteristic(&self) -> (uuid: u128)
        ensures
            uuid == self.spec_characteristic(),
    {
        match self {
            Command::DoorController(door) => door.characteristic(),
            Command::Engine(_) => ENGINE_STATE_CHAR,
        }
    }

    /// The byte this command is written as.
    pub fn wire_byte(&self) -> (byte: u8)
        ensures
            byte == self.spec_wire_byte(),
    {
        match self {
            Command::DoorController(door) => door.wire_byte(),
            Command::Engine(engine) => engine.wire_byte(),
        }
    }
}

/// The door operation that a name in a command envelope stands for.
pub open spec fn door_of_name(name: Seq<char>) -> Option<DoorControllerCommand> {
    if name == "lock"@ {
        Some(DoorControllerCommand::Lock)
    } else if name == "unlock"@ {
        Some(DoorControllerCommand::Unlock)
    } else if name == "window_left_up"@ {
        Some(DoorControllerCommand::WindowLeftUp)
    } else if name == "window_left_down"@ {
        Some(DoorControllerCommand::WindowLeftDown)
    } else if name == "window_right_up"@ {
        Some(DoorControllerCommand::WindowRightUp)
    } else if name == "window_right_down"@ {
        Some(DoorControllerCommand::WindowRightDown)
    } else {
        None
    }
}

/// The engine state that a name in a command envelope stands for.
pub open spec fn engine_of_name(name: Seq<char>) -> Option<EngineCommand> {
    if name == "off"@ {
        Some(EngineCommand::Off)
    } else if name == "radio"@ {
        Some(EngineCommand::Radio)
    } else if name == "engine"@ {
        Some(EngineCommand::Engine)
    } else if name == "ignition"@ {
        Some(EngineCommand::Ignition)
    } else {
        None
    }
}

/// The command that a name in a command envelope stands for: a door
/// operation where the name is one, else an engine state.
pub open spec fn command_of_name(name: Seq<char>) -> Option<Command> {
    match door_of_name(name) {
        Some(door) => Some(Command::DoorController(door)),
        None => match engine_of_name(name) {
            Some(engine) => Some(Command::Engine(engine)),
            None => None,
        },
    }
}

impl DoorControllerCommand {
    /// The name of this operation in a command envelope.
    pub open spec fn spec_name(self) -> Seq<char> {
        match self {
            DoorControllerCommand::Lock => "lock"@,
            DoorControllerCommand::Unlock => "unlock"@,
            DoorControllerCommand::WindowLeftUp => "window_left_up"@,
            DoorControllerCommand::WindowLeftDown => "window_left_down"@,
            DoorControllerCommand::WindowRightUp => "window_right_up"@,
            DoorControllerCommand::WindowRightDown => "window_right_down"@,
        }
    }

    /// The name of this operation in a command envelope.
    pub fn name(&self) -> (name: &'static str)
        ensures
            name@ == self.spec_name(),
    {
        match self {
            DoorControllerCommand::Lock => "lock",
            DoorControllerCommand::Unlock => "unlock",
            DoorControllerCommand::WindowLeftUp => "window_left_up",
            DoorControllerCommand::WindowLeftDown => "window_left_down",
            DoorControllerCommand::WindowRightUp => "window_right_up",
            DoorControllerCommand::WindowRightDown => "window_right_down",
        }
    }

    /// Reads a door operation from its name.
    pub fn from_name(name: &str) -> (res: Option<DoorControllerCommand>)
        ensures
            res == door_of_name(name@),
    {
        if same_text(name, "lock") {
            Some(DoorControllerCommand::Lock)
        } else if same_text(name, "unlock") {
            Some(DoorControllerCommand::Unlock)
        } else if same_text(name, "window_left_up") {
            Some(DoorControllerCommand::WindowLeftUp)
        } else if same_text(name, "window_left_down") {
            Some(DoorControllerCommand::WindowLeftDown)
        } else if same_text(name, "window_right_up") {
            Some(DoorControllerCommand::WindowRightUp)
        } else if same_text(name, "window_right_down") {
            Some(DoorControllerCommand::WindowRightDown)
        } else {
            None
        }
    }
}

impl EngineCommand {
    /// The name of this state in a command envelope.
    pub open spec fn spec_name(self) -> Seq<char> {
        match self {
            EngineCommand::Off => "off"@,
            EngineCommand::Radio => "radio"@,
            EngineCommand::Engine => "engine"@,
            EngineCommand::Ignition => "ignition"@,
        }
    }

    /// The name of this state in a command envelope.
    pub fn name(&self) -> (name: &'static str)
        ensures
            name@ == self.spec_name(),
    {
        match self {
            EngineCommand::Off => "off",
            EngineCommand::Radio => "radio",
            EngineCommand::Engine => "engine",
            EngineCommand::Ignition => "ignition",
        }
    }

    /// Reads an engine state from its name.
    pub fn from_name(name: &str) -> (res: Option<EngineCommand>)
        ensures
            res == engine_of_name(name@),
    {
        if same_text(name, "off") {
            Some(EngineCommand::Off)
        } else if same_text(name, "radio") {
            Some(EngineCommand::Radio)
        } else if same_text(name, "engine") {
            Some(EngineCommand::Engine)
        } else if same_text(name, "ignition") {
            Some(EngineCommand::Ignition)
        } else {
            None
        }
    }
}

impl Command {
    /// The name of this command in a command envelope.
    pub open spec fn spec_name(self) -> Seq<char> {
        match self {
            Command::DoorController(door) => door.spec_name(),
            Command::Engine(engine) => engine.spec_name(),
        }
    }

    /// The name of this command in a command envelope.
    pub fn name(&self) -> (name: &'static str)
        ensures
            name@ == self.spec_name(),
    {
        match self {
            Command::DoorController(door) => door.name(),
            Command::Engine(engine) => engine.name(),
        }
    }

    /// Reads a command from its name: the ten names are those of the six
    /// door operations and the four engine states, and any other text is no
    /// command.
    pub fn from_name(name: &str) -> (res: Option<Command>)
        ensures
            res == command_of_name(name@),
    {
        match DoorControllerCommand::from_name(name) {
            Some(door) => Some(Command::DoorController(door)),
            None => match EngineCommand::from_name(name) {
                Some(engine) => Some(Command::Engine(engine)),
                None => None,
            },
        }
    }
}

/// Whether `claim` is JSON text in double quotes.
pub open spec fn is_quoted(claim: Seq<char>) -> bool {
    claim.len() >= 2 && claim[0] == '"' && claim[claim.len() - 1] == '"'
}

/// Whether `claim` is a JSON object that begins with a key and ends with the
/// value `null`: the text between `{"` and `":null}` is then its only key,
/// unless that text holds a quote itself.
pub open spec fn is_unit_object(claim: Seq<char>) -> bool {
    let len = claim.len() as int;
    &&& len >= 9
    &&& claim[0] == '{'
    &&& claim[1] == '"'
    &&& claim[len - 7] == '"'
    &&& claim[len - 6] == ':'
    &&& claim[len - 5] == 'n'
    &&& claim[len - 4] == 'u'
    &&& claim[len - 3] == 'l'
    &&& claim[len - 2] == 'l'
    &&& claim[len - 1] == '}'
}

/// The name that a command claim carries, the claim being compact JSON
/// text. A command is written either as its name, `"lock"`, or as the
/// object with the name as its only key and nothing as its value,
/// `{"lock":null}`.
pub open spec fn name_of_claim(claim: Seq<char>) -> Option<Seq<char>> {
    if is_quoted(claim) {
        Some(claim.subrange(1, claim.len() - 1))
    } else if is_unit_object(claim) {
        Some(claim.subrange(2, claim.len() - 7))
    } else {
        None
    }
}

/// The command that a command claim stands for.
pub open spec fn command_of_claim(claim: Seq<char>) -> Option<Command> {
    match name_of_claim(claim) {
        Some(name) => command_of_name(name),
        None => None,
    }
}

/// The name `name` as JSON text.
pub open spec fn quoted(name: Seq<char>) -> Seq<char> {
    seq!['"'] + name + seq!['"']
}

/// The JSON object with `name` as its only key and `null` as its value.
pub open spec fn unit_object(name: Seq<char>) -> Seq<char> {
    seq!['{', '"'] + name + seq!['"', ':', 'n', 'u', 'l', 'l', '}']
}

impl Command {
    /// Reads a command from its claim in a command envelope, given as
    /// compact JSON text.
    pub fn from_claim(claim: &str) -> (res: Option<Command>)
        ensures
            res == command_of_claim(claim@),
    {
        let len: usize = claim.unicode_len();
        if len >= 2 && claim.get_char(0) == '"' && claim.get_char(len - 1) == '"' {
            Command::from_name(claim.substring_char(1, len - 1))
        } else if len >= 9 && claim.get_char(0) == '{' && claim.get_char(1) == '"' && claim.get_char(
            len - 7,
        ) == '"' && claim.get_char(len - 6) == ':' && claim.get_char(len - 5) == 'n'
            && claim.get_char(len - 4) == 'u' && claim.get_char(len - 3) == 'l' && claim.get_char(
            len - 2,
        ) == 'l' && claim.get_char(len - 1) == '}' {
            Command::from_name(claim.substring_char(2, len - 7))
        } else {
            None
        }
    }
}

/// Both ways of writing a command give the command of the name, and text
/// that is written in neither way gives none.
pub proof fn lemma_claim_forms(name: Seq<char>, claim: Seq<char>)
    ensures
        command_of_claim(quoted(name)) == command_of_name(name),
        command_of_claim(unit_object(name)) == command_of_name(name),
        command_of_claim(claim) is Some ==> exists|known: Seq<char>|
            command_of_name(known) is Some && (claim == quoted(known) || claim == unit_object(
                known,
            )),
{
    let q = quoted(name);
    assert(q[0] == '"' && q[q.len() - 1] == '"');
    assert(q.subrange(1, q.len() - 1) =~= name);
    let u = unit_object(name);
    let len = u.len() as int;
    assert(u[0] == '{' && u[1] == '"');
    assert(u[len - 7] == '"' && u[len - 6] == ':' && u[len - 5] == 'n' && u[len - 4] == 'u');
    assert(u[len - 3] == 'l' && u[len - 2] == 'l' && u[len - 1] == '}');
    assert(u.subrange(2, len - 7) =~= name);
    if command_of_claim(claim) is Some {
        let known = name_of_claim(claim)->Some_0;
        if is_quoted(claim) {
            assert(claim =~= quoted(known));
        } else {
            assert(claim =~= unit_object(known));
        }
    }
}

/// Every command is read back from its own name, so no two commands share
/// one.
pub proof fn lemma_command_name_round_trip(command: Command)
    ensures
        command_of_name(command.spec_name()) == Some(command),
{
    reveal_strlit("lock");
    reveal_strlit("unlock");
    reveal_strlit("window_left_up");
    reveal_strlit("window_left_down");
    reveal_strlit("window_right_up");
    reveal_strlit("window_right_down");
    reveal_strlit("off");
    reveal_strlit("radio");
    reveal_strlit("engine");
    reveal_strlit("ignition");
    assert("lock"@.len() == 4 && "unlock"@.len() == 6 && "window_left_up"@.len() == 14);
    assert("window_left_down"@.len() == 16 && "window_right_up"@.len() == 15);
    assert("window_right_down"@.len() == 17 && "off"@.len() == 3 && "radio"@.len() == 5);
    assert("engine"@.len() == 6 && "ignition"@.len() == 8);
    assert("unlock"@[0] == 'u' && "engine"@[0] == 'e');
}

/// Encoding an engine state and decoding the byte gives the state back, and
/// the bytes that decode are exactly `0..=3`.
pub proof fn lemma_engine_wire_round_trip(state: EngineCommand, byte: u8)
    ensures
        engine_of_byte(state.spec_wire_byte()) == Some(state),
        engine_of_byte(byte) is Some <==> byte <= 3,
        engine_of_byte(byte) matches Some(decoded) ==> decoded.spec_wire_byte() == byte,
{
}

/// A door operation is recovered from the characteristic and byte it is
/// written as, and no other write stands for it.
pub proof fn lemma_door_wire_round_trip(door: DoorControllerCommand, characteristic: u128, byte: u8)
    ensures
        door_of_wire(door.spec_characteristic(), door.spec_wire_byte()) == Some(door),
        door_of_wire(characteristic, byte) == Some(door) ==> characteristic
            == door.spec_characteristic() && byte == door.spec_wire_byte(),
{
}

/// The engine states are ordered as their wire bytes are, and the door relays
/// have power exactly from `Engine` upwards.
pub proof fn lemma_engine_order(state: EngineCommand)
    ensures
        state.spec_powers_doors() <==> state.spec_wire_byte() >= EngineCommand::Engine.spec_wire_byte(),
{
}

} // verus!
