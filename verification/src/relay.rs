//! The starter's four relays: in which order they are switched to bring the
//! circuit into an engine state, and who decides that state, the key in the
//! lock or a request over Bluetooth.

use crate::starter::{EngineState, KeyPosition};
use vstd::prelude::*;

verus! {

/// Seconds the relays rest after the circuit was switched on request.
pub const COOLDOWN_SECS: u64 = 2;

/// Seconds the ignition relay stays powered to start the engine on request.
pub const IGNITION_SECS: u64 = 1;

/// One of the four relays.
#[derive(Debug, Clone, Copy, PartialEq, Eq, Hash, Structural)]
pub enum RelayId {
    Radio,
    Engine,
    EngineConsumers,
    Ignition,
}

/// The output pin that the radio relay hangs on.
pub const RADIO_OUT_PIN: u8 = 10;

/// The output pin that the engine relay hangs on.
pub const ENGINE_OUT_PIN: u8 = 21;

/// The output pin that the relay of the engine's consumers hangs on.
pub const ENGINE_CONSUMERS_OUT_PIN: u8 = 7;

/// The output pin that the ignition relay hangs on.
pub const IGNITION_OUT_PIN: u8 = 20;

impl RelayId {
    /// The output pin of this relay.
    pub open spec fn spec_pin(self) -> u8 {
        match self {
            RelayId::Radio => RADIO_OUT_PIN,
            RelayId::Engine => ENGINE_OUT_PIN,
            RelayId::EngineConsumers => ENGINE_CONSUMERS_OUT_PIN,
            RelayId::Ignition => IGNITION_OUT_PIN,
        }
    }

    /// The output pin of this relay.
    pub fn pin(&self) -> (pin: u8)
        ensures
            pin == self.spec_pin(),
    {
        match self {
            RelayId::Radio => RADIO_OUT_PIN,
            RelayId::Engine => ENGINE_OUT_PIN,
            RelayId::EngineConsumers => ENGINE_CONSUMERS_OUT_PIN,
            RelayId::Ignition => IGNITION_OUT_PIN,
        }
    }
}

/// One relay: powered while its pin is high.
#[derive(Debug, Clone, Copy, PartialEq, Eq, Structural)]
pub struct Relay {
    pub powered: bool,
}

impl Relay {
    /// Takes the power off the relay.
    pub fn unpower(&mut self)
        ensures
            !final(self).powered,
    {
        self.powered = false;
    }

    /// Powers the relay.
    pub fn power(&mut self)
        ensures
            final(self).powered,
    {
        self.powered = true;
    }

    /// Whether the relay is without power.
    pub fn is_unpowered(&self) -> (res: bool)
        ensures
            res == !self.powered,
    {
        !self.powered
    }

    /// Whether the relay is powered.
    pub fn is_powered(&self) -> (res: bool)
        ensures
            res == self.powered,
    {
        self.powered
    }
}

/// One thing to do to the relays.
#[derive(Debug, Clone, Copy, PartialEq, Eq, Structural)]
pub enum RelayOp {
    /// Power the relay.
    Power(RelayId),
    /// Take the power off the relay.
    Unpower(RelayId),
    /// Leave the relays as they are for this many seconds.
    Wait(u64),
}

/// Which of the four relays are powered.
#[derive(Debug, Clone, Copy, PartialEq, Eq, Structural)]
pub struct Relays {
    pub radio: bool,
    pub engine: bool,
    pub engine_consumers: bool,
    pub ignition: bool,
}

impl Relays {
    /// The relays with `id` powered or not.
    pub open spec fn with(self, id: RelayId, powered: bool) -> Relays {
        match id {
            RelayId::Radio => Relays { radio: powered, ..self },
            RelayId::Engine => Relays { engine: powered, ..self },
            RelayId::EngineConsumers => Relays { engine_consumers: powered, ..self },
            RelayId::Ignition => Relays { ignition: powered, ..self },
        }
    }

    /// The relays after `op`.
    pub open spec fn apply(self, op: RelayOp) -> Relays {
        match op {
            RelayOp::Power(id) => self.with(id, true),
            RelayOp::Unpower(id) => self.with(id, false),
            RelayOp::Wait(_) => self,
        }
    }

    /// The relays after all of `ops`, in order.
    pub open spec fn apply_all(self, ops: Seq<RelayOp>) -> Relays
        decreases ops.len(),
    {
        if ops.len() == 0 {
            self
        } else {
            self.apply(ops[0]).apply_all(ops.drop_first())
        }
    }
}

impl Relays {
    /// The relay `id`.
    pub fn relay(&self, id: RelayId) -> (relay: Relay)
        ensures
            self.with(id, relay.powered) == *self,
    {
        match id {
            RelayId::Radio => Relay { powered: self.radio },
            RelayId::Engine => Relay { powered: self.engine },
            RelayId::EngineConsumers => Relay { powered: self.engine_consumers },
            RelayId::Ignition => Relay { powered: self.ignition },
        }
    }

    /// Carries out `op` on these relays. A wait changes nothing here: it is
    /// the caller who lets the time pass.
    pub fn perform(&mut self, op: RelayOp)
        ensures
            *final(self) == old(self).apply(op),
    {
        match op {
            RelayOp::Power(RelayId::Radio) => {
                self.radio = true;
            },
            RelayOp::Power(RelayId::Engine) => {
                self.engine = true;
            },
            RelayOp::Power(RelayId::EngineConsumers) => {
                self.engine_consumers = true;
            },
            RelayOp::Power(RelayId::Ignition) => {
                self.ignition = true;
            },
            RelayOp::Unpower(RelayId::Radio) => {
                self.radio = false;
            },
            RelayOp::Unpower(RelayId::Engine) => {
                self.engine = false;
            },
            RelayOp::Unpower(RelayId::EngineConsumers) => {
                self.engine_consumers = false;
            },
            RelayOp::Unpower(RelayId::Ignition) => {
                self.ignition = false;
            },
            RelayOp::Wait(_) => {},
        }
    }
}

/// The pause after switching: none when the key decides, the cooldown when a
/// request does.
pub open spec fn cooldown(skip_cooldown: bool) -> u64 {
    if skip_cooldown {
        0
    } else {
        COOLDOWN_SECS
    }
}

/// What is done to the relays to bring the circuit into `state`.
///
/// To run the engine everything is switched off first, then radio, engine
/// and ignition are powered. On request the ignition is let go after a
/// moment and the consumers are powered; when the key decides, the ignition
/// stays powered for as long as the key is held there.
pub open spec fn switching(state: EngineState, skip_cooldown: bool) -> Seq<RelayOp> {
    match state {
        EngineState::Off => seq![
            RelayOp::Unpower(RelayId::Ignition),
            RelayOp::Unpower(RelayId::Engine),
            RelayOp::Unpower(RelayId::EngineConsumers),
            RelayOp::Unpower(RelayId::Radio),
            RelayOp::Wait(cooldown(skip_cooldown)),
        ],
        EngineState::Radio => seq![
            RelayOp::Unpower(RelayId::Ignition),
            RelayOp::Unpower(RelayId::Engine),
            RelayOp::Unpower(RelayId::EngineConsumers),
            RelayOp::Power(RelayId::Radio),
            RelayOp::Wait(cooldown(skip_cooldown)),
        ],
        EngineState::Engine => seq![
            RelayOp::Unpower(RelayId::Ignition),
            RelayOp::Power(RelayId::Radio),
            RelayOp::Power(RelayId::Engine),
            RelayOp::Power(RelayId::EngineConsumers),
            RelayOp::Wait(cooldown(skip_cooldown)),
        ],
        EngineState::Running => if skip_cooldown {
            seq![
                RelayOp::Unpower(RelayId::Ignition),
                RelayOp::Unpower(RelayId::Engine),
                RelayOp::Unpower(RelayId::EngineConsumers),
                RelayOp::Unpower(RelayId::Radio),
                RelayOp::Wait(0),
                RelayOp::Power(RelayId::Radio),
                RelayOp::Power(RelayId::Engine),
                RelayOp::Power(RelayId::Ignition),
            ]
        } else {
            seq![
                RelayOp::Unpower(RelayId::Ignition),
                RelayOp::Unpower(RelayId::Engine),
                RelayOp::Unpower(RelayId::EngineConsumers),
                RelayOp::Unpower(RelayId::Radio),
                RelayOp::Wait(COOLDOWN_SECS),
                RelayOp::Power(RelayId::Radio),
                RelayOp::Power(RelayId::Engine),
                RelayOp::Power(RelayId::Ignition),
                RelayOp::Wait(IGNITION_SECS),
                RelayOp::Unpower(RelayId::Ignition),
                RelayOp::Power(RelayId::EngineConsumers),
            ]
        },
    }
}

/// The relays once the circuit was brought into `state`.
pub open spec fn settled(state: EngineState, skip_cooldown: bool) -> Relays {
    match state {
        EngineState::Off => Relays {
            radio: false,
            engine: false,
            engine_consumers: false,
            ignition: false,
        },
        EngineState::Radio => Relays {
            radio: true,
            engine: false,
            engine_consumers: false,
            ignition: false,
        },
        EngineState::Engine => Relays {
            radio: true,
            engine: true,
            engine_consumers: true,
            ignition: false,
        },
        EngineState::Running => Relays {
            radio: true,
            engine: true,
            engine_consumers: !skip_cooldown,
            ignition: skip_cooldown,
        },
    }
}

/// The engine state that the relays show: a running engine where it was
/// started, else what the engine relay and the radio relay say.
pub open spec fn shown_state(relays: Relays, engine_running: bool) -> EngineState {
    if engine_running {
        EngineState::Running
    } else if relays.engine {
        EngineState::Engine
    } else if relays.radio {
        EngineState::Radio
    } else {
        EngineState::Off
    }
}

/// The relays and what is known of who switched them last.
#[derive(Debug, Clone, Copy, PartialEq, Eq)]
pub struct RelayHandler {
    relays: Relays,
    engine_running: bool,
    last_key_position: KeyPosition,
    current_state: EngineState,
    current_state_set_by_relay: bool,
}

/// The mathematical value of a [`RelayHandler`].
pub struct RelayHandlerView {
    pub relays: Relays,
    /// Whether the engine was started and not stopped since.
    pub engine_running: bool,
    /// The key position that was signalled last.
    pub last_key_position: KeyPosition,
    /// The state the circuit was last brought into.
    pub current_state: EngineState,
    /// Whether that state was asked for over Bluetooth rather than by the
    /// key.
    pub current_state_set_by_relay: bool,
}

impl RelayHandlerView {
    /// The handler after the circuit was brought into `state`.
    pub open spec fn set_state(self, state: EngineState, skip_cooldown: bool) -> RelayHandlerView {
        RelayHandlerView {
            relays: settled(state, skip_cooldown),
            engine_running: state == EngineState::Running,
            current_state: state,
            ..self
        }
    }

    /// Whether a key that moves to `key` is passed over: the key coming back
    /// to `Radio` does not stop an engine that a request switched on.
    pub open spec fn key_is_ignored(self, key: KeyPosition) -> bool {
        key == KeyPosition::Radio && self.current_state_set_by_relay && (self.current_state
            == EngineState::Running || self.current_state == EngineState::Engine)
    }

    /// The handler after the key moved to `key`, and the state the circuit
    /// is brought into, if any. The key switches without cooldown.
    pub open spec fn on_key_position(self, key: KeyPosition) -> (
        RelayHandlerView,
        Option<EngineState>,
    ) {
        let heard = RelayHandlerView {
            engine_running: self.engine_running && key != KeyPosition::Ignition,
            last_key_position: key,
            ..self
        };
        if self.key_is_ignored(key) {
            (heard, None)
        } else {
            (
                RelayHandlerView { current_state_set_by_relay: false, ..heard }.set_state(
                    key.spec_as_engine_state(),
                    true,
                ),
                Some(key.spec_as_engine_state()),
            )
        }
    }

    /// The handler after `requested` was asked for over Bluetooth, and the
    /// state the circuit is brought into, if any. A request counts only
    /// while the key is off.
    pub open spec fn on_ble_request(self, requested: EngineState) -> (
        RelayHandlerView,
        Option<EngineState>,
    ) {
        if self.last_key_position != KeyPosition::Off {
            (self, None)
        } else {
            (
                RelayHandlerView { current_state_set_by_relay: true, ..self }.set_state(
                    requested,
                    false,
                ),
                Some(requested),
            )
        }
    }
}

impl View for RelayHandler {
    type V = RelayHandlerView;

    closed spec fn view(&self) -> RelayHandlerView {
        RelayHandlerView {
            relays: self.relays,
            engine_running: self.engine_running,
            last_key_position: self.last_key_position,
            current_state: self.current_state,
            current_state_set_by_relay: self.current_state_set_by_relay,
        }
    }
}

/// The switching operations and, where the circuit is switched at all, the
/// state to report.
pub open spec fn ops_view(ops: Option<Vec<RelayOp>>) -> Option<Seq<RelayOp>> {
    match ops {
        Some(ops) => Some(ops@),
        None => None,
    }
}

/// The switching for the state that was decided on, if one was.
pub open spec fn switching_for(decided: Option<EngineState>, skip_cooldown: bool) -> Option<
    Seq<RelayOp>,
> {
    match decided {
        Some(state) => Some(switching(state, skip_cooldown)),
        None => None,
    }
}

/// What is done to the relays to bring the circuit into `state`.
pub fn switching_ops(state: EngineState, skip_cooldown: bool) -> (ops: Vec<RelayOp>)
    ensures
        ops@ == switching(state, skip_cooldown),
{
    let pause: u64 = if skip_cooldown {
        0
    } else {
        COOLDOWN_SECS
    };
    let mut ops: Vec<RelayOp> = Vec::new();
    ops.push(RelayOp::Unpower(RelayId::Ignition));
    match state {
        EngineState::Off => {
            ops.push(RelayOp::Unpower(RelayId::Engine));
            ops.push(RelayOp::Unpower(RelayId::EngineConsumers));
            ops.push(RelayOp::Unpower(RelayId::Radio));
            ops.push(RelayOp::Wait(pause));
        },
        EngineState::Radio => {
            ops.push(RelayOp::Unpower(RelayId::Engine));
            ops.push(RelayOp::Unpower(RelayId::EngineConsumers));
            ops.push(RelayOp::Power(RelayId::Radio));
            ops.push(RelayOp::Wait(pause));
        },
        EngineState::Engine => {
            ops.push(RelayOp::Power(RelayId::Radio));
            ops.push(RelayOp::Power(RelayId::Engine));
            ops.push(RelayOp::Power(RelayId::EngineConsumers));
            ops.push(RelayOp::Wait(pause));
        },
        EngineState::Running => {
            ops.push(RelayOp::Unpower(RelayId::Engine));
            ops.push(RelayOp::Unpower(RelayId::EngineConsumers));
            ops.push(RelayOp::Unpower(RelayId::Radio));
            ops.push(RelayOp::Wait(pause));
            ops.push(RelayOp::Power(RelayId::Radio));
            ops.push(RelayOp::Power(RelayId::Engine));
            ops.push(RelayOp::Power(RelayId::Ignition));
            if !skip_cooldown {
                ops.push(RelayOp::Wait(IGNITION_SECS));
                ops.push(RelayOp::Unpower(RelayId::Ignition));
                ops.push(RelayOp::Power(RelayId::EngineConsumers));
            }
        },
    }
    proof {
        assert(ops@ =~= switching(state, skip_cooldown));
    }
    ops
}

impl RelayHandler {
    /// A handler for relays that are all unpowered, with the key off.
    pub fn new() -> (handler: RelayHandler)
        ensures
            handler@ == (RelayHandlerView {
                relays: settled(EngineState::Off, true),
                engine_running: false,
                last_key_position: KeyPosition::Off,
                current_state: EngineState::Off,
                current_state_set_by_relay: false,
            }),
    {
        RelayHandler {
            relays: Relays { radio: false, engine: false, engine_consumers: false, ignition: false },
            engine_running: false,
            last_key_position: KeyPosition::Off,
            current_state: EngineState::Off,
            current_state_set_by_relay: false,
        }
    }

    /// Brings the circuit into `state`. Returns what is to be done to the
    /// relays, in order; the handler is as it will be once that is done, and
    /// `state` is then to be reported.
    pub fn set_state(&mut self, state: EngineState, skip_cooldown: bool) -> (ops: Vec<RelayOp>)
        ensures
            ops@ == switching(state, skip_cooldown),
            final(self)@ == old(self)@.set_state(state, skip_cooldown),
            final(self)@.relays == old(self)@.relays.apply_all(ops@),
    {
        let ops = switching_ops(state, skip_cooldown);
        proof {
            lemma_switching_settles(self.relays, state, skip_cooldown);
        }
        self.relays = match state {
            EngineState::Off => Relays {
                radio: false,
                engine: false,
                engine_consumers: false,
                ignition: false,
            },
            EngineState::Radio => Relays {
                radio: true,
                engine: false,
                engine_consumers: false,
                ignition: false,
            },
            EngineState::Engine => Relays {
                radio: true,
                engine: true,
                engine_consumers: true,
                ignition: false,
            },
            EngineState::Running => Relays {
                radio: true,
                engine: true,
                engine_consumers: !skip_cooldown,
                ignition: skip_cooldown,
            },
        };
        self.engine_running = match state {
            EngineState::Running => true,
            _ => false,
        };
        self.current_state = state;
        ops
    }

    /// The engine state that the relays show.
    pub fn state(&self) -> (state: EngineState)
        ensures
            state == shown_state(self@.relays, self@.engine_running),
    {
        if self.engine_running {
            EngineState::Running
        } else if self.relays.engine {
            EngineState::Engine
        } else if self.relays.radio {
            EngineState::Radio
        } else {
            EngineState::Off
        }
    }

    /// The state the circuit was last brought into.
    pub fn current_state(&self) -> (state: EngineState)
        ensures
            state == self@.current_state,
    {
        self.current_state
    }

    /// Takes in a move of the key. Returns what is to be done to the relays,
    /// or nothing where the move is passed over.
    pub fn on_key_position(&mut self, key: KeyPosition) -> (ops: Option<Vec<RelayOp>>)
        ensures
            final(self)@ == old(self)@.on_key_position(key).0,
            ops_view(ops) == switching_for(old(self)@.on_key_position(key).1, true),
    {
        match key {
            KeyPosition::Ignition => {
                self.engine_running = false;
            },
            _ => {},
        }
        self.last_key_position = key;
        let by_request_on = self.current_state_set_by_relay && match self.current_state {
            EngineState::Running | EngineState::Engine => true,
            _ => false,
        };
        let back_to_radio = match key {
            KeyPosition::Radio => true,
            _ => false,
        };
        if back_to_radio && by_request_on {
            None
        } else {
            self.current_state_set_by_relay = false;
            Some(self.set_state(key.as_engine_state(), true))
        }
    }

    /// Takes in a state asked for over Bluetooth. Returns what is to be
    /// done to the relays, or nothing where the key overrules the request.
    pub fn on_ble_request(&mut self, requested: EngineState) -> (ops: Option<Vec<RelayOp>>)
        ensures
            final(self)@ == old(self)@.on_ble_request(requested).0,
            ops_view(ops) == switching_for(old(self)@.on_ble_request(requested).1, false),
    {
        match self.last_key_position {
            KeyPosition::Off => {
                self.current_state_set_by_relay = true;
                Some(self.set_state(requested, false))
            },
            _ => None,
        }
    }
}

/// Whatever the relays were, the switching for a state leaves them as that
/// state has them, and they then show that state.
pub proof fn lemma_switching_settles(relays: Relays, state: EngineState, skip_cooldown: bool)
    ensures
        relays.apply_all(switching(state, skip_cooldown)) == settled(state, skip_cooldown),
        shown_state(settled(state, skip_cooldown), state == EngineState::Running) == state,
{
    reveal_with_fuel(Relays::apply_all, 12);
}

/// While the key is in any position but off, no request over Bluetooth
/// touches the relays; and a key that moves anywhere but back to `Radio`
/// always gets its way.
pub proof fn lemma_key_overrules_request(
    handler: RelayHandlerView,
    key: KeyPosition,
    requested: EngineState,
)
    ensures
        handler.last_key_position != KeyPosition::Off ==> handler.on_ble_request(requested) == (
            handler,
            None::<EngineState>,
        ),
        key != KeyPosition::Radio ==> handler.on_key_position(key).1 == Some(
            key.spec_as_engine_state(),
        ) && handler.on_key_position(key).0.current_state == key.spec_as_engine_state()
            && !handler.on_key_position(key).0.current_state_set_by_relay,
        handler.on_key_position(key).0.last_key_position == key,
        key == KeyPosition::Ignition ==> handler.on_key_position(key).0.engine_running,
{
}

} // verus!
