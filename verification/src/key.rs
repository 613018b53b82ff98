//! The starter's key switch: debouncing the three contacts, reading the key
//! position off them, and filtering out positions the key cannot have.

use crate::starter::KeyPosition;
use vstd::prelude::*;

verus! {

/// The level of an input pin.
#[derive(Debug, Clone, Copy, PartialEq, Eq, Hash, Structural)]
pub enum Level {
    Low,
    High,
}

/// The input pin of the radio contact.
pub const RADIO_IN_PIN: u8 = 0;

/// The input pin of the engine contact. The key switches two engine
/// contacts at once, of which one is listened to.
pub const ENGINE_IN_PIN: u8 = 3;

/// The input pin of the ignition contact.
pub const IGNITION_IN_PIN: u8 = 6;

/// How many equal samples in a row make a level stable, unless told
/// otherwise.
pub const DEBOUNCE_THRESHOLD: u8 = 20;

/// The pause between two samples, in milliseconds, unless told otherwise.
pub const DEBOUNCE_INTERVAL_MS: u64 = 10;

/// After how many corrected jumps from `Engine` to `Off` the key is believed
/// to be off after all.
pub const OFF_OVERWRITE_LIMIT: u8 = 3;

/// The key position that the three contacts show. The ignition contact
/// decides before the engine contact, and that one before the radio contact.
pub open spec fn position_of_levels(radio: Level, engine: Level, ignition: Level) -> KeyPosition {
    if ignition == Level::High {
        KeyPosition::Ignition
    } else if engine == Level::High {
        KeyPosition::Engine
    } else if radio == Level::High {
        KeyPosition::Radio
    } else {
        KeyPosition::Off
    }
}

/// Reads the key position off the three contacts.
pub fn read_key_position(radio: Level, engine: Level, ignition: Level) -> (position: KeyPosition)
    ensures
        position == position_of_levels(radio, engine, ignition),
{
    match (radio, engine, ignition) {
        (Level::Low, Level::Low, Level::Low) => KeyPosition::Off,
        (Level::High, Level::Low, Level::Low) => KeyPosition::Radio,
        (_, Level::High, Level::Low) => KeyPosition::Engine,
        (_, _, Level::High) => KeyPosition::Ignition,
    }
}

/// The position the key is taken to be in when it was in `last` and the
/// contacts now show `raw`. The key cannot go from `Engine` or `Ignition` to
/// `Off` without passing `Radio`: such a reading is a gap between two
/// contacts, and the key is taken to be in `Engine`. Every other reading is
/// believed.
pub open spec fn sound_position(last: KeyPosition, raw: KeyPosition) -> KeyPosition {
    if raw == KeyPosition::Off && (last == KeyPosition::Engine || last == KeyPosition::Ignition) {
        KeyPosition::Engine
    } else {
        raw
    }
}

/// A debounced input: a level counts once it was sampled `threshold` times in
/// a row.
#[derive(Debug, Clone, Copy, PartialEq, Eq)]
pub struct Debounced {
    previous_state: Level,
    debounce_count: u8,
    threshold: u8,
}

/// The mathematical value of a [`Debounced`].
pub struct DebouncedView {
    /// The level sampled last.
    pub previous_state: Level,
    /// How often in a row it was sampled since it last changed or was
    /// reported.
    pub debounce_count: u8,
    pub threshold: u8,
}

impl DebouncedView {
    /// What every debounced input satisfies: the count stays below the
    /// threshold between samples.
    pub open spec fn wf(self) -> bool {
        self.debounce_count == 0 || self.debounce_count < self.threshold
    }

    /// The input after the sample `current`, and the level that is stable
    /// now, if one is.
    pub open spec fn sample(self, current: Level) -> (DebouncedView, Option<Level>) {
        if current == self.previous_state {
            if self.debounce_count + 1 >= self.threshold {
                (DebouncedView { debounce_count: 0, ..self }, Some(self.previous_state))
            } else {
                (DebouncedView { debounce_count: (self.debounce_count + 1) as u8, ..self }, None)
            }
        } else {
            (DebouncedView { debounce_count: 0, previous_state: current, ..self }, None)
        }
    }
}

impl View for Debounced {
    type V = DebouncedView;

    closed spec fn view(&self) -> DebouncedView {
        DebouncedView {
            previous_state: self.previous_state,
            debounce_count: self.debounce_count,
            threshold: self.threshold,
        }
    }
}

impl Debounced {
    #[verifier::type_invariant]
    spec fn valid(&self) -> bool {
        self@.wf()
    }

    /// An input that is taken to be low and has seen no sample yet.
    pub fn new(threshold: u8) -> (input: Debounced)
        ensures
            input@ == (DebouncedView { previous_state: Level::Low, debounce_count: 0, threshold }),
            input@.wf(),
    {
        Debounced { previous_state: Level::Low, debounce_count: 0, threshold }
    }

    /// Takes in one sample. Returns the level once it is stable; until then
    /// the caller waits for the sampling interval and samples again.
    pub fn sample(&mut self, current: Level) -> (stable: Option<Level>)
        ensures
            (final(self)@, stable) == old(self)@.sample(current),
            final(self)@.wf(),
    {
        proof {
            use_type_invariant(&*self);
        }
        if current == self.previous_state {
            if self.debounce_count + 1 >= self.threshold {
                self.debounce_count = 0;
                Some(self.previous_state)
            } else {
                self.debounce_count = self.debounce_count + 1;
                None
            }
        } else {
            *self = Debounced {
                previous_state: current,
                debounce_count: 0,
                threshold: self.threshold,
            };
            None
        }
    }
}

/// The key switch as the relays are told of it.
#[derive(Debug, Clone, Copy, PartialEq, Eq)]
pub struct KeyListener {
    last_position: KeyPosition,
    off_overwrite_count: u8,
    last_signal: KeyPosition,
}

/// The mathematical value of a [`KeyListener`].
pub struct KeyListenerView {
    /// The position the key was last taken to be in.
    pub last_position: KeyPosition,
    /// How many jumps from `Engine` to `Off` were corrected since the key was
    /// last believed to be off.
    pub off_overwrite_count: u8,
    /// The position that was last signalled.
    pub last_signal: KeyPosition,
}

impl KeyListenerView {
    /// What every listener satisfies: the count of corrections stays within
    /// its limit between readings.
    pub open spec fn wf(self) -> bool {
        self.off_overwrite_count <= OFF_OVERWRITE_LIMIT
    }

    /// The listener after the contacts showed `raw`, and the position to
    /// signal, if it differs from the one signalled last.
    ///
    /// A jump from `Engine` to `Off` is corrected to `Engine` and counted;
    /// with the fourth such jump the key is believed to be off and the count
    /// starts again.
    pub open spec fn observe(self, raw: KeyPosition) -> (KeyListenerView, Option<KeyPosition>) {
        let corrected = sound_position(self.last_position, raw);
        let count = if self.last_position == KeyPosition::Engine && raw == KeyPosition::Off {
            self.off_overwrite_count + 1
        } else {
            self.off_overwrite_count as int
        };
        let gives_in = count > OFF_OVERWRITE_LIMIT && corrected == KeyPosition::Engine;
        let position = if gives_in {
            KeyPosition::Off
        } else {
            corrected
        };
        let after = KeyListenerView {
            last_position: position,
            off_overwrite_count: if gives_in {
                0
            } else {
                count as u8
            },
            last_signal: position,
        };
        (
            after,
            if position != self.last_signal {
                Some(position)
            } else {
                None
            },
        )
    }
}

impl View for KeyListener {
    type V = KeyListenerView;

    closed spec fn view(&self) -> KeyListenerView {
        KeyListenerView {
            last_position: self.last_position,
            off_overwrite_count: self.off_overwrite_count,
            last_signal: self.last_signal,
        }
    }
}

impl KeyListener {
    #[verifier::type_invariant]
    spec fn valid(&self) -> bool {
        self@.wf()
    }

    /// A listener for a key that is off and was signalled as off.
    pub fn new() -> (listener: KeyListener)
        ensures
            listener@ == (KeyListenerView {
                last_position: KeyPosition::Off,
                off_overwrite_count: 0,
                last_signal: KeyPosition::Off,
            }),
    {
        KeyListener {
            last_position: KeyPosition::Off,
            off_overwrite_count: 0,
            last_signal: KeyPosition::Off,
        }
    }

    /// Takes in the stable levels of the three contacts. Returns the key
    /// position to signal to the relays, if it has changed.
    pub fn observe(&mut self, radio: Level, engine: Level, ignition: Level) -> (signal: Option<
        KeyPosition,
    >)
        ensures
            (final(self)@, signal) == old(self)@.observe(position_of_levels(radio, engine, ignition)),
            final(self)@.wf(),
    {
        proof {
            use_type_invariant(&*self);
        }
        let raw = read_key_position(radio, engine, ignition);
        let last = self.last_position;
        let mut count: u8 = self.off_overwrite_count;
        let mut position = match (last, raw) {
            (KeyPosition::Ignition, KeyPosition::Off) => KeyPosition::Engine,
            (KeyPosition::Engine, KeyPosition::Off) => {
                count = count + 1;
                KeyPosition::Engine
            },
            _ => raw,
        };
        if count > OFF_OVERWRITE_LIMIT && position == KeyPosition::Engine {
            position = KeyPosition::Off;
            count = 0;
        }
        let changed = position != self.last_signal;
        *self = KeyListener {
            last_position: position,
            off_overwrite_count: count,
            last_signal: position,
        };
        if changed {
            Some(position)
        } else {
            None
        }
    }
}

/// A level is reported exactly when it was sampled `threshold` times in a row
/// since the last change or report, and a changed level is never reported
/// with the sample that shows the change.
pub proof fn lemma_debounce_reports_stable_level(input: DebouncedView, current: Level)
    requires
        input.wf(),
    ensures
        ({
            let (after, stable) = input.sample(current);
            &&& after.wf()
            &&& after.threshold == input.threshold
            &&& stable is Some <==> current == input.previous_state && input.debounce_count + 1
                >= input.threshold
            &&& stable matches Some(level) ==> level == current && after.debounce_count == 0
            &&& current != input.previous_state ==> stable is None && after.previous_state == current
        }),
{
}

/// The filtered position is what the contacts show, except that the key is
/// never taken from `Engine` or `Ignition` straight to `Off` unless the
/// jump from `Engine` was seen for the fourth time; and a position is
/// signalled exactly when it differs from the last one signalled.
pub proof fn lemma_key_filter(listener: KeyListenerView, raw: KeyPosition)
    requires
        listener.wf(),
    ensures
        ({
            let (after, signal) = listener.observe(raw);
            &&& after.wf()
            &&& after.last_signal == after.last_position
            &&& signal is Some <==> after.last_position != listener.last_signal
            &&& signal matches Some(position) ==> position == after.last_position
            &&& raw != KeyPosition::Off ==> after.last_position == raw
            &&& after.last_position != raw ==> after.last_position == KeyPosition::Engine
            &&& listener.last_position == KeyPosition::Ignition && raw == KeyPosition::Off
                ==> after.last_position == KeyPosition::Engine
            &&& listener.last_position == KeyPosition::Engine && raw == KeyPosition::Off ==> (
            after.last_position == KeyPosition::Off <==> listener.off_overwrite_count
                == OFF_OVERWRITE_LIMIT)
        }),
{
}

} // verus!
