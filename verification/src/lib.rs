//! Command gateway for a vehicle remote: authenticated text messages are
//! turned into relay commands for two Bluetooth Low Energy peripherals.

pub mod door;
pub mod gateway;
pub mod gatt;
pub mod key;
pub mod link;
pub mod relay;
pub mod schema;
pub mod sequencer;
pub mod session;
pub mod starter;
pub mod text;
pub mod token;
pub mod updater;
