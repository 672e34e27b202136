//! Verified core of the espresso-machine controller: the decisions and data
//! handling of the firmware, apart from its floating-point signal processing
//! and its hardware I/O.
pub mod channels;
pub mod check;
pub mod config;
pub mod control;
pub mod heater;
pub mod leds;
pub mod monitor;
pub mod pump;
pub mod smith;
pub mod switch;
pub mod valve;

pub use channels::{SwitchEvent, ValveCommand};
pub use heater::{determine_heater_state, HeaterState, TempBand};
pub use pump::PumpState;
pub use smith::RingBuffer;
pub use switch::Switch;
pub use valve::Valve;
