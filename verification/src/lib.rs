//! Bambu Lab printer emulator: the verified core.
//!
//! The library models the state of an emulated Bambu Lab X1 Carbon with a
//! four-slot AMS, the configuration of the emulator, the messages of the
//! printer's MQTT protocol, the rules by which requests change the state and
//! the stage machine of the print simulation.

pub mod broker;
pub mod clock;
pub mod commands;
pub mod config;
pub mod laws;
pub mod messages;
pub mod simulation;
pub mod state;
pub mod text;
pub mod topics;

pub use config::EmulatorConfig;
pub use messages::{ReportMessage, RequestMessage};
pub use state::{GcodeState, PrinterState};
