//! State of the emulated printer.

pub mod ams;
pub mod printer;
pub mod temperature;

pub use ams::{AmsState, AmsUnit, FilamentTray};
pub use printer::{GcodeState, PrintJob, PrintStage, PrinterModel, PrinterState, SpeedLevel};
pub use temperature::Temperature;
