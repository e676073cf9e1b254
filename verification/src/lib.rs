//! Start-up sequencing for a small display firmware.
//!
//! The firmware claims its peripherals, hands the USB controller to a logger
//! task, opens an I2C bus, puts a PCF8574 expander and a character display on
//! it, shows a greeting once and then reports a heartbeat forever. Which of
//! these comes next, with which parameters, and what a fault leads to is
//! decided here; touching the hardware is left to the caller.

pub mod guarantees;
pub mod sequence;
pub mod settings;
pub mod trace;
