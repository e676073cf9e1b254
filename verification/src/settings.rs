//! The fixed parameters of the board: what each driver is built with.

use vstd::prelude::*;

verus! {

/// Clock of the display's I2C bus, in hertz.
pub const DISPLAY_FREQ: u32 = 200_000;

/// GPIO number of the bus's data line.
pub const SDA_PIN: u8 = 4;

/// GPIO number of the bus's clock line.
pub const SCL_PIN: u8 = 5;

/// Bytes the logger may hold back while the host drains the USB pipe.
pub const LOG_BUFFER_SIZE: usize = 1024;

/// Settle budget handed to the display driver's reliable initialisation.
pub const RELIABLE_INIT_BUDGET: u32 = 10_000;

/// The text shown on the display once start-up is through.
pub const GREETING: &'static str = "Hello World";

/// The text of a heartbeat line.
pub const HEARTBEAT_TEXT: &'static str = "Working";

/// Seconds between two heartbeat lines.
pub const HEARTBEAT_SECS: u64 = 10;

/// Severity of a log record, most severe first.
#[derive(Clone, Copy, Debug, PartialEq, Eq, Structural)]
pub enum Severity {
    Error,
    Warn,
    Info,
    Debug,
    Trace,
}

/// Whether the display shows its cursor.
#[derive(Clone, Copy, Debug, PartialEq, Eq, Structural)]
pub enum Cursor {
    On,
    Off,
}

/// What the I2C bus is opened with. Every field of the driver's
/// configuration that is not named here keeps the driver's default.
#[derive(Clone, Copy, Debug, PartialEq, Eq, Structural)]
pub struct BusConfig {
    pub frequency: u32,
}

/// The wiring of the bus: which GPIO carries which line.
#[derive(Clone, Copy, Debug, PartialEq, Eq, Structural)]
pub struct BusPins {
    pub sda: u8,
    pub scl: u8,
}

/// Levels of the expander's three address-select lines.
#[derive(Clone, Copy, Debug, PartialEq, Eq, Structural)]
pub struct ExpanderAddress {
    pub a0: bool,
    pub a1: bool,
    pub a2: bool,
}

/// Options of the display driver's builder.
#[derive(Clone, Copy, Debug, PartialEq, Eq, Structural)]
pub struct LcdOptions {
    pub cursor: Cursor,
    pub reliable_init: u32,
}

/// Parameters of the USB logger task.
#[derive(Clone, Copy, Debug, PartialEq, Eq, Structural)]
pub struct LoggerOptions {
    pub buffer_size: usize,
    pub min_severity: Severity,
}

impl BusConfig {
    /// The configuration of the display's bus, as a specification value.
    pub open spec fn spec_display() -> BusConfig {
        BusConfig { frequency: DISPLAY_FREQ }
    }

    /// The configuration of the display's bus: 200 kHz.
    pub fn display() -> (config: BusConfig)
        ensures
            config == Self::spec_display(),
            config.frequency == 200_000,
    {
        BusConfig { frequency: DISPLAY_FREQ }
    }
}

impl BusPins {
    pub open spec fn spec_display() -> BusPins {
        BusPins { sda: SDA_PIN, scl: SCL_PIN }
    }

    /// The pins the display's bus is wired to: SDA on GPIO 4, SCL on GPIO 5.
    pub fn display() -> (pins: BusPins)
        ensures
            pins == Self::spec_display(),
            pins.sda == 4,
            pins.scl == 5,
    {
        BusPins { sda: SDA_PIN, scl: SCL_PIN }
    }
}

impl ExpanderAddress {
    pub open spec fn spec_board() -> ExpanderAddress {
        ExpanderAddress { a0: true, a1: true, a2: true }
    }

    /// The address straps of this board's expander: all three lines high.
    pub fn board() -> (address: ExpanderAddress)
        ensures
            address == Self::spec_board(),
            address.a0 && address.a1 && address.a2,
    {
        ExpanderAddress { a0: true, a1: true, a2: true }
    }
}

impl LcdOptions {
    pub open spec fn spec_board() -> LcdOptions {
        LcdOptions { cursor: Cursor::Off, reliable_init: RELIABLE_INIT_BUDGET }
    }

    /// The display's options: cursor hidden, reliable initialisation with a
    /// budget of 10,000.
    pub fn board() -> (options: LcdOptions)
        ensures
            options == Self::spec_board(),
            options.cursor == Cursor::Off,
            options.reliable_init == 10_000,
    {
        LcdOptions { cursor: Cursor::Off, reliable_init: RELIABLE_INIT_BUDGET }
    }
}

impl LoggerOptions {
    pub open spec fn spec_usb() -> LoggerOptions {
        LoggerOptions { buffer_size: LOG_BUFFER_SIZE, min_severity: Severity::Info }
    }

    /// The logger's parameters: a 1024-byte buffer, records from `Info` up.
    pub fn usb() -> (options: LoggerOptions)
        ensures
            options == Self::spec_usb(),
            options.buffer_size == 1024,
            options.min_severity == Severity::Info,
    {
        LoggerOptions { buffer_size: LOG_BUFFER_SIZE, min_severity: Severity::Info }
    }
}

} // verus!
