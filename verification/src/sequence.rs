//! The order of the firmware's work, as a machine that the caller drives.
//!
//! A [`Phase`] names the piece of work that is outstanding. The caller asks
//! the phase for its [`Action`], carries it out on the hardware, and reports
//! the [`Outcome`]; [`Phase::advance`] then names the phase that follows.

use vstd::prelude::*;
use crate::settings::{BusConfig, BusPins, ExpanderAddress, LcdOptions, LoggerOptions, Severity,
    GREETING, HEARTBEAT_SECS, HEARTBEAT_TEXT};

verus! {

/// The piece of work that is outstanding.
#[derive(Clone, Copy, Debug, PartialEq, Eq, Structural)]
pub enum Phase {
    /// Nothing is claimed yet; the peripherals are to be taken.
    Bootstrap,
    /// The USB logger task is to be spawned.
    Logger,
    /// The I2C bus is to be opened.
    Bus,
    /// The expander is to be put on the bus.
    Expander,
    /// The display driver is to be built on the expander.
    Display,
    /// The greeting is to be shown.
    Greeting,
    /// Heartbeat: the log line is to be emitted.
    Beat,
    /// Heartbeat: the pause between two lines is to be taken.
    Rest,
    /// A fault during start-up stopped the firmware for good.
    Halted,
}

/// How the caller's attempt at an action ended.
#[derive(Clone, Copy, Debug, PartialEq, Eq, Structural)]
pub enum Outcome {
    Completed,
    Failed,
}

/// What the caller is to do next.
#[derive(Clone, Copy, Debug, PartialEq, Eq)]
pub enum Action {
    /// Take ownership of every peripheral, with the default configuration.
    ClaimPeripherals,
    /// Hand the USB controller to a detached logger task.
    SpawnLogger(LoggerOptions),
    /// Open the blocking I2C bus on the given pins.
    OpenBus { pins: BusPins, config: BusConfig },
    /// Wrap the bus in a PCF8574 expander at the given address straps.
    AttachExpander(ExpanderAddress),
    /// Build the display driver on the expander, with a delay provider.
    BuildDisplay(LcdOptions),
    /// Write the text to the display.
    Print(&'static str),
    /// Emit one log record.
    Log { severity: Severity, text: &'static str },
    /// Suspend the task for this many seconds.
    Sleep { secs: u64 },
    /// Stop: nothing more is to be done.
    Halt,
}

impl Action {
    /// Whether carrying the action out takes hold of the USB controller:
    /// claiming the peripherals takes it with all the others, and spawning
    /// the logger hands it to the task for good.
    pub open spec fn takes_usb(self) -> bool {
        self is ClaimPeripherals || self is SpawnLogger
    }
}

impl Phase {
    /// The phase a freshly reset firmware is in.
    pub open spec fn spec_start() -> Phase {
        Phase::Bootstrap
    }

    /// Whether the phase belongs to the heartbeat loop.
    pub open spec fn in_heartbeat(self) -> bool {
        self is Beat || self is Rest
    }

    /// Whether a fault in this phase is fatal. The heartbeat has no failure
    /// path, and a halted firmware does nothing that could fail.
    pub open spec fn can_fail(self) -> bool {
        !self.in_heartbeat() && !(self is Halted)
    }

    /// The phase that follows when this phase's action went well.
    pub open spec fn successor(self) -> Phase {
        match self {
            Phase::Bootstrap => Phase::Logger,
            Phase::Logger => Phase::Bus,
            Phase::Bus => Phase::Expander,
            Phase::Expander => Phase::Display,
            Phase::Display => Phase::Greeting,
            Phase::Greeting => Phase::Beat,
            Phase::Beat => Phase::Rest,
            Phase::Rest => Phase::Beat,
            Phase::Halted => Phase::Halted,
        }
    }

    /// The phase that follows this one, given how its action ended.
    pub open spec fn spec_advance(self, outcome: Outcome) -> Phase {
        if outcome is Failed && self.can_fail() {
            Phase::Halted
        } else {
            self.successor()
        }
    }

    /// The phase a freshly reset firmware is in.
    pub fn start() -> (phase: Phase)
        ensures
            phase == Phase::spec_start(),
    {
        Phase::Bootstrap
    }

    /// Whether the firmware has stopped for good.
    pub fn is_halted(self) -> (halted: bool)
        ensures
            halted == (self is Halted),
    {
        match self {
            Phase::Halted => true,
            _ => false,
        }
    }

    /// The action this phase asks of the caller.
    pub open spec fn spec_action(self) -> Action {
        match self {
            Phase::Bootstrap => Action::ClaimPeripherals,
            Phase::Logger => Action::SpawnLogger(LoggerOptions::spec_usb()),
            Phase::Bus => Action::OpenBus {
                pins: BusPins::spec_display(),
                config: BusConfig::spec_display(),
            },
            Phase::Expander => Action::AttachExpander(ExpanderAddress::spec_board()),
            Phase::Display => Action::BuildDisplay(LcdOptions::spec_board()),
            Phase::Greeting => Action::Print(GREETING),
            Phase::Beat => Action::Log { severity: Severity::Info, text: HEARTBEAT_TEXT },
            Phase::Rest => Action::Sleep { secs: HEARTBEAT_SECS },
            Phase::Halted => Action::Halt,
        }
    }

    /// The action this phase asks of the caller.
    pub fn action(self) -> (action: Action)
        ensures
            action == self.spec_action(),
    {
        match self {
            Phase::Bootstrap => Action::ClaimPeripherals,
            Phase::Logger => Action::SpawnLogger(LoggerOptions::usb()),
            Phase::Bus => Action::OpenBus { pins: BusPins::display(), config: BusConfig::display() },
            Phase::Expander => Action::AttachExpander(ExpanderAddress::board()),
            Phase::Display => Action::BuildDisplay(LcdOptions::board()),
            Phase::Greeting => Action::Print(GREETING),
            Phase::Beat => Action::Log { severity: Severity::Info, text: HEARTBEAT_TEXT },
            Phase::Rest => Action::Sleep { secs: HEARTBEAT_SECS },
            Phase::Halted => Action::Halt,
        }
    }

    /// The phase that follows, once the caller has carried out this phase's
    /// action and seen how it ended. A fault during start-up halts; the
    /// heartbeat goes on whatever is reported.
    pub fn advance(self, outcome: Outcome) -> (next: Phase)
        ensures
            next == self.spec_advance(outcome),
    {
        match (self, outcome) {
            (Phase::Halted, _) => Phase::Halted,
            (Phase::Beat, _) => Phase::Rest,
            (Phase::Rest, _) => Phase::Beat,
            (_, Outcome::Failed) => Phase::Halted,
            (Phase::Bootstrap, Outcome::Completed) => Phase::Logger,
            (Phase::Logger, Outcome::Completed) => Phase::Bus,
            (Phase::Bus, Outcome::Completed) => Phase::Expander,
            (Phase::Expander, Outcome::Completed) => Phase::Display,
            (Phase::Display, Outcome::Completed) => Phase::Greeting,
            (Phase::Greeting, Outcome::Completed) => Phase::Beat,
        }
    }
}

} // verus!
