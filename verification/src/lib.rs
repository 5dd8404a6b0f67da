//! Driver and link-layer protocol stack for the ST25R3911B contactless
//! (NFC) front-end chip: chip control (power and field modes,
//! initialization, calibration), the low-power card-presence wake-up
//! subsystem, an ISO14443A frame transceiver, and an ISO-DEP (ISO14443-4)
//! block-transport layer on top of it.
//!
//! The driver consumes three interfaces supplied by its user — the
//! byte-level bus, the interrupt line and a time source — and never blocks
//! except where a wait is part of the design: bounded polls against a
//! deadline, and the one deliberately unbounded sleep of the wake-up mode.

use vstd::prelude::*;

pub mod commands;
pub mod driver;
pub mod interface;
pub mod interrupts;
pub mod iso14443a;
pub mod iso_dep;
pub mod regs;
pub mod wakeup;

use interface::{Interface, IrqPin, Timer};

verus! {

/// An error of the chip controller.
#[derive(Debug, Clone, Copy, PartialEq, Eq)]
pub enum Error<T> {
    /// The bus transport failed; always fatal to the current call.
    Interface(T),
    /// A bounded wait expired before the chip reported completion.
    Timeout,
    /// The capacitive-sensor calibration reported a hardware fault.  This is
    /// an unrecoverable device error, surfaced as its own variant so that a
    /// caller can tell it from an ordinary timeout and fail fast.
    Calibration,
}

/// The controller's power mode.  Transitions run only through the documented
/// entry points: `mode_on`, `mode_off` and the wake-up entry.
#[derive(Debug, Clone, Copy, PartialEq, Eq, Structural)]
pub enum Mode {
    /// Bus running, analog front-end off: the safe initial and terminal state.
    Off,
    /// Ready: oscillator running, field operations allowed.
    On,
    /// Low-power card-presence detection.
    Wakeup,
}

/// The ST25R3911B chip controller.  It owns the bus, the interrupt line and
/// the time source for the driver's lifetime, together with the current
/// power mode and the accumulated interrupt bitmap, which stays stale until
/// explicitly refreshed and is cleared only by an explicit clear.
pub struct St25r39<I: Interface, P: IrqPin, T: Timer> {
    iface: I,
    irq: P,
    timer: T,
    irqs: u32,
    mode: Mode,
}

impl<I: Interface, P: IrqPin, T: Timer> St25r39<I, P, T> {
    /// The accumulated interrupt bitmap.
    pub closed spec fn irq_bits(self) -> u32 {
        self.irqs
    }

    /// The current power mode.
    pub closed spec fn current_mode(self) -> Mode {
        self.mode
    }

    /// The chip's register map.
    pub fn regs(&self) -> regs::Regs {
        regs::Regs::new()
    }
}

} // verus!
