//! The three interfaces the driver consumes, each supplied by its user:
//! the byte-level bus to the chip, the interrupt line, and a time source.

use vstd::prelude::*;

verus! {

/// Byte-level register, direct-command and FIFO access to the chip over the
/// host bus.  An implementation wraps the concrete transport (SPI or I2C);
/// every method is fallible with the transport's own error type.
pub trait Interface {
    type Error;

    /// Reads the register at `addr`.
    fn read_reg(&mut self, addr: u8) -> Result<u8, Self::Error>;

    /// Writes `val` to the register at `addr`.
    fn write_reg(&mut self, addr: u8, val: u8) -> Result<(), Self::Error>;

    /// Issues the direct command with opcode `cmd`.
    fn do_command(&mut self, cmd: u8) -> Result<(), Self::Error>;

    /// Reads `buf.len()` bytes out of the chip's FIFO into `buf`.  An
    /// implementation fills the buffer in place and leaves its length
    /// unchanged.
    fn read_fifo(&mut self, buf: &mut Vec<u8>) -> (r: Result<(), Self::Error>)
        ensures
            final(buf)@.len() == old(buf)@.len(),
    ;

    /// Pushes the bytes of `buf` into the chip's FIFO.
    fn write_fifo(&mut self, buf: &[u8]) -> Result<(), Self::Error>;
}

/// The chip's interrupt request line.
pub trait IrqPin {
    /// Suspends the calling flow until the line's next rising edge.  This is
    /// the driver's one deliberately unbounded wait: the low-power sleep of
    /// the wake-up subsystem.
    fn wait_for_high(&mut self);
}

/// A monotonic time source with a cooperative yield point.  Every bounded
/// wait in the driver is a poll loop that checks this clock against a
/// deadline and yields between polls.
pub trait Timer {
    /// Milliseconds since an arbitrary fixed origin; never decreases.
    fn now_ms(&mut self) -> u64;

    /// Hands control to other work for a moment; a pure hint, with no
    /// effect the driver relies on.
    fn yield_now(&mut self);
}

} // verus!
