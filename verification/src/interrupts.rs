//! The chip's interrupt sources and their positions in the accumulated
//! interrupt bitmap.
//!
//! The three interrupt status registers are read as consecutive bytes and
//! OR-combined into one 32-bit accumulator; an interrupt's bit number is its
//! position in that accumulator.

use vstd::prelude::*;

verus! {

/// One interrupt source of the chip.
#[derive(Debug, Clone, Copy, PartialEq, Eq, Structural)]
pub enum Interrupt {
    /// IRQ due to error and wake-up timer
    ErrWup,
    /// IRQ due to timer or NFC event
    Tim,
    /// Bit collision
    Col,
    /// End of transmission
    Txe,
    /// End of receive
    Rxe,
    /// Start of receive
    Rxs,
    /// FIFO water level
    Fwl,
    /// Oscillator stable
    Osc,
    /// Initiator bit rate recognised
    Nfct,
    /// Minimum guard time expired
    Cat,
    /// Collision during RF collision avoidance
    Cac,
    /// External field off
    Eof,
    /// External field on
    Eon,
    /// General purpose timer expired
    Gpe,
    /// No-response timer expired
    Nre,
    /// Termination of direct command
    Dct,
    /// Wake-up due to capacitance measurement
    Wcap,
    /// Wake-up due to phase measurement
    Wph,
    /// Wake-up due to amplitude measurement
    Wam,
    /// Wake-up timer
    Wt,
    /// Hard framing error
    Err1,
    /// Soft framing error
    Err2,
    /// Parity error
    Par,
    /// CRC error
    Crc,
}

/// The interrupt's bit position in the accumulated bitmap.
pub open spec fn interrupt_bit(i: Interrupt) -> u32 {
    match i {
        Interrupt::ErrWup => 0,
        Interrupt::Tim => 1,
        Interrupt::Col => 2,
        Interrupt::Txe => 3,
        Interrupt::Rxe => 4,
        Interrupt::Rxs => 5,
        Interrupt::Fwl => 6,
        Interrupt::Osc => 7,
        Interrupt::Nfct => 8,
        Interrupt::Cat => 9,
        Interrupt::Cac => 10,
        Interrupt::Eof => 11,
        Interrupt::Eon => 12,
        Interrupt::Gpe => 13,
        Interrupt::Nre => 14,
        Interrupt::Dct => 15,
        Interrupt::Wcap => 16,
        Interrupt::Wph => 17,
        Interrupt::Wam => 18,
        Interrupt::Wt => 19,
        Interrupt::Err1 => 20,
        Interrupt::Err2 => 21,
        Interrupt::Par => 22,
        Interrupt::Crc => 23,
    }
}

impl Interrupt {
    /// The interrupt's bit position in the accumulated bitmap; always below 24.
    pub fn bit(self) -> (r: u32)
        ensures
            r == interrupt_bit(self),
            r < 24,
    {
        match self {
            Interrupt::ErrWup => 0,
            Interrupt::Tim => 1,
            Interrupt::Col => 2,
            Interrupt::Txe => 3,
            Interrupt::Rxe => 4,
            Interrupt::Rxs => 5,
            Interrupt::Fwl => 6,
            Interrupt::Osc => 7,
            Interrupt::Nfct => 8,
            Interrupt::Cat => 9,
            Interrupt::Cac => 10,
            Interrupt::Eof => 11,
            Interrupt::Eon => 12,
            Interrupt::Gpe => 13,
            Interrupt::Nre => 14,
            Interrupt::Dct => 15,
            Interrupt::Wcap => 16,
            Interrupt::Wph => 17,
            Interrupt::Wam => 18,
            Interrupt::Wt => 19,
            Interrupt::Err1 => 20,
            Interrupt::Err2 => 21,
            Interrupt::Par => 22,
            Interrupt::Crc => 23,
        }
    }
}

/// Whether the interrupt's bit is set in the accumulated bitmap `bits`.
pub open spec fn irq_set(bits: u32, i: Interrupt) -> bool {
    bits & (1u32 << interrupt_bit(i)) != 0
}

} // verus!
