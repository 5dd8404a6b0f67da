//! The chip's direct commands and their opcodes.

use vstd::prelude::*;

verus! {

/// A direct command: a one-byte opcode that triggers an action in the chip.
#[derive(Debug, Clone, Copy, PartialEq, Eq, Structural)]
pub enum Command {
    /// Puts the chip in default state (same as after power-up)
    SetDefault,
    /// Stops all activities and clears FIFO
    Stop,
    /// Stops all activities and clears FIFO (alias opcode)
    Clear,
    /// Transmit with CRC
    TransmitWithCrc,
    /// Transmit without CRC
    TransmitWithoutCrc,
    /// Transmit REQA
    TransmitReqa,
    /// Transmit WUPA
    TransmitWupa,
    /// NFC transmit with Initial RF Collision Avoidance
    InitialRfCollision,
    /// NFC transmit with Response RF Collision Avoidance
    ResponseRfCollisionN,
    /// NFC transmit with Response RF Collision Avoidance with n=0
    ResponseRfCollisionNzero,
    /// Accepted in NFCIP-1 active communication bitrate detection mode
    GotoNormalNFCMode,
    /// Presets Rx and Tx configuration based on the mode and bit rate registers
    PresetAnalog,
    /// Mask receive data
    MaskReceiveData,
    /// Unmask receive data
    UnmaskReceiveData,
    /// Measure signal amplitude on RFI inputs
    MeasureAmplitude,
    /// Performs gain reduction based on the current noise level
    Squelch,
    /// Reset RX Gain
    ResetRxgain,
    /// Adjust regulators
    AdjustRegulators,
    /// Activates Tx, measures the modulation depth, and adapts it
    CalibrateModDepth,
    /// Calibrates antenna
    CalibrateAntenna,
    /// Measure phase between RFO and RFI signal
    MeasurePhase,
    /// Clear RSSI bits and restart the measurement
    ClearRssi,
    /// Transparent mode: amplitude on RFI inputs into the A/D output register
    TransparentMode,
    /// Calibrate the capacitive sensor
    CalibrateCSensor,
    /// Measure capacitance sensor
    MeasureCapacitance,
    /// Measure power supply voltage
    MeasureVdd,
    /// Start the general purpose timer
    StartGpTimer,
    /// Start the wake-up timer
    StartWupTimer,
    /// Start the mask-receive timer
    StartMaskReceiveTimer,
    /// Start the no-response timer
    StartNoResponseTimer,
    /// Stop the no-response timer
    StopNrt,
    /// Enable R/W access to the test registers
    TestAccess,
}

/// The opcode of each direct command.
pub open spec fn command_code(c: Command) -> u8 {
    match c {
        Command::SetDefault => 0xC1,
        Command::Stop => 0xC2,
        Command::Clear => 0xC3,
        Command::TransmitWithCrc => 0xC4,
        Command::TransmitWithoutCrc => 0xC5,
        Command::TransmitReqa => 0xC6,
        Command::TransmitWupa => 0xC7,
        Command::InitialRfCollision => 0xC8,
        Command::ResponseRfCollisionN => 0xC9,
        Command::ResponseRfCollisionNzero => 0xCA,
        Command::GotoNormalNFCMode => 0xCB,
        Command::PresetAnalog => 0xCC,
        Command::MaskReceiveData => 0xD0,
        Command::UnmaskReceiveData => 0xD1,
        Command::MeasureAmplitude => 0xD3,
        Command::Squelch => 0xD4,
        Command::ResetRxgain => 0xD5,
        Command::AdjustRegulators => 0xD6,
        Command::CalibrateModDepth => 0xD7,
        Command::CalibrateAntenna => 0xD8,
        Command::MeasurePhase => 0xD9,
        Command::ClearRssi => 0xDA,
        Command::TransparentMode => 0xDC,
        Command::CalibrateCSensor => 0xDD,
        Command::MeasureCapacitance => 0xDE,
        Command::MeasureVdd => 0xDF,
        Command::StartGpTimer => 0xE0,
        Command::StartWupTimer => 0xE1,
        Command::StartMaskReceiveTimer => 0xE2,
        Command::StartNoResponseTimer => 0xE3,
        Command::StopNrt => 0xE8,
        Command::TestAccess => 0xFC,
    }
}

impl Command {
    /// The command's one-byte opcode.
    pub fn code(self) -> (r: u8)
        ensures
            r == command_code(self),
    {
        match self {
            Command::SetDefault => 0xC1,
            Command::Stop => 0xC2,
            Command::Clear => 0xC3,
            Command::TransmitWithCrc => 0xC4,
            Command::TransmitWithoutCrc => 0xC5,
            Command::TransmitReqa => 0xC6,
            Command::TransmitWupa => 0xC7,
            Command::InitialRfCollision => 0xC8,
            Command::ResponseRfCollisionN => 0xC9,
            Command::ResponseRfCollisionNzero => 0xCA,
            Command::GotoNormalNFCMode => 0xCB,
            Command::PresetAnalog => 0xCC,
            Command::MaskReceiveData => 0xD0,
            Command::UnmaskReceiveData => 0xD1,
            Command::MeasureAmplitude => 0xD3,
            Command::Squelch => 0xD4,
            Command::ResetRxgain => 0xD5,
            Command::AdjustRegulators => 0xD6,
            Command::CalibrateModDepth => 0xD7,
            Command::CalibrateAntenna => 0xD8,
            Command::MeasurePhase => 0xD9,
            Command::ClearRssi => 0xDA,
            Command::TransparentMode => 0xDC,
            Command::CalibrateCSensor => 0xDD,
            Command::MeasureCapacitance => 0xDE,
            Command::MeasureVdd => 0xDF,
            Command::StartGpTimer => 0xE0,
            Command::StartWupTimer => 0xE1,
            Command::StartMaskReceiveTimer => 0xE2,
            Command::StartNoResponseTimer => 0xE3,
            Command::StopNrt => 0xE8,
            Command::TestAccess => 0xFC,
        }
    }
}

} // verus!
