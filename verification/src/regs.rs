//! Typed access to the chip's 8-bit register file.
//!
//! Each register is a transparent wrapper over one byte; its accessors
//! extract or place the documented bit fields, masking each value to the
//! field's full width.  `Regs` maps each register
//! name to its bus address, and `Reg` couples one address with the typed
//! view of the byte behind it.

use vstd::prelude::*;

use crate::Error;
use crate::interface::Interface;

verus! {

/// A typed view of one 8-bit register: conversion to and from the raw byte.
pub trait RegValue: Sized {
    /// The raw byte that this value stands for.
    spec fn bits(self) -> u8;

    fn from_bits(val: u8) -> (r: Self)
        ensures
            r.bits() == val,
    ;

    fn to_bits(self) -> (r: u8)
        ensures
            r == self.bits(),
    ;
}

impl RegValue for u8 {
    open spec fn bits(self) -> u8 {
        self
    }

    fn from_bits(val: u8) -> (r: Self) {
        val
    }

    fn to_bits(self) -> (r: u8) {
        self
    }
}

/// One register: its bus address under the typed view of its byte.
pub struct Reg<T: RegValue> {
    pub addr: u8,
    pub value_kind: core::marker::PhantomData<T>,
}

impl<T: RegValue> Reg<T> {
    pub fn new(addr: u8) -> (r: Self)
        ensures
            r.addr == addr,
    {
        Self { addr, value_kind: core::marker::PhantomData }
    }

    /// Reads the register's current byte over `iface` and returns it under
    /// its typed view.
    pub fn read<I: Interface>(&self, iface: &mut I) -> (r: Result<T, Error<I::Error>>)
        ensures
            r matches Err(e) ==> e matches Error::Interface(_),
    {
        match iface.read_reg(self.addr) {
            Ok(v) => Ok(T::from_bits(v)),
            Err(e) => Err(Error::Interface(e)),
        }
    }

    /// Writes the given value's byte to the register over `iface`.
    pub fn write_value<I: Interface>(&self, iface: &mut I, val: T) -> (r: Result<
        (),
        Error<I::Error>,
    >)
        ensures
            r matches Err(e) ==> e matches Error::Interface(_),
    {
        match iface.write_reg(self.addr, val.to_bits()) {
            Ok(()) => Ok(()),
            Err(e) => Err(Error::Interface(e)),
        }
    }

    /// Reads the register, applies `f` to the value, and writes the result
    /// back.
    pub fn modify<I: Interface, F: FnOnce(T) -> T>(&self, iface: &mut I, f: F) -> (r: Result<
        (),
        Error<I::Error>,
    >)
        requires
            forall|v: T| #[trigger] call_requires(f, (v,)),
        ensures
            r matches Err(e) ==> e matches Error::Interface(_),
    {
        let v = self.read(iface)?;
        let out = f(v);
        self.write_value(iface, out)
    }

    /// Builds a value by applying `f` to the register's all-zero reset
    /// value, then writes it, without reading the register first.
    pub fn write<I: Interface, F: FnOnce(T) -> T>(&self, iface: &mut I, f: F) -> (r: Result<
        (),
        Error<I::Error>,
    >)
        requires
            forall|v: T| #[trigger] call_requires(f, (v,)),
        ensures
            r matches Err(e) ==> e matches Error::Interface(_),
    {
        let out = f(T::from_bits(0));
        self.write_value(iface, out)
    }
}

/// The chip's register map: one descriptor per register, each pinned to its
/// documented bus address.
pub struct Regs;

impl Regs {
    pub fn new() -> Regs {
        Regs
    }

    /// IO configuration register 1
    pub fn io_conf1(&self) -> (r: Reg<IoConf1>)
        ensures
            r.addr == 0,
    {
        Reg::new(0)
    }

    /// IO configuration register 2
    pub fn io_conf2(&self) -> (r: Reg<IoConf2>)
        ensures
            r.addr == 1,
    {
        Reg::new(1)
    }

    /// Operation control register
    pub fn op_control(&self) -> (r: Reg<OpControl>)
        ensures
            r.addr == 2,
    {
        Reg::new(2)
    }

    /// Mode definition register
    pub fn mode(&self) -> (r: Reg<Mode>)
        ensures
            r.addr == 3,
    {
        Reg::new(3)
    }

    /// Bit rate definition register
    pub fn bit_rate(&self) -> (r: Reg<BitRate>)
        ensures
            r.addr == 4,
    {
        Reg::new(4)
    }

    /// ISO14443A and NFC 106kb/s settings register
    pub fn iso14443a_nfc(&self) -> (r: Reg<Iso14443ANfc>)
        ensures
            r.addr == 5,
    {
        Reg::new(5)
    }

    /// ISO14443B settings register 1
    pub fn iso14443b_1(&self) -> (r: Reg<Iso14443B1>)
        ensures
            r.addr == 6,
    {
        Reg::new(6)
    }

    /// ISO14443B and FeliCa settings register
    pub fn iso14443b_2(&self) -> (r: Reg<Iso14443B2>)
        ensures
            r.addr == 7,
    {
        Reg::new(7)
    }

    /// Stream mode definition register
    pub fn stream_mode(&self) -> (r: Reg<StreamMode>)
        ensures
            r.addr == 8,
    {
        Reg::new(8)
    }

    /// Auxiliary definition register
    pub fn aux(&self) -> (r: Reg<Aux>)
        ensures
            r.addr == 9,
    {
        Reg::new(9)
    }

    /// Receiver configuration register 1
    pub fn rx_conf1(&self) -> (r: Reg<RxConf1>)
        ensures
            r.addr == 10,
    {
        Reg::new(10)
    }

    /// Receiver configuration register 2
    pub fn rx_conf2(&self) -> (r: Reg<RxConf2>)
        ensures
            r.addr == 11,
    {
        Reg::new(11)
    }

    /// Receiver configuration register 3
    pub fn rx_conf3(&self) -> (r: Reg<RxConf3>)
        ensures
            r.addr == 12,
    {
        Reg::new(12)
    }

    /// Receiver configuration register 4
    pub fn rx_conf4(&self) -> (r: Reg<RxConf4>)
        ensures
            r.addr == 13,
    {
        Reg::new(13)
    }

    /// Mask receive timer register
    pub fn mask_rx_timer(&self) -> (r: Reg<MaskRxTimer>)
        ensures
            r.addr == 14,
    {
        Reg::new(14)
    }

    /// No-response timer register 1
    pub fn no_response_timer1(&self) -> (r: Reg<NoResponseTimer1>)
        ensures
            r.addr == 15,
    {
        Reg::new(15)
    }

    /// No-response timer register 2
    pub fn no_response_timer2(&self) -> (r: Reg<u8>)
        ensures
            r.addr == 16,
    {
        Reg::new(16)
    }

    /// General purpose and no-response timer control register
    pub fn gpt_nrt_ctrl(&self) -> (r: Reg<GptNrtCtrl>)
        ensures
            r.addr == 17,
    {
        Reg::new(17)
    }

    /// General purpose timer register 1
    pub fn gpt1(&self) -> (r: Reg<u8>)
        ensures
            r.addr == 18,
    {
        Reg::new(18)
    }

    /// General purpose timer register 2
    pub fn gpt2(&self) -> (r: Reg<u8>)
        ensures
            r.addr == 19,
    {
        Reg::new(19)
    }

    /// Main interrupt register mask, combined wth offset to other irq mask regs
    pub fn irq_mask(&self, n: u8) -> (r: Reg<u8>)
        requires
            n < 3,
        ensures
            r.addr == 20 + n,
    {
        Reg::new(20 + n)
    }

    /// Main interrupt register mask
    pub fn irq_mask_main(&self) -> (r: Reg<IrqMaskMain>)
        ensures
            r.addr == 20,
    {
        Reg::new(20)
    }

    /// Mask timer and NFC interrupt register
    pub fn irq_mask_timer_nfc(&self) -> (r: Reg<IrqMaskTimerNfc>)
        ensures
            r.addr == 21,
    {
        Reg::new(21)
    }

    /// Mask error and wake-up interrupt register
    pub fn irq_mask_error_wup(&self) -> (r: Reg<IrqMaskErrorWup>)
        ensures
            r.addr == 22,
    {
        Reg::new(22)
    }

    /// Main interrupt register
    pub fn irq_main_direct(&self) -> (r: Reg<IrqMain>)
        ensures
            r.addr == 23,
    {
        Reg::new(23)
    }

    /// Main interrupt register, combined with offset to other regs
    pub fn irq_main(&self, n: u8) -> (r: Reg<u8>)
        requires
            n < 3,
        ensures
            r.addr == 23 + n,
    {
        Reg::new(23 + n)
    }

    /// Mask timer and NFC interrupt register
    pub fn irq_timer_nfc(&self) -> (r: Reg<IrqTimerNfc>)
        ensures
            r.addr == 24,
    {
        Reg::new(24)
    }

    /// Error and wake-up interrupt register
    pub fn irq_error_wup(&self) -> (r: Reg<u8>)
        ensures
            r.addr == 25,
    {
        Reg::new(25)
    }

    /// FIFO status register 1
    pub fn fifo_status1(&self) -> (r: Reg<u8>)
        ensures
            r.addr == 26,
    {
        Reg::new(26)
    }

    /// FIFO status register 2
    pub fn fifo_status2(&self) -> (r: Reg<FifoStatus2>)
        ensures
            r.addr == 27,
    {
        Reg::new(27)
    }

    /// Collision display register
    pub fn collision_status(&self) -> (r: Reg<CollisionStatus>)
        ensures
            r.addr == 28,
    {
        Reg::new(28)
    }

    /// Number of transmitted bytes register 1
    pub fn num_tx_bytes1(&self) -> (r: Reg<u8>)
        ensures
            r.addr == 29,
    {
        Reg::new(29)
    }

    /// Number of transmitted bytes register 2
    pub fn num_tx_bytes2(&self) -> (r: Reg<NumTxBytes2>)
        ensures
            r.addr == 30,
    {
        Reg::new(30)
    }

    /// NFCIP bit rate detection display register
    pub fn nfcip1_bit_rate_disp(&self) -> (r: Reg<Nfcip1BitRateDisp>)
        ensures
            r.addr == 31,
    {
        Reg::new(31)
    }

    /// A/D converter output register
    pub fn ad_result(&self) -> (r: Reg<u8>)
        ensures
            r.addr == 32,
    {
        Reg::new(32)
    }

    /// Antenna calibration control register
    pub fn ant_tune_ctrl(&self) -> (r: Reg<AntTuneCtrl>)
        ensures
            r.addr == 33,
    {
        Reg::new(33)
    }

    /// Antenna calibration target register
    pub fn ant_tune_target(&self) -> (r: Reg<u8>)
        ensures
            r.addr == 34,
    {
        Reg::new(34)
    }

    /// Antenna calibration display register
    pub fn ant_tune_disp(&self) -> (r: Reg<AntTuneDisp>)
        ensures
            r.addr == 35,
    {
        Reg::new(35)
    }

    /// AM modulation depth control register
    pub fn am_mod_depth_ctrl(&self) -> (r: Reg<AmModDepthCtrl>)
        ensures
            r.addr == 36,
    {
        Reg::new(36)
    }

    /// AM modulation depth display register
    pub fn am_mod_depth_disp(&self) -> (r: Reg<u8>)
        ensures
            r.addr == 37,
    {
        Reg::new(37)
    }

    /// RFO AM modulated level definition register
    pub fn rfo_am_mod_level_def(&self) -> (r: Reg<RfoAmLevelDef>)
        ensures
            r.addr == 38,
    {
        Reg::new(38)
    }

    /// RFO normal level definition register
    pub fn rfo_normal_level_def(&self) -> (r: Reg<RfoAmLevelDef>)
        ensures
            r.addr == 39,
    {
        Reg::new(39)
    }

    /// External field detector threshold register
    pub fn ext_field_det_thr(&self) -> (r: Reg<ExtFieldDetThr>)
        ensures
            r.addr == 41,
    {
        Reg::new(41)
    }

    /// Regulator voltage control register
    pub fn regulator_volt_control(&self) -> (r: Reg<RegulatorVoltControl>)
        ensures
            r.addr == 42,
    {
        Reg::new(42)
    }

    /// Regulator and timer display register
    pub fn regulator_and_tim_disp(&self) -> (r: Reg<RegulatorAndTimDisp>)
        ensures
            r.addr == 43,
    {
        Reg::new(43)
    }

    /// RSSI display register
    pub fn rssi_result(&self) -> (r: Reg<RssiResult>)
        ensures
            r.addr == 44,
    {
        Reg::new(44)
    }

    /// Gain reduction state register
    pub fn gain_redu_state(&self) -> (r: Reg<GainReduState>)
        ensures
            r.addr == 45,
    {
        Reg::new(45)
    }

    /// Capacitive sensor control register
    pub fn cap_sensor_control(&self) -> (r: Reg<CapSensorControl>)
        ensures
            r.addr == 46,
    {
        Reg::new(46)
    }

    /// Capacitive sensor display register
    pub fn cap_sensor_result(&self) -> (r: Reg<CapSensorDisp>)
        ensures
            r.addr == 47,
    {
        Reg::new(47)
    }

    /// Auxiliary display register
    pub fn aux_display(&self) -> (r: Reg<AuxDisplay>)
        ensures
            r.addr == 48,
    {
        Reg::new(48)
    }

    /// Wake-up timer control register
    pub fn wup_timer_control(&self) -> (r: Reg<WupTimerControl>)
        ensures
            r.addr == 49,
    {
        Reg::new(49)
    }

    /// Amplitude measurement configuration register
    pub fn amplitude_measure_conf(&self) -> (r: Reg<AmplitudeMeasureConf>)
        ensures
            r.addr == 50,
    {
        Reg::new(50)
    }

    /// Amplitude measurement reference register
    pub fn amplitude_measure_ref(&self) -> (r: Reg<u8>)
        ensures
            r.addr == 51,
    {
        Reg::new(51)
    }

    /// Amplitude measurement auto-averaging display
    pub fn amplitude_measure_auto_avg_disp(&self) -> (r: Reg<u8>)
        ensures
            r.addr == 52,
    {
        Reg::new(52)
    }

    /// Amplitude measurement display
    pub fn amplitude_measure_disp(&self) -> (r: Reg<u8>)
        ensures
            r.addr == 53,
    {
        Reg::new(53)
    }

    /// Phase measurement configuration
    pub fn phase_measure_conf(&self) -> (r: Reg<PhaseMeasureConf>)
        ensures
            r.addr == 54,
    {
        Reg::new(54)
    }

    /// Phase measurement reference
    pub fn phase_measure_ref(&self) -> (r: Reg<u8>)
        ensures
            r.addr == 55,
    {
        Reg::new(55)
    }

    /// Phase measurement auto-averaging display
    pub fn phase_measure_auto_avg_disp(&self) -> (r: Reg<u8>)
        ensures
            r.addr == 56,
    {
        Reg::new(56)
    }

    /// Phase measurement display
    pub fn phase_measure_disp(&self) -> (r: Reg<u8>)
        ensures
            r.addr == 57,
    {
        Reg::new(57)
    }

    /// Capacitance measurement configuration
    pub fn capacitance_measure_conf(&self) -> (r: Reg<CapacitanceMeasureConf>)
        ensures
            r.addr == 58,
    {
        Reg::new(58)
    }

    /// Capacitance measurement reference
    pub fn capacitance_measure_ref(&self) -> (r: Reg<u8>)
        ensures
            r.addr == 59,
    {
        Reg::new(59)
    }

    /// Capacitance measurement auto-averaging display
    pub fn capacitance_measure_auto_avg_disp(&self) -> (r: Reg<u8>)
        ensures
            r.addr == 60,
    {
        Reg::new(60)
    }

    /// Capacitance measurement display
    pub fn capacitance_measure_disp(&self) -> (r: Reg<u8>)
        ensures
            r.addr == 61,
    {
        Reg::new(61)
    }

    /// IC identity register
    pub fn ic_identity(&self) -> (r: Reg<IcIdentity>)
        ensures
            r.addr == 63,
    {
        Reg::new(63)
    }

}

#[derive(Debug, Clone, Copy, PartialEq, Eq, Structural)]
pub struct AmplitudeMeasureConf(pub u8);

impl AmplitudeMeasureConf {
    pub fn am_ae(&self) -> (r: bool)
        ensures
            r == (((self.0 >> 0) & 1) != 0),
    {
        let val = (self.0 >> 0) & 1;
        val != 0
    }

    pub fn am_aew(&self) -> (r: u8)
        ensures
            r == ((self.0 >> 1) & 3),
    {
        let val = (self.0 >> 1) & 3;
        val
    }

    pub fn am_aam(&self) -> (r: bool)
        ensures
            r == (((self.0 >> 3) & 1) != 0),
    {
        let val = (self.0 >> 3) & 1;
        val != 0
    }

    pub fn am_d(&self) -> (r: u8)
        ensures
            r == ((self.0 >> 4) & 15),
    {
        let val = (self.0 >> 4) & 15;
        val
    }

    pub fn set_am_ae(&mut self, val: bool)
        ensures
            final(self).0 == ((old(self).0 & !(1u8 << 0)) | (((val as u8) & 1) << 0)),
    {
        self.0 = (self.0 & !(1u8 << 0)) | (((val as u8) & 1) << 0);
    }

    pub fn set_am_aew(&mut self, val: u8)
        ensures
            final(self).0 == ((old(self).0 & !(3u8 << 1)) | ((val & 3) << 1)),
    {
        self.0 = (self.0 & !(3u8 << 1)) | ((val & 3) << 1);
    }

    pub fn set_am_aam(&mut self, val: bool)
        ensures
            final(self).0 == ((old(self).0 & !(1u8 << 3)) | (((val as u8) & 1) << 3)),
    {
        self.0 = (self.0 & !(1u8 << 3)) | (((val as u8) & 1) << 3);
    }

    pub fn set_am_d(&mut self, val: u8)
        ensures
            final(self).0 == ((old(self).0 & !(15u8 << 4)) | ((val & 15) << 4)),
    {
        self.0 = (self.0 & !(15u8 << 4)) | ((val & 15) << 4);
    }
}

impl RegValue for AmplitudeMeasureConf {
    open spec fn bits(self) -> u8 {
        self.0
    }

    fn from_bits(val: u8) -> (r: Self) {
        AmplitudeMeasureConf(val)
    }

    fn to_bits(self) -> (r: u8) {
        self.0
    }
}

#[derive(Debug, Clone, Copy, PartialEq, Eq, Structural)]
pub struct AmModDepthCtrl(pub u8);

impl AmModDepthCtrl {
    pub fn modd(&self) -> (r: u8)
        ensures
            r == ((self.0 >> 1) & 63),
    {
        let val = (self.0 >> 1) & 63;
        val
    }

    pub fn am_s(&self) -> (r: bool)
        ensures
            r == (((self.0 >> 7) & 1) != 0),
    {
        let val = (self.0 >> 7) & 1;
        val != 0
    }

    pub fn set_modd(&mut self, val: u8)
        ensures
            final(self).0 == ((old(self).0 & !(63u8 << 1)) | ((val & 63) << 1)),
    {
        self.0 = (self.0 & !(63u8 << 1)) | ((val & 63) << 1);
    }

    pub fn set_am_s(&mut self, val: bool)
        ensures
            final(self).0 == ((old(self).0 & !(1u8 << 7)) | (((val as u8) & 1) << 7)),
    {
        self.0 = (self.0 & !(1u8 << 7)) | (((val as u8) & 1) << 7);
    }
}

impl RegValue for AmModDepthCtrl {
    open spec fn bits(self) -> u8 {
        self.0
    }

    fn from_bits(val: u8) -> (r: Self) {
        AmModDepthCtrl(val)
    }

    fn to_bits(self) -> (r: u8) {
        self.0
    }
}

#[derive(Debug, Clone, Copy, PartialEq, Eq, Structural)]
pub struct AntTuneCtrl(pub u8);

impl AntTuneCtrl {
    pub fn tre(&self) -> (r: u8)
        ensures
            r == ((self.0 >> 3) & 15),
    {
        let val = (self.0 >> 3) & 15;
        val
    }

    pub fn trim_s(&self) -> (r: bool)
        ensures
            r == (((self.0 >> 7) & 1) != 0),
    {
        let val = (self.0 >> 7) & 1;
        val != 0
    }

    pub fn set_tre(&mut self, val: u8)
        ensures
            final(self).0 == ((old(self).0 & !(15u8 << 3)) | ((val & 15) << 3)),
    {
        self.0 = (self.0 & !(15u8 << 3)) | ((val & 15) << 3);
    }

    pub fn set_trim_s(&mut self, val: bool)
        ensures
            final(self).0 == ((old(self).0 & !(1u8 << 7)) | (((val as u8) & 1) << 7)),
    {
        self.0 = (self.0 & !(1u8 << 7)) | (((val as u8) & 1) << 7);
    }
}

impl RegValue for AntTuneCtrl {
    open spec fn bits(self) -> u8 {
        self.0
    }

    fn from_bits(val: u8) -> (r: Self) {
        AntTuneCtrl(val)
    }

    fn to_bits(self) -> (r: u8) {
        self.0
    }
}

#[derive(Debug, Clone, Copy, PartialEq, Eq, Structural)]
pub struct AntTuneDisp(pub u8);

impl AntTuneDisp {
    pub fn tri_err(&self) -> (r: bool)
        ensures
            r == (((self.0 >> 3) & 1) != 0),
    {
        let val = (self.0 >> 3) & 1;
        val != 0
    }

    pub fn tri(&self) -> (r: u8)
        ensures
            r == ((self.0 >> 4) & 15),
    {
        let val = (self.0 >> 4) & 15;
        val
    }
}

impl RegValue for AntTuneDisp {
    open spec fn bits(self) -> u8 {
        self.0
    }

    fn from_bits(val: u8) -> (r: Self) {
        AntTuneDisp(val)
    }

    fn to_bits(self) -> (r: u8) {
        self.0
    }
}

#[derive(Debug, Clone, Copy, PartialEq, Eq, Structural)]
pub struct Aux(pub u8);

impl Aux {
    pub fn nfc_n(&self) -> (r: u8)
        ensures
            r == ((self.0 >> 0) & 3),
    {
        let val = (self.0 >> 0) & 3;
        val
    }

    pub fn rx_tol(&self) -> (r: bool)
        ensures
            r == (((self.0 >> 2) & 1) != 0),
    {
        let val = (self.0 >> 2) & 1;
        val != 0
    }

    pub fn ook_hr(&self) -> (r: bool)
        ensures
            r == (((self.0 >> 3) & 1) != 0),
    {
        let val = (self.0 >> 3) & 1;
        val != 0
    }

    pub fn en_fd(&self) -> (r: bool)
        ensures
            r == (((self.0 >> 4) & 1) != 0),
    {
        let val = (self.0 >> 4) & 1;
        val != 0
    }

    pub fn tr_am(&self) -> (r: bool)
        ensures
            r == (((self.0 >> 5) & 1) != 0),
    {
        let val = (self.0 >> 5) & 1;
        val != 0
    }

    pub fn crc_2_fifo(&self) -> (r: bool)
        ensures
            r == (((self.0 >> 6) & 1) != 0),
    {
        let val = (self.0 >> 6) & 1;
        val != 0
    }

    pub fn no_crc_rx(&self) -> (r: bool)
        ensures
            r == (((self.0 >> 7) & 1) != 0),
    {
        let val = (self.0 >> 7) & 1;
        val != 0
    }

    pub fn set_nfc_n(&mut self, val: u8)
        ensures
            final(self).0 == ((old(self).0 & !(3u8 << 0)) | ((val & 3) << 0)),
    {
        self.0 = (self.0 & !(3u8 << 0)) | ((val & 3) << 0);
    }

    pub fn set_rx_tol(&mut self, val: bool)
        ensures
            final(self).0 == ((old(self).0 & !(1u8 << 2)) | (((val as u8) & 1) << 2)),
    {
        self.0 = (self.0 & !(1u8 << 2)) | (((val as u8) & 1) << 2);
    }

    pub fn set_ook_hr(&mut self, val: bool)
        ensures
            final(self).0 == ((old(self).0 & !(1u8 << 3)) | (((val as u8) & 1) << 3)),
    {
        self.0 = (self.0 & !(1u8 << 3)) | (((val as u8) & 1) << 3);
    }

    pub fn set_en_fd(&mut self, val: bool)
        ensures
            final(self).0 == ((old(self).0 & !(1u8 << 4)) | (((val as u8) & 1) << 4)),
    {
        self.0 = (self.0 & !(1u8 << 4)) | (((val as u8) & 1) << 4);
    }

    pub fn set_tr_am(&mut self, val: bool)
        ensures
            final(self).0 == ((old(self).0 & !(1u8 << 5)) | (((val as u8) & 1) << 5)),
    {
        self.0 = (self.0 & !(1u8 << 5)) | (((val as u8) & 1) << 5);
    }

    pub fn set_crc_2_fifo(&mut self, val: bool)
        ensures
            final(self).0 == ((old(self).0 & !(1u8 << 6)) | (((val as u8) & 1) << 6)),
    {
        self.0 = (self.0 & !(1u8 << 6)) | (((val as u8) & 1) << 6);
    }

    pub fn set_no_crc_rx(&mut self, val: bool)
        ensures
            final(self).0 == ((old(self).0 & !(1u8 << 7)) | (((val as u8) & 1) << 7)),
    {
        self.0 = (self.0 & !(1u8 << 7)) | (((val as u8) & 1) << 7);
    }
}

impl RegValue for Aux {
    open spec fn bits(self) -> u8 {
        self.0
    }

    fn from_bits(val: u8) -> (r: Self) {
        Aux(val)
    }

    fn to_bits(self) -> (r: u8) {
        self.0
    }
}

#[derive(Debug, Clone, Copy, PartialEq, Eq, Structural)]
pub struct AuxDisplay(pub u8);

impl AuxDisplay {
    pub fn en_ac(&self) -> (r: bool)
        ensures
            r == (((self.0 >> 0) & 1) != 0),
    {
        let val = (self.0 >> 0) & 1;
        val != 0
    }

    pub fn nfc_t(&self) -> (r: bool)
        ensures
            r == (((self.0 >> 1) & 1) != 0),
    {
        let val = (self.0 >> 1) & 1;
        val != 0
    }

    pub fn rx_act(&self) -> (r: bool)
        ensures
            r == (((self.0 >> 2) & 1) != 0),
    {
        let val = (self.0 >> 2) & 1;
        val != 0
    }

    pub fn rx_on(&self) -> (r: bool)
        ensures
            r == (((self.0 >> 3) & 1) != 0),
    {
        let val = (self.0 >> 3) & 1;
        val != 0
    }

    pub fn osc_ok(&self) -> (r: bool)
        ensures
            r == (((self.0 >> 4) & 1) != 0),
    {
        let val = (self.0 >> 4) & 1;
        val != 0
    }

    pub fn tx_on(&self) -> (r: bool)
        ensures
            r == (((self.0 >> 5) & 1) != 0),
    {
        let val = (self.0 >> 5) & 1;
        val != 0
    }

    pub fn efd_o(&self) -> (r: bool)
        ensures
            r == (((self.0 >> 6) & 1) != 0),
    {
        let val = (self.0 >> 6) & 1;
        val != 0
    }

    pub fn a_cha(&self) -> (r: bool)
        ensures
            r == (((self.0 >> 7) & 1) != 0),
    {
        let val = (self.0 >> 7) & 1;
        val != 0
    }
}

impl RegValue for AuxDisplay {
    open spec fn bits(self) -> u8 {
        self.0
    }

    fn from_bits(val: u8) -> (r: Self) {
        AuxDisplay(val)
    }

    fn to_bits(self) -> (r: u8) {
        self.0
    }
}

#[derive(Debug, Clone, Copy, PartialEq, Eq, Structural)]
pub struct BitRate(pub u8);

impl BitRate {
    pub fn rxrate(&self) -> (r: BitRateE)
        ensures
            r.0 == ((self.0 >> 0) & 15),
    {
        let val = (self.0 >> 0) & 15;
        BitRateE(val)
    }

    pub fn txrate(&self) -> (r: BitRateE)
        ensures
            r.0 == ((self.0 >> 4) & 15),
    {
        let val = (self.0 >> 4) & 15;
        BitRateE(val)
    }

    pub fn set_rxrate(&mut self, val: BitRateE)
        ensures
            final(self).0 == ((old(self).0 & !(15u8 << 0)) | ((val.0 & 15) << 0)),
    {
        self.0 = (self.0 & !(15u8 << 0)) | ((val.0 & 15) << 0);
    }

    pub fn set_txrate(&mut self, val: BitRateE)
        ensures
            final(self).0 == ((old(self).0 & !(15u8 << 4)) | ((val.0 & 15) << 4)),
    {
        self.0 = (self.0 & !(15u8 << 4)) | ((val.0 & 15) << 4);
    }
}

impl RegValue for BitRate {
    open spec fn bits(self) -> u8 {
        self.0
    }

    fn from_bits(val: u8) -> (r: Self) {
        BitRate(val)
    }

    fn to_bits(self) -> (r: u8) {
        self.0
    }
}

#[derive(Debug, Clone, Copy, PartialEq, Eq, Structural)]
pub struct CapacitanceMeasureConf(pub u8);

impl CapacitanceMeasureConf {
    pub fn cm_ae(&self) -> (r: bool)
        ensures
            r == (((self.0 >> 0) & 1) != 0),
    {
        let val = (self.0 >> 0) & 1;
        val != 0
    }

    pub fn cm_aew(&self) -> (r: u8)
        ensures
            r == ((self.0 >> 1) & 3),
    {
        let val = (self.0 >> 1) & 3;
        val
    }

    pub fn cm_aam(&self) -> (r: bool)
        ensures
            r == (((self.0 >> 3) & 1) != 0),
    {
        let val = (self.0 >> 3) & 1;
        val != 0
    }

    pub fn cm_d(&self) -> (r: u8)
        ensures
            r == ((self.0 >> 4) & 15),
    {
        let val = (self.0 >> 4) & 15;
        val
    }

    pub fn set_cm_ae(&mut self, val: bool)
        ensures
            final(self).0 == ((old(self).0 & !(1u8 << 0)) | (((val as u8) & 1) << 0)),
    {
        self.0 = (self.0 & !(1u8 << 0)) | (((val as u8) & 1) << 0);
    }

    pub fn set_cm_aew(&mut self, val: u8)
        ensures
            final(self).0 == ((old(self).0 & !(3u8 << 1)) | ((val & 3) << 1)),
    {
        self.0 = (self.0 & !(3u8 << 1)) | ((val & 3) << 1);
    }

    pub fn set_cm_aam(&mut self, val: bool)
        ensures
            final(self).0 == ((old(self).0 & !(1u8 << 3)) | (((val as u8) & 1) << 3)),
    {
        self.0 = (self.0 & !(1u8 << 3)) | (((val as u8) & 1) << 3);
    }

    pub fn set_cm_d(&mut self, val: u8)
        ensures
            final(self).0 == ((old(self).0 & !(15u8 << 4)) | ((val & 15) << 4)),
    {
        self.0 = (self.0 & !(15u8 << 4)) | ((val & 15) << 4);
    }
}

impl RegValue for CapacitanceMeasureConf {
    open spec fn bits(self) -> u8 {
        self.0
    }

    fn from_bits(val: u8) -> (r: Self) {
        CapacitanceMeasureConf(val)
    }

    fn to_bits(self) -> (r: u8) {
        self.0
    }
}

#[derive(Debug, Clone, Copy, PartialEq, Eq, Structural)]
pub struct CapSensorControl(pub u8);

impl CapSensorControl {
    pub fn cs_g(&self) -> (r: u8)
        ensures
            r == ((self.0 >> 0) & 7),
    {
        let val = (self.0 >> 0) & 7;
        val
    }

    pub fn cs_mcal(&self) -> (r: u8)
        ensures
            r == ((self.0 >> 3) & 31),
    {
        let val = (self.0 >> 3) & 31;
        val
    }

    pub fn set_cs_g(&mut self, val: u8)
        ensures
            final(self).0 == ((old(self).0 & !(7u8 << 0)) | ((val & 7) << 0)),
    {
        self.0 = (self.0 & !(7u8 << 0)) | ((val & 7) << 0);
    }

    pub fn set_cs_mcal(&mut self, val: u8)
        ensures
            final(self).0 == ((old(self).0 & !(31u8 << 3)) | ((val & 31) << 3)),
    {
        self.0 = (self.0 & !(31u8 << 3)) | ((val & 31) << 3);
    }
}

impl RegValue for CapSensorControl {
    open spec fn bits(self) -> u8 {
        self.0
    }

    fn from_bits(val: u8) -> (r: Self) {
        CapSensorControl(val)
    }

    fn to_bits(self) -> (r: u8) {
        self.0
    }
}

#[derive(Debug, Clone, Copy, PartialEq, Eq, Structural)]
pub struct CapSensorDisp(pub u8);

impl CapSensorDisp {
    pub fn cs_cal_err(&self) -> (r: bool)
        ensures
            r == (((self.0 >> 1) & 1) != 0),
    {
        let val = (self.0 >> 1) & 1;
        val != 0
    }

    pub fn cs_cal_end(&self) -> (r: bool)
        ensures
            r == (((self.0 >> 2) & 1) != 0),
    {
        let val = (self.0 >> 2) & 1;
        val != 0
    }

    pub fn cs_cal_val(&self) -> (r: u8)
        ensures
            r == ((self.0 >> 3) & 31),
    {
        let val = (self.0 >> 3) & 31;
        val
    }
}

impl RegValue for CapSensorDisp {
    open spec fn bits(self) -> u8 {
        self.0
    }

    fn from_bits(val: u8) -> (r: Self) {
        CapSensorDisp(val)
    }

    fn to_bits(self) -> (r: u8) {
        self.0
    }
}

#[derive(Debug, Clone, Copy, PartialEq, Eq, Structural)]
pub struct CollisionStatus(pub u8);

impl CollisionStatus {
    pub fn c_pb(&self) -> (r: bool)
        ensures
            r == (((self.0 >> 0) & 1) != 0),
    {
        let val = (self.0 >> 0) & 1;
        val != 0
    }

    pub fn c_bit(&self) -> (r: u8)
        ensures
            r == ((self.0 >> 1) & 7),
    {
        let val = (self.0 >> 1) & 7;
        val
    }

    pub fn c_byte(&self) -> (r: u8)
        ensures
            r == ((self.0 >> 4) & 15),
    {
        let val = (self.0 >> 4) & 15;
        val
    }
}

impl RegValue for CollisionStatus {
    open spec fn bits(self) -> u8 {
        self.0
    }

    fn from_bits(val: u8) -> (r: Self) {
        CollisionStatus(val)
    }

    fn to_bits(self) -> (r: u8) {
        self.0
    }
}

#[derive(Debug, Clone, Copy, PartialEq, Eq, Structural)]
pub struct ExtFieldDetThr(pub u8);

impl ExtFieldDetThr {
    pub fn rfe_t(&self) -> (r: ThresholdDef2)
        ensures
            r.0 == ((self.0 >> 0) & 15),
    {
        let val = (self.0 >> 0) & 15;
        ThresholdDef2(val)
    }

    pub fn trg_l(&self) -> (r: ThresholdDef1)
        ensures
            r.0 == ((self.0 >> 4) & 7),
    {
        let val = (self.0 >> 4) & 7;
        ThresholdDef1(val)
    }

    pub fn set_rfe_t(&mut self, val: ThresholdDef2)
        ensures
            final(self).0 == ((old(self).0 & !(15u8 << 0)) | ((val.0 & 15) << 0)),
    {
        self.0 = (self.0 & !(15u8 << 0)) | ((val.0 & 15) << 0);
    }

    pub fn set_trg_l(&mut self, val: ThresholdDef1)
        ensures
            final(self).0 == ((old(self).0 & !(7u8 << 4)) | ((val.0 & 7) << 4)),
    {
        self.0 = (self.0 & !(7u8 << 4)) | ((val.0 & 7) << 4);
    }
}

impl RegValue for ExtFieldDetThr {
    open spec fn bits(self) -> u8 {
        self.0
    }

    fn from_bits(val: u8) -> (r: Self) {
        ExtFieldDetThr(val)
    }

    fn to_bits(self) -> (r: u8) {
        self.0
    }
}

#[derive(Debug, Clone, Copy, PartialEq, Eq, Structural)]
pub struct FifoStatus2(pub u8);

impl FifoStatus2 {
    pub fn np_lb(&self) -> (r: bool)
        ensures
            r == (((self.0 >> 0) & 1) != 0),
    {
        let val = (self.0 >> 0) & 1;
        val != 0
    }

    pub fn fifo_lb(&self) -> (r: u8)
        ensures
            r == ((self.0 >> 1) & 7),
    {
        let val = (self.0 >> 1) & 7;
        val
    }

    pub fn fifo_ovr(&self) -> (r: bool)
        ensures
            r == (((self.0 >> 5) & 1) != 0),
    {
        let val = (self.0 >> 5) & 1;
        val != 0
    }

    pub fn fifo_unf(&self) -> (r: bool)
        ensures
            r == (((self.0 >> 6) & 1) != 0),
    {
        let val = (self.0 >> 6) & 1;
        val != 0
    }
}

impl RegValue for FifoStatus2 {
    open spec fn bits(self) -> u8 {
        self.0
    }

    fn from_bits(val: u8) -> (r: Self) {
        FifoStatus2(val)
    }

    fn to_bits(self) -> (r: u8) {
        self.0
    }
}

#[derive(Debug, Clone, Copy, PartialEq, Eq, Structural)]
pub struct GainReduState(pub u8);

impl GainReduState {
    pub fn gs_pm(&self) -> (r: u8)
        ensures
            r == ((self.0 >> 0) & 15),
    {
        let val = (self.0 >> 0) & 15;
        val
    }

    pub fn gs_am(&self) -> (r: u8)
        ensures
            r == ((self.0 >> 4) & 15),
    {
        let val = (self.0 >> 4) & 15;
        val
    }
}

impl RegValue for GainReduState {
    open spec fn bits(self) -> u8 {
        self.0
    }

    fn from_bits(val: u8) -> (r: Self) {
        GainReduState(val)
    }

    fn to_bits(self) -> (r: u8) {
        self.0
    }
}

#[derive(Debug, Clone, Copy, PartialEq, Eq, Structural)]
pub struct GptNrtCtrl(pub u8);

impl GptNrtCtrl {
    pub fn nrt_step(&self) -> (r: TimerEmvControlNrtStep)
        ensures
            r.0 == ((self.0 >> 0) & 1),
    {
        let val = (self.0 >> 0) & 1;
        TimerEmvControlNrtStep(val)
    }

    pub fn nrt_emv(&self) -> (r: bool)
        ensures
            r == (((self.0 >> 1) & 1) != 0),
    {
        let val = (self.0 >> 1) & 1;
        val != 0
    }

    pub fn gptc(&self) -> (r: TimerEmvControlGptc)
        ensures
            r.0 == ((self.0 >> 5) & 7),
    {
        let val = (self.0 >> 5) & 7;
        TimerEmvControlGptc(val)
    }

    pub fn set_nrt_step(&mut self, val: TimerEmvControlNrtStep)
        ensures
            final(self).0 == ((old(self).0 & !(1u8 << 0)) | ((val.0 & 1) << 0)),
    {
        self.0 = (self.0 & !(1u8 << 0)) | ((val.0 & 1) << 0);
    }

    pub fn set_nrt_emv(&mut self, val: bool)
        ensures
            final(self).0 == ((old(self).0 & !(1u8 << 1)) | (((val as u8) & 1) << 1)),
    {
        self.0 = (self.0 & !(1u8 << 1)) | (((val as u8) & 1) << 1);
    }

    pub fn set_gptc(&mut self, val: TimerEmvControlGptc)
        ensures
            final(self).0 == ((old(self).0 & !(7u8 << 5)) | ((val.0 & 7) << 5)),
    {
        self.0 = (self.0 & !(7u8 << 5)) | ((val.0 & 7) << 5);
    }
}

impl RegValue for GptNrtCtrl {
    open spec fn bits(self) -> u8 {
        self.0
    }

    fn from_bits(val: u8) -> (r: Self) {
        GptNrtCtrl(val)
    }

    fn to_bits(self) -> (r: u8) {
        self.0
    }
}

#[derive(Debug, Clone, Copy, PartialEq, Eq, Structural)]
pub struct IcIdentity(pub u8);

impl IcIdentity {
    pub fn ic_rev(&self) -> (r: IcIdentityIcRev)
        ensures
            r.0 == ((self.0 >> 0) & 7),
    {
        let val = (self.0 >> 0) & 7;
        IcIdentityIcRev(val)
    }

    pub fn ic_type(&self) -> (r: IcIdentityIcType)
        ensures
            r.0 == ((self.0 >> 3) & 31),
    {
        let val = (self.0 >> 3) & 31;
        IcIdentityIcType(val)
    }
}

impl RegValue for IcIdentity {
    open spec fn bits(self) -> u8 {
        self.0
    }

    fn from_bits(val: u8) -> (r: Self) {
        IcIdentity(val)
    }

    fn to_bits(self) -> (r: u8) {
        self.0
    }
}

#[derive(Debug, Clone, Copy, PartialEq, Eq, Structural)]
pub struct IoConf1(pub u8);

impl IoConf1 {
    pub fn lf_clk_off(&self) -> (r: bool)
        ensures
            r == (((self.0 >> 0) & 1) != 0),
    {
        let val = (self.0 >> 0) & 1;
        val != 0
    }

    pub fn out_cl(&self) -> (r: IoConf1OutCl)
        ensures
            r.0 == ((self.0 >> 1) & 3),
    {
        let val = (self.0 >> 1) & 3;
        IoConf1OutCl(val)
    }

    pub fn osc(&self) -> (r: bool)
        ensures
            r == (((self.0 >> 3) & 1) != 0),
    {
        let val = (self.0 >> 3) & 1;
        val != 0
    }

    pub fn fifo_lt(&self) -> (r: u8)
        ensures
            r == ((self.0 >> 4) & 3),
    {
        let val = (self.0 >> 4) & 3;
        val
    }

    pub fn rfo2(&self) -> (r: bool)
        ensures
            r == (((self.0 >> 6) & 1) != 0),
    {
        let val = (self.0 >> 6) & 1;
        val != 0
    }

    pub fn single(&self) -> (r: bool)
        ensures
            r == (((self.0 >> 7) & 1) != 0),
    {
        let val = (self.0 >> 7) & 1;
        val != 0
    }

    pub fn set_lf_clk_off(&mut self, val: bool)
        ensures
            final(self).0 == ((old(self).0 & !(1u8 << 0)) | (((val as u8) & 1) << 0)),
    {
        self.0 = (self.0 & !(1u8 << 0)) | (((val as u8) & 1) << 0);
    }

    pub fn set_out_cl(&mut self, val: IoConf1OutCl)
        ensures
            final(self).0 == ((old(self).0 & !(3u8 << 1)) | ((val.0 & 3) << 1)),
    {
        self.0 = (self.0 & !(3u8 << 1)) | ((val.0 & 3) << 1);
    }

    pub fn set_osc(&mut self, val: bool)
        ensures
            final(self).0 == ((old(self).0 & !(1u8 << 3)) | (((val as u8) & 1) << 3)),
    {
        self.0 = (self.0 & !(1u8 << 3)) | (((val as u8) & 1) << 3);
    }

    pub fn set_fifo_lt(&mut self, val: u8)
        ensures
            final(self).0 == ((old(self).0 & !(3u8 << 4)) | ((val & 3) << 4)),
    {
        self.0 = (self.0 & !(3u8 << 4)) | ((val & 3) << 4);
    }

    pub fn set_rfo2(&mut self, val: bool)
        ensures
            final(self).0 == ((old(self).0 & !(1u8 << 6)) | (((val as u8) & 1) << 6)),
    {
        self.0 = (self.0 & !(1u8 << 6)) | (((val as u8) & 1) << 6);
    }

    pub fn set_single(&mut self, val: bool)
        ensures
            final(self).0 == ((old(self).0 & !(1u8 << 7)) | (((val as u8) & 1) << 7)),
    {
        self.0 = (self.0 & !(1u8 << 7)) | (((val as u8) & 1) << 7);
    }
}

impl RegValue for IoConf1 {
    open spec fn bits(self) -> u8 {
        self.0
    }

    fn from_bits(val: u8) -> (r: Self) {
        IoConf1(val)
    }

    fn to_bits(self) -> (r: u8) {
        self.0
    }
}

#[derive(Debug, Clone, Copy, PartialEq, Eq, Structural)]
pub struct IoConf2(pub u8);

impl IoConf2 {
    pub fn slow_up(&self) -> (r: bool)
        ensures
            r == (((self.0 >> 0) & 1) != 0),
    {
        let val = (self.0 >> 0) & 1;
        val != 0
    }

    pub fn io_18(&self) -> (r: bool)
        ensures
            r == (((self.0 >> 2) & 1) != 0),
    {
        let val = (self.0 >> 2) & 1;
        val != 0
    }

    pub fn miso_pd1(&self) -> (r: bool)
        ensures
            r == (((self.0 >> 3) & 1) != 0),
    {
        let val = (self.0 >> 3) & 1;
        val != 0
    }

    pub fn miso_pd2(&self) -> (r: bool)
        ensures
            r == (((self.0 >> 4) & 1) != 0),
    {
        let val = (self.0 >> 4) & 1;
        val != 0
    }

    pub fn vspd_off(&self) -> (r: bool)
        ensures
            r == (((self.0 >> 6) & 1) != 0),
    {
        let val = (self.0 >> 6) & 1;
        val != 0
    }

    pub fn sup_3v(&self) -> (r: bool)
        ensures
            r == (((self.0 >> 7) & 1) != 0),
    {
        let val = (self.0 >> 7) & 1;
        val != 0
    }

    pub fn set_slow_up(&mut self, val: bool)
        ensures
            final(self).0 == ((old(self).0 & !(1u8 << 0)) | (((val as u8) & 1) << 0)),
    {
        self.0 = (self.0 & !(1u8 << 0)) | (((val as u8) & 1) << 0);
    }

    pub fn set_io_18(&mut self, val: bool)
        ensures
            final(self).0 == ((old(self).0 & !(1u8 << 2)) | (((val as u8) & 1) << 2)),
    {
        self.0 = (self.0 & !(1u8 << 2)) | (((val as u8) & 1) << 2);
    }

    pub fn set_miso_pd1(&mut self, val: bool)
        ensures
            final(self).0 == ((old(self).0 & !(1u8 << 3)) | (((val as u8) & 1) << 3)),
    {
        self.0 = (self.0 & !(1u8 << 3)) | (((val as u8) & 1) << 3);
    }

    pub fn set_miso_pd2(&mut self, val: bool)
        ensures
            final(self).0 == ((old(self).0 & !(1u8 << 4)) | (((val as u8) & 1) << 4)),
    {
        self.0 = (self.0 & !(1u8 << 4)) | (((val as u8) & 1) << 4);
    }

    pub fn set_vspd_off(&mut self, val: bool)
        ensures
            final(self).0 == ((old(self).0 & !(1u8 << 6)) | (((val as u8) & 1) << 6)),
    {
        self.0 = (self.0 & !(1u8 << 6)) | (((val as u8) & 1) << 6);
    }

    pub fn set_sup_3v(&mut self, val: bool)
        ensures
            final(self).0 == ((old(self).0 & !(1u8 << 7)) | (((val as u8) & 1) << 7)),
    {
        self.0 = (self.0 & !(1u8 << 7)) | (((val as u8) & 1) << 7);
    }
}

impl RegValue for IoConf2 {
    open spec fn bits(self) -> u8 {
        self.0
    }

    fn from_bits(val: u8) -> (r: Self) {
        IoConf2(val)
    }

    fn to_bits(self) -> (r: u8) {
        self.0
    }
}

#[derive(Debug, Clone, Copy, PartialEq, Eq, Structural)]
pub struct IrqMain(pub u8);

impl IrqMain {
    pub fn err(&self) -> (r: bool)
        ensures
            r == (((self.0 >> 0) & 1) != 0),
    {
        let val = (self.0 >> 0) & 1;
        val != 0
    }

    pub fn tim(&self) -> (r: bool)
        ensures
            r == (((self.0 >> 1) & 1) != 0),
    {
        let val = (self.0 >> 1) & 1;
        val != 0
    }

    pub fn col(&self) -> (r: bool)
        ensures
            r == (((self.0 >> 2) & 1) != 0),
    {
        let val = (self.0 >> 2) & 1;
        val != 0
    }

    pub fn txe(&self) -> (r: bool)
        ensures
            r == (((self.0 >> 3) & 1) != 0),
    {
        let val = (self.0 >> 3) & 1;
        val != 0
    }

    pub fn rxe(&self) -> (r: bool)
        ensures
            r == (((self.0 >> 4) & 1) != 0),
    {
        let val = (self.0 >> 4) & 1;
        val != 0
    }

    pub fn rxs(&self) -> (r: bool)
        ensures
            r == (((self.0 >> 5) & 1) != 0),
    {
        let val = (self.0 >> 5) & 1;
        val != 0
    }

    pub fn wl(&self) -> (r: bool)
        ensures
            r == (((self.0 >> 6) & 1) != 0),
    {
        let val = (self.0 >> 6) & 1;
        val != 0
    }

    pub fn osc(&self) -> (r: bool)
        ensures
            r == (((self.0 >> 7) & 1) != 0),
    {
        let val = (self.0 >> 7) & 1;
        val != 0
    }
}

impl RegValue for IrqMain {
    open spec fn bits(self) -> u8 {
        self.0
    }

    fn from_bits(val: u8) -> (r: Self) {
        IrqMain(val)
    }

    fn to_bits(self) -> (r: u8) {
        self.0
    }
}

#[derive(Debug, Clone, Copy, PartialEq, Eq, Structural)]
pub struct IrqMaskErrorWup(pub u8);

impl IrqMaskErrorWup {
    pub fn m_ncap(&self) -> (r: bool)
        ensures
            r == (((self.0 >> 0) & 1) != 0),
    {
        let val = (self.0 >> 0) & 1;
        val != 0
    }

    pub fn m_wph(&self) -> (r: bool)
        ensures
            r == (((self.0 >> 1) & 1) != 0),
    {
        let val = (self.0 >> 1) & 1;
        val != 0
    }

    pub fn m_wam(&self) -> (r: bool)
        ensures
            r == (((self.0 >> 2) & 1) != 0),
    {
        let val = (self.0 >> 2) & 1;
        val != 0
    }

    pub fn m_wt(&self) -> (r: bool)
        ensures
            r == (((self.0 >> 3) & 1) != 0),
    {
        let val = (self.0 >> 3) & 1;
        val != 0
    }

    pub fn m_err1(&self) -> (r: bool)
        ensures
            r == (((self.0 >> 4) & 1) != 0),
    {
        let val = (self.0 >> 4) & 1;
        val != 0
    }

    pub fn m_err2(&self) -> (r: bool)
        ensures
            r == (((self.0 >> 5) & 1) != 0),
    {
        let val = (self.0 >> 5) & 1;
        val != 0
    }

    pub fn m_par(&self) -> (r: bool)
        ensures
            r == (((self.0 >> 6) & 1) != 0),
    {
        let val = (self.0 >> 6) & 1;
        val != 0
    }

    pub fn m_crc(&self) -> (r: bool)
        ensures
            r == (((self.0 >> 7) & 1) != 0),
    {
        let val = (self.0 >> 7) & 1;
        val != 0
    }

    pub fn set_m_ncap(&mut self, val: bool)
        ensures
            final(self).0 == ((old(self).0 & !(1u8 << 0)) | (((val as u8) & 1) << 0)),
    {
        self.0 = (self.0 & !(1u8 << 0)) | (((val as u8) & 1) << 0);
    }

    pub fn set_m_wph(&mut self, val: bool)
        ensures
            final(self).0 == ((old(self).0 & !(1u8 << 1)) | (((val as u8) & 1) << 1)),
    {
        self.0 = (self.0 & !(1u8 << 1)) | (((val as u8) & 1) << 1);
    }

    pub fn set_m_wam(&mut self, val: bool)
        ensures
            final(self).0 == ((old(self).0 & !(1u8 << 2)) | (((val as u8) & 1) << 2)),
    {
        self.0 = (self.0 & !(1u8 << 2)) | (((val as u8) & 1) << 2);
    }

    pub fn set_m_wt(&mut self, val: bool)
        ensures
            final(self).0 == ((old(self).0 & !(1u8 << 3)) | (((val as u8) & 1) << 3)),
    {
        self.0 = (self.0 & !(1u8 << 3)) | (((val as u8) & 1) << 3);
    }

    pub fn set_m_err1(&mut self, val: bool)
        ensures
            final(self).0 == ((old(self).0 & !(1u8 << 4)) | (((val as u8) & 1) << 4)),
    {
        self.0 = (self.0 & !(1u8 << 4)) | (((val as u8) & 1) << 4);
    }

    pub fn set_m_err2(&mut self, val: bool)
        ensures
            final(self).0 == ((old(self).0 & !(1u8 << 5)) | (((val as u8) & 1) << 5)),
    {
        self.0 = (self.0 & !(1u8 << 5)) | (((val as u8) & 1) << 5);
    }

    pub fn set_m_par(&mut self, val: bool)
        ensures
            final(self).0 == ((old(self).0 & !(1u8 << 6)) | (((val as u8) & 1) << 6)),
    {
        self.0 = (self.0 & !(1u8 << 6)) | (((val as u8) & 1) << 6);
    }

    pub fn set_m_crc(&mut self, val: bool)
        ensures
            final(self).0 == ((old(self).0 & !(1u8 << 7)) | (((val as u8) & 1) << 7)),
    {
        self.0 = (self.0 & !(1u8 << 7)) | (((val as u8) & 1) << 7);
    }
}

impl RegValue for IrqMaskErrorWup {
    open spec fn bits(self) -> u8 {
        self.0
    }

    fn from_bits(val: u8) -> (r: Self) {
        IrqMaskErrorWup(val)
    }

    fn to_bits(self) -> (r: u8) {
        self.0
    }
}

#[derive(Debug, Clone, Copy, PartialEq, Eq, Structural)]
pub struct IrqMaskMain(pub u8);

impl IrqMaskMain {
    pub fn m_col(&self) -> (r: bool)
        ensures
            r == (((self.0 >> 2) & 1) != 0),
    {
        let val = (self.0 >> 2) & 1;
        val != 0
    }

    pub fn m_txe(&self) -> (r: bool)
        ensures
            r == (((self.0 >> 3) & 1) != 0),
    {
        let val = (self.0 >> 3) & 1;
        val != 0
    }

    pub fn m_rxe(&self) -> (r: bool)
        ensures
            r == (((self.0 >> 4) & 1) != 0),
    {
        let val = (self.0 >> 4) & 1;
        val != 0
    }

    pub fn m_rxs(&self) -> (r: bool)
        ensures
            r == (((self.0 >> 5) & 1) != 0),
    {
        let val = (self.0 >> 5) & 1;
        val != 0
    }

    pub fn m_wl(&self) -> (r: bool)
        ensures
            r == (((self.0 >> 6) & 1) != 0),
    {
        let val = (self.0 >> 6) & 1;
        val != 0
    }

    pub fn m_osc(&self) -> (r: bool)
        ensures
            r == (((self.0 >> 7) & 1) != 0),
    {
        let val = (self.0 >> 7) & 1;
        val != 0
    }

    pub fn set_m_col(&mut self, val: bool)
        ensures
            final(self).0 == ((old(self).0 & !(1u8 << 2)) | (((val as u8) & 1) << 2)),
    {
        self.0 = (self.0 & !(1u8 << 2)) | (((val as u8) & 1) << 2);
    }

    pub fn set_m_txe(&mut self, val: bool)
        ensures
            final(self).0 == ((old(self).0 & !(1u8 << 3)) | (((val as u8) & 1) << 3)),
    {
        self.0 = (self.0 & !(1u8 << 3)) | (((val as u8) & 1) << 3);
    }

    pub fn set_m_rxe(&mut self, val: bool)
        ensures
            final(self).0 == ((old(self).0 & !(1u8 << 4)) | (((val as u8) & 1) << 4)),
    {
        self.0 = (self.0 & !(1u8 << 4)) | (((val as u8) & 1) << 4);
    }

    pub fn set_m_rxs(&mut self, val: bool)
        ensures
            final(self).0 == ((old(self).0 & !(1u8 << 5)) | (((val as u8) & 1) << 5)),
    {
        self.0 = (self.0 & !(1u8 << 5)) | (((val as u8) & 1) << 5);
    }

    pub fn set_m_wl(&mut self, val: bool)
        ensures
            final(self).0 == ((old(self).0 & !(1u8 << 6)) | (((val as u8) & 1) << 6)),
    {
        self.0 = (self.0 & !(1u8 << 6)) | (((val as u8) & 1) << 6);
    }

    pub fn set_m_osc(&mut self, val: bool)
        ensures
            final(self).0 == ((old(self).0 & !(1u8 << 7)) | (((val as u8) & 1) << 7)),
    {
        self.0 = (self.0 & !(1u8 << 7)) | (((val as u8) & 1) << 7);
    }
}

impl RegValue for IrqMaskMain {
    open spec fn bits(self) -> u8 {
        self.0
    }

    fn from_bits(val: u8) -> (r: Self) {
        IrqMaskMain(val)
    }

    fn to_bits(self) -> (r: u8) {
        self.0
    }
}

#[derive(Debug, Clone, Copy, PartialEq, Eq, Structural)]
pub struct IrqMaskTimerNfc(pub u8);

impl IrqMaskTimerNfc {
    pub fn m_nfct(&self) -> (r: bool)
        ensures
            r == (((self.0 >> 0) & 1) != 0),
    {
        let val = (self.0 >> 0) & 1;
        val != 0
    }

    pub fn m_cat(&self) -> (r: bool)
        ensures
            r == (((self.0 >> 1) & 1) != 0),
    {
        let val = (self.0 >> 1) & 1;
        val != 0
    }

    pub fn m_cac(&self) -> (r: bool)
        ensures
            r == (((self.0 >> 2) & 1) != 0),
    {
        let val = (self.0 >> 2) & 1;
        val != 0
    }

    pub fn m_eof(&self) -> (r: bool)
        ensures
            r == (((self.0 >> 3) & 1) != 0),
    {
        let val = (self.0 >> 3) & 1;
        val != 0
    }

    pub fn m_eon(&self) -> (r: bool)
        ensures
            r == (((self.0 >> 4) & 1) != 0),
    {
        let val = (self.0 >> 4) & 1;
        val != 0
    }

    pub fn m_gpe(&self) -> (r: bool)
        ensures
            r == (((self.0 >> 5) & 1) != 0),
    {
        let val = (self.0 >> 5) & 1;
        val != 0
    }

    pub fn m_nre(&self) -> (r: bool)
        ensures
            r == (((self.0 >> 6) & 1) != 0),
    {
        let val = (self.0 >> 6) & 1;
        val != 0
    }

    pub fn m_dcd(&self) -> (r: bool)
        ensures
            r == (((self.0 >> 7) & 1) != 0),
    {
        let val = (self.0 >> 7) & 1;
        val != 0
    }

    pub fn set_m_nfct(&mut self, val: bool)
        ensures
            final(self).0 == ((old(self).0 & !(1u8 << 0)) | (((val as u8) & 1) << 0)),
    {
        self.0 = (self.0 & !(1u8 << 0)) | (((val as u8) & 1) << 0);
    }

    pub fn set_m_cat(&mut self, val: bool)
        ensures
            final(self).0 == ((old(self).0 & !(1u8 << 1)) | (((val as u8) & 1) << 1)),
    {
        self.0 = (self.0 & !(1u8 << 1)) | (((val as u8) & 1) << 1);
    }

    pub fn set_m_cac(&mut self, val: bool)
        ensures
            final(self).0 == ((old(self).0 & !(1u8 << 2)) | (((val as u8) & 1) << 2)),
    {
        self.0 = (self.0 & !(1u8 << 2)) | (((val as u8) & 1) << 2);
    }

    pub fn set_m_eof(&mut self, val: bool)
        ensures
            final(self).0 == ((old(self).0 & !(1u8 << 3)) | (((val as u8) & 1) << 3)),
    {
        self.0 = (self.0 & !(1u8 << 3)) | (((val as u8) & 1) << 3);
    }

    pub fn set_m_eon(&mut self, val: bool)
        ensures
            final(self).0 == ((old(self).0 & !(1u8 << 4)) | (((val as u8) & 1) << 4)),
    {
        self.0 = (self.0 & !(1u8 << 4)) | (((val as u8) & 1) << 4);
    }

    pub fn set_m_gpe(&mut self, val: bool)
        ensures
            final(self).0 == ((old(self).0 & !(1u8 << 5)) | (((val as u8) & 1) << 5)),
    {
        self.0 = (self.0 & !(1u8 << 5)) | (((val as u8) & 1) << 5);
    }

    pub fn set_m_nre(&mut self, val: bool)
        ensures
            final(self).0 == ((old(self).0 & !(1u8 << 6)) | (((val as u8) & 1) << 6)),
    {
        self.0 = (self.0 & !(1u8 << 6)) | (((val as u8) & 1) << 6);
    }

    pub fn set_m_dcd(&mut self, val: bool)
        ensures
            final(self).0 == ((old(self).0 & !(1u8 << 7)) | (((val as u8) & 1) << 7)),
    {
        self.0 = (self.0 & !(1u8 << 7)) | (((val as u8) & 1) << 7);
    }
}

impl RegValue for IrqMaskTimerNfc {
    open spec fn bits(self) -> u8 {
        self.0
    }

    fn from_bits(val: u8) -> (r: Self) {
        IrqMaskTimerNfc(val)
    }

    fn to_bits(self) -> (r: u8) {
        self.0
    }
}

#[derive(Debug, Clone, Copy, PartialEq, Eq, Structural)]
pub struct IrqTimerNfc(pub u8);

impl IrqTimerNfc {
    pub fn nfct(&self) -> (r: bool)
        ensures
            r == (((self.0 >> 0) & 1) != 0),
    {
        let val = (self.0 >> 0) & 1;
        val != 0
    }

    pub fn cat(&self) -> (r: bool)
        ensures
            r == (((self.0 >> 1) & 1) != 0),
    {
        let val = (self.0 >> 1) & 1;
        val != 0
    }

    pub fn cac(&self) -> (r: bool)
        ensures
            r == (((self.0 >> 2) & 1) != 0),
    {
        let val = (self.0 >> 2) & 1;
        val != 0
    }

    pub fn eof(&self) -> (r: bool)
        ensures
            r == (((self.0 >> 3) & 1) != 0),
    {
        let val = (self.0 >> 3) & 1;
        val != 0
    }

    pub fn eon(&self) -> (r: bool)
        ensures
            r == (((self.0 >> 4) & 1) != 0),
    {
        let val = (self.0 >> 4) & 1;
        val != 0
    }

    pub fn gpe(&self) -> (r: bool)
        ensures
            r == (((self.0 >> 5) & 1) != 0),
    {
        let val = (self.0 >> 5) & 1;
        val != 0
    }

    pub fn nre(&self) -> (r: bool)
        ensures
            r == (((self.0 >> 6) & 1) != 0),
    {
        let val = (self.0 >> 6) & 1;
        val != 0
    }

    pub fn dcd(&self) -> (r: bool)
        ensures
            r == (((self.0 >> 7) & 1) != 0),
    {
        let val = (self.0 >> 7) & 1;
        val != 0
    }
}

impl RegValue for IrqTimerNfc {
    open spec fn bits(self) -> u8 {
        self.0
    }

    fn from_bits(val: u8) -> (r: Self) {
        IrqTimerNfc(val)
    }

    fn to_bits(self) -> (r: u8) {
        self.0
    }
}

#[derive(Debug, Clone, Copy, PartialEq, Eq, Structural)]
pub struct Iso14443ANfc(pub u8);

impl Iso14443ANfc {
    pub fn antcl(&self) -> (r: bool)
        ensures
            r == (((self.0 >> 0) & 1) != 0),
    {
        let val = (self.0 >> 0) & 1;
        val != 0
    }

    pub fn p_len(&self) -> (r: u8)
        ensures
            r == ((self.0 >> 1) & 15),
    {
        let val = (self.0 >> 1) & 15;
        val
    }

    pub fn nfc_f0(&self) -> (r: bool)
        ensures
            r == (((self.0 >> 5) & 1) != 0),
    {
        let val = (self.0 >> 5) & 1;
        val != 0
    }

    pub fn no_rx_par(&self) -> (r: bool)
        ensures
            r == (((self.0 >> 6) & 1) != 0),
    {
        let val = (self.0 >> 6) & 1;
        val != 0
    }

    pub fn no_tx_par(&self) -> (r: bool)
        ensures
            r == (((self.0 >> 7) & 1) != 0),
    {
        let val = (self.0 >> 7) & 1;
        val != 0
    }

    pub fn set_antcl(&mut self, val: bool)
        ensures
            final(self).0 == ((old(self).0 & !(1u8 << 0)) | (((val as u8) & 1) << 0)),
    {
        self.0 = (self.0 & !(1u8 << 0)) | (((val as u8) & 1) << 0);
    }

    pub fn set_p_len(&mut self, val: u8)
        ensures
            final(self).0 == ((old(self).0 & !(15u8 << 1)) | ((val & 15) << 1)),
    {
        self.0 = (self.0 & !(15u8 << 1)) | ((val & 15) << 1);
    }

    pub fn set_nfc_f0(&mut self, val: bool)
        ensures
            final(self).0 == ((old(self).0 & !(1u8 << 5)) | (((val as u8) & 1) << 5)),
    {
        self.0 = (self.0 & !(1u8 << 5)) | (((val as u8) & 1) << 5);
    }

    pub fn set_no_rx_par(&mut self, val: bool)
        ensures
            final(self).0 == ((old(self).0 & !(1u8 << 6)) | (((val as u8) & 1) << 6)),
    {
        self.0 = (self.0 & !(1u8 << 6)) | (((val as u8) & 1) << 6);
    }

    pub fn set_no_tx_par(&mut self, val: bool)
        ensures
            final(self).0 == ((old(self).0 & !(1u8 << 7)) | (((val as u8) & 1) << 7)),
    {
        self.0 = (self.0 & !(1u8 << 7)) | (((val as u8) & 1) << 7);
    }
}

impl RegValue for Iso14443ANfc {
    open spec fn bits(self) -> u8 {
        self.0
    }

    fn from_bits(val: u8) -> (r: Self) {
        Iso14443ANfc(val)
    }

    fn to_bits(self) -> (r: u8) {
        self.0
    }
}

#[derive(Debug, Clone, Copy, PartialEq, Eq, Structural)]
pub struct Iso14443B1(pub u8);

impl Iso14443B1 {
    pub fn rx_st_om(&self) -> (r: bool)
        ensures
            r == (((self.0 >> 0) & 1) != 0),
    {
        let val = (self.0 >> 0) & 1;
        val != 0
    }

    pub fn half(&self) -> (r: bool)
        ensures
            r == (((self.0 >> 1) & 1) != 0),
    {
        let val = (self.0 >> 1) & 1;
        val != 0
    }

    pub fn eof(&self) -> (r: bool)
        ensures
            r == (((self.0 >> 2) & 1) != 0),
    {
        let val = (self.0 >> 2) & 1;
        val != 0
    }

    pub fn sof_1(&self) -> (r: Iso14443B1Sof1)
        ensures
            r.0 == ((self.0 >> 3) & 1),
    {
        let val = (self.0 >> 3) & 1;
        Iso14443B1Sof1(val)
    }

    pub fn sof_0(&self) -> (r: Iso14443B1Sof0)
        ensures
            r.0 == ((self.0 >> 4) & 1),
    {
        let val = (self.0 >> 4) & 1;
        Iso14443B1Sof0(val)
    }

    pub fn egt(&self) -> (r: u8)
        ensures
            r == ((self.0 >> 5) & 7),
    {
        let val = (self.0 >> 5) & 7;
        val
    }

    pub fn set_rx_st_om(&mut self, val: bool)
        ensures
            final(self).0 == ((old(self).0 & !(1u8 << 0)) | (((val as u8) & 1) << 0)),
    {
        self.0 = (self.0 & !(1u8 << 0)) | (((val as u8) & 1) << 0);
    }

    pub fn set_half(&mut self, val: bool)
        ensures
            final(self).0 == ((old(self).0 & !(1u8 << 1)) | (((val as u8) & 1) << 1)),
    {
        self.0 = (self.0 & !(1u8 << 1)) | (((val as u8) & 1) << 1);
    }

    pub fn set_eof(&mut self, val: bool)
        ensures
            final(self).0 == ((old(self).0 & !(1u8 << 2)) | (((val as u8) & 1) << 2)),
    {
        self.0 = (self.0 & !(1u8 << 2)) | (((val as u8) & 1) << 2);
    }

    pub fn set_sof_1(&mut self, val: Iso14443B1Sof1)
        ensures
            final(self).0 == ((old(self).0 & !(1u8 << 3)) | ((val.0 & 1) << 3)),
    {
        self.0 = (self.0 & !(1u8 << 3)) | ((val.0 & 1) << 3);
    }

    pub fn set_sof_0(&mut self, val: Iso14443B1Sof0)
        ensures
            final(self).0 == ((old(self).0 & !(1u8 << 4)) | ((val.0 & 1) << 4)),
    {
        self.0 = (self.0 & !(1u8 << 4)) | ((val.0 & 1) << 4);
    }

    pub fn set_egt(&mut self, val: u8)
        ensures
            final(self).0 == ((old(self).0 & !(7u8 << 5)) | ((val & 7) << 5)),
    {
        self.0 = (self.0 & !(7u8 << 5)) | ((val & 7) << 5);
    }
}

impl RegValue for Iso14443B1 {
    open spec fn bits(self) -> u8 {
        self.0
    }

    fn from_bits(val: u8) -> (r: Self) {
        Iso14443B1(val)
    }

    fn to_bits(self) -> (r: u8) {
        self.0
    }
}

#[derive(Debug, Clone, Copy, PartialEq, Eq, Structural)]
pub struct Iso14443B2(pub u8);

impl Iso14443B2 {
    pub fn f_p(&self) -> (r: Iso14443B2FP)
        ensures
            r.0 == ((self.0 >> 0) & 3),
    {
        let val = (self.0 >> 0) & 3;
        Iso14443B2FP(val)
    }

    pub fn phc_th(&self) -> (r: bool)
        ensures
            r == (((self.0 >> 2) & 1) != 0),
    {
        let val = (self.0 >> 2) & 1;
        val != 0
    }

    pub fn eof_12(&self) -> (r: bool)
        ensures
            r == (((self.0 >> 3) & 1) != 0),
    {
        let val = (self.0 >> 3) & 1;
        val != 0
    }

    pub fn no_eof(&self) -> (r: bool)
        ensures
            r == (((self.0 >> 4) & 1) != 0),
    {
        let val = (self.0 >> 4) & 1;
        val != 0
    }

    pub fn no_sof(&self) -> (r: bool)
        ensures
            r == (((self.0 >> 5) & 1) != 0),
    {
        let val = (self.0 >> 5) & 1;
        val != 0
    }

    pub fn tr1(&self) -> (r: Iso14443B2Tr1)
        ensures
            r.0 == ((self.0 >> 6) & 3),
    {
        let val = (self.0 >> 6) & 3;
        Iso14443B2Tr1(val)
    }

    pub fn set_f_p(&mut self, val: Iso14443B2FP)
        ensures
            final(self).0 == ((old(self).0 & !(3u8 << 0)) | ((val.0 & 3) << 0)),
    {
        self.0 = (self.0 & !(3u8 << 0)) | ((val.0 & 3) << 0);
    }

    pub fn set_phc_th(&mut self, val: bool)
        ensures
            final(self).0 == ((old(self).0 & !(1u8 << 2)) | (((val as u8) & 1) << 2)),
    {
        self.0 = (self.0 & !(1u8 << 2)) | (((val as u8) & 1) << 2);
    }

    pub fn set_eof_12(&mut self, val: bool)
        ensures
            final(self).0 == ((old(self).0 & !(1u8 << 3)) | (((val as u8) & 1) << 3)),
    {
        self.0 = (self.0 & !(1u8 << 3)) | (((val as u8) & 1) << 3);
    }

    pub fn set_no_eof(&mut self, val: bool)
        ensures
            final(self).0 == ((old(self).0 & !(1u8 << 4)) | (((val as u8) & 1) << 4)),
    {
        self.0 = (self.0 & !(1u8 << 4)) | (((val as u8) & 1) << 4);
    }

    pub fn set_no_sof(&mut self, val: bool)
        ensures
            final(self).0 == ((old(self).0 & !(1u8 << 5)) | (((val as u8) & 1) << 5)),
    {
        self.0 = (self.0 & !(1u8 << 5)) | (((val as u8) & 1) << 5);
    }

    pub fn set_tr1(&mut self, val: Iso14443B2Tr1)
        ensures
            final(self).0 == ((old(self).0 & !(3u8 << 6)) | ((val.0 & 3) << 6)),
    {
        self.0 = (self.0 & !(3u8 << 6)) | ((val.0 & 3) << 6);
    }
}

impl RegValue for Iso14443B2 {
    open spec fn bits(self) -> u8 {
        self.0
    }

    fn from_bits(val: u8) -> (r: Self) {
        Iso14443B2(val)
    }

    fn to_bits(self) -> (r: u8) {
        self.0
    }
}

#[derive(Debug, Clone, Copy, PartialEq, Eq, Structural)]
pub struct MaskRxTimer(pub u8);

impl MaskRxTimer {
    pub fn mrt0(&self) -> (r: bool)
        ensures
            r == (((self.0 >> 0) & 1) != 0),
    {
        let val = (self.0 >> 0) & 1;
        val != 0
    }

    pub fn mrt1(&self) -> (r: bool)
        ensures
            r == (((self.0 >> 1) & 1) != 0),
    {
        let val = (self.0 >> 1) & 1;
        val != 0
    }

    pub fn mrt2(&self) -> (r: bool)
        ensures
            r == (((self.0 >> 2) & 1) != 0),
    {
        let val = (self.0 >> 2) & 1;
        val != 0
    }

    pub fn mrt3(&self) -> (r: bool)
        ensures
            r == (((self.0 >> 3) & 1) != 0),
    {
        let val = (self.0 >> 3) & 1;
        val != 0
    }

    pub fn mrt4(&self) -> (r: bool)
        ensures
            r == (((self.0 >> 4) & 1) != 0),
    {
        let val = (self.0 >> 4) & 1;
        val != 0
    }

    pub fn mrt5(&self) -> (r: bool)
        ensures
            r == (((self.0 >> 5) & 1) != 0),
    {
        let val = (self.0 >> 5) & 1;
        val != 0
    }

    pub fn mrt6(&self) -> (r: bool)
        ensures
            r == (((self.0 >> 6) & 1) != 0),
    {
        let val = (self.0 >> 6) & 1;
        val != 0
    }

    pub fn mrt7(&self) -> (r: bool)
        ensures
            r == (((self.0 >> 7) & 1) != 0),
    {
        let val = (self.0 >> 7) & 1;
        val != 0
    }

    pub fn set_mrt0(&mut self, val: bool)
        ensures
            final(self).0 == ((old(self).0 & !(1u8 << 0)) | (((val as u8) & 1) << 0)),
    {
        self.0 = (self.0 & !(1u8 << 0)) | (((val as u8) & 1) << 0);
    }

    pub fn set_mrt1(&mut self, val: bool)
        ensures
            final(self).0 == ((old(self).0 & !(1u8 << 1)) | (((val as u8) & 1) << 1)),
    {
        self.0 = (self.0 & !(1u8 << 1)) | (((val as u8) & 1) << 1);
    }

    pub fn set_mrt2(&mut self, val: bool)
        ensures
            final(self).0 == ((old(self).0 & !(1u8 << 2)) | (((val as u8) & 1) << 2)),
    {
        self.0 = (self.0 & !(1u8 << 2)) | (((val as u8) & 1) << 2);
    }

    pub fn set_mrt3(&mut self, val: bool)
        ensures
            final(self).0 == ((old(self).0 & !(1u8 << 3)) | (((val as u8) & 1) << 3)),
    {
        self.0 = (self.0 & !(1u8 << 3)) | (((val as u8) & 1) << 3);
    }

    pub fn set_mrt4(&mut self, val: bool)
        ensures
            final(self).0 == ((old(self).0 & !(1u8 << 4)) | (((val as u8) & 1) << 4)),
    {
        self.0 = (self.0 & !(1u8 << 4)) | (((val as u8) & 1) << 4);
    }

    pub fn set_mrt5(&mut self, val: bool)
        ensures
            final(self).0 == ((old(self).0 & !(1u8 << 5)) | (((val as u8) & 1) << 5)),
    {
        self.0 = (self.0 & !(1u8 << 5)) | (((val as u8) & 1) << 5);
    }

    pub fn set_mrt6(&mut self, val: bool)
        ensures
            final(self).0 == ((old(self).0 & !(1u8 << 6)) | (((val as u8) & 1) << 6)),
    {
        self.0 = (self.0 & !(1u8 << 6)) | (((val as u8) & 1) << 6);
    }

    pub fn set_mrt7(&mut self, val: bool)
        ensures
            final(self).0 == ((old(self).0 & !(1u8 << 7)) | (((val as u8) & 1) << 7)),
    {
        self.0 = (self.0 & !(1u8 << 7)) | (((val as u8) & 1) << 7);
    }
}

impl RegValue for MaskRxTimer {
    open spec fn bits(self) -> u8 {
        self.0
    }

    fn from_bits(val: u8) -> (r: Self) {
        MaskRxTimer(val)
    }

    fn to_bits(self) -> (r: u8) {
        self.0
    }
}

#[derive(Debug, Clone, Copy, PartialEq, Eq, Structural)]
pub struct Mode(pub u8);

impl Mode {
    pub fn nfc_ar(&self) -> (r: bool)
        ensures
            r == (((self.0 >> 0) & 1) != 0),
    {
        let val = (self.0 >> 0) & 1;
        val != 0
    }

    pub fn om(&self) -> (r: ModeOm)
        ensures
            r.0 == ((self.0 >> 3) & 15),
    {
        let val = (self.0 >> 3) & 15;
        ModeOm(val)
    }

    pub fn targ(&self) -> (r: bool)
        ensures
            r == (((self.0 >> 7) & 1) != 0),
    {
        let val = (self.0 >> 7) & 1;
        val != 0
    }

    pub fn set_nfc_ar(&mut self, val: bool)
        ensures
            final(self).0 == ((old(self).0 & !(1u8 << 0)) | (((val as u8) & 1) << 0)),
    {
        self.0 = (self.0 & !(1u8 << 0)) | (((val as u8) & 1) << 0);
    }

    pub fn set_om(&mut self, val: ModeOm)
        ensures
            final(self).0 == ((old(self).0 & !(15u8 << 3)) | ((val.0 & 15) << 3)),
    {
        self.0 = (self.0 & !(15u8 << 3)) | ((val.0 & 15) << 3);
    }

    pub fn set_targ(&mut self, val: bool)
        ensures
            final(self).0 == ((old(self).0 & !(1u8 << 7)) | (((val as u8) & 1) << 7)),
    {
        self.0 = (self.0 & !(1u8 << 7)) | (((val as u8) & 1) << 7);
    }
}

impl RegValue for Mode {
    open spec fn bits(self) -> u8 {
        self.0
    }

    fn from_bits(val: u8) -> (r: Self) {
        Mode(val)
    }

    fn to_bits(self) -> (r: u8) {
        self.0
    }
}

#[derive(Debug, Clone, Copy, PartialEq, Eq, Structural)]
pub struct Nfcip1BitRateDisp(pub u8);

impl Nfcip1BitRateDisp {
    pub fn nfc_rate(&self) -> (r: u8)
        ensures
            r == ((self.0 >> 4) & 15),
    {
        let val = (self.0 >> 4) & 15;
        val
    }
}

impl RegValue for Nfcip1BitRateDisp {
    open spec fn bits(self) -> u8 {
        self.0
    }

    fn from_bits(val: u8) -> (r: Self) {
        Nfcip1BitRateDisp(val)
    }

    fn to_bits(self) -> (r: u8) {
        self.0
    }
}

#[derive(Debug, Clone, Copy, PartialEq, Eq, Structural)]
pub struct NoResponseTimer1(pub u8);

impl NoResponseTimer1 {
    pub fn nrt8(&self) -> (r: bool)
        ensures
            r == (((self.0 >> 0) & 1) != 0),
    {
        let val = (self.0 >> 0) & 1;
        val != 0
    }

    pub fn nrt9(&self) -> (r: bool)
        ensures
            r == (((self.0 >> 1) & 1) != 0),
    {
        let val = (self.0 >> 1) & 1;
        val != 0
    }

    pub fn nrt10(&self) -> (r: bool)
        ensures
            r == (((self.0 >> 2) & 1) != 0),
    {
        let val = (self.0 >> 2) & 1;
        val != 0
    }

    pub fn nrt11(&self) -> (r: bool)
        ensures
            r == (((self.0 >> 3) & 1) != 0),
    {
        let val = (self.0 >> 3) & 1;
        val != 0
    }

    pub fn nrt12(&self) -> (r: bool)
        ensures
            r == (((self.0 >> 4) & 1) != 0),
    {
        let val = (self.0 >> 4) & 1;
        val != 0
    }

    pub fn nrt13(&self) -> (r: bool)
        ensures
            r == (((self.0 >> 5) & 1) != 0),
    {
        let val = (self.0 >> 5) & 1;
        val != 0
    }

    pub fn nrt14(&self) -> (r: bool)
        ensures
            r == (((self.0 >> 6) & 1) != 0),
    {
        let val = (self.0 >> 6) & 1;
        val != 0
    }

    pub fn nrt15(&self) -> (r: bool)
        ensures
            r == (((self.0 >> 7) & 1) != 0),
    {
        let val = (self.0 >> 7) & 1;
        val != 0
    }

    pub fn set_nrt8(&mut self, val: bool)
        ensures
            final(self).0 == ((old(self).0 & !(1u8 << 0)) | (((val as u8) & 1) << 0)),
    {
        self.0 = (self.0 & !(1u8 << 0)) | (((val as u8) & 1) << 0);
    }

    pub fn set_nrt9(&mut self, val: bool)
        ensures
            final(self).0 == ((old(self).0 & !(1u8 << 1)) | (((val as u8) & 1) << 1)),
    {
        self.0 = (self.0 & !(1u8 << 1)) | (((val as u8) & 1) << 1);
    }

    pub fn set_nrt10(&mut self, val: bool)
        ensures
            final(self).0 == ((old(self).0 & !(1u8 << 2)) | (((val as u8) & 1) << 2)),
    {
        self.0 = (self.0 & !(1u8 << 2)) | (((val as u8) & 1) << 2);
    }

    pub fn set_nrt11(&mut self, val: bool)
        ensures
            final(self).0 == ((old(self).0 & !(1u8 << 3)) | (((val as u8) & 1) << 3)),
    {
        self.0 = (self.0 & !(1u8 << 3)) | (((val as u8) & 1) << 3);
    }

    pub fn set_nrt12(&mut self, val: bool)
        ensures
            final(self).0 == ((old(self).0 & !(1u8 << 4)) | (((val as u8) & 1) << 4)),
    {
        self.0 = (self.0 & !(1u8 << 4)) | (((val as u8) & 1) << 4);
    }

    pub fn set_nrt13(&mut self, val: bool)
        ensures
            final(self).0 == ((old(self).0 & !(1u8 << 5)) | (((val as u8) & 1) << 5)),
    {
        self.0 = (self.0 & !(1u8 << 5)) | (((val as u8) & 1) << 5);
    }

    pub fn set_nrt14(&mut self, val: bool)
        ensures
            final(self).0 == ((old(self).0 & !(1u8 << 6)) | (((val as u8) & 1) << 6)),
    {
        self.0 = (self.0 & !(1u8 << 6)) | (((val as u8) & 1) << 6);
    }

    pub fn set_nrt15(&mut self, val: bool)
        ensures
            final(self).0 == ((old(self).0 & !(1u8 << 7)) | (((val as u8) & 1) << 7)),
    {
        self.0 = (self.0 & !(1u8 << 7)) | (((val as u8) & 1) << 7);
    }
}

impl RegValue for NoResponseTimer1 {
    open spec fn bits(self) -> u8 {
        self.0
    }

    fn from_bits(val: u8) -> (r: Self) {
        NoResponseTimer1(val)
    }

    fn to_bits(self) -> (r: u8) {
        self.0
    }
}

#[derive(Debug, Clone, Copy, PartialEq, Eq, Structural)]
pub struct NumTxBytes2(pub u8);

impl NumTxBytes2 {
    pub fn nbtx(&self) -> (r: u8)
        ensures
            r == ((self.0 >> 0) & 7),
    {
        let val = (self.0 >> 0) & 7;
        val
    }

    pub fn ntx(&self) -> (r: u8)
        ensures
            r == ((self.0 >> 3) & 31),
    {
        let val = (self.0 >> 3) & 31;
        val
    }

    pub fn set_nbtx(&mut self, val: u8)
        ensures
            final(self).0 == ((old(self).0 & !(7u8 << 0)) | ((val & 7) << 0)),
    {
        self.0 = (self.0 & !(7u8 << 0)) | ((val & 7) << 0);
    }

    pub fn set_ntx(&mut self, val: u8)
        ensures
            final(self).0 == ((old(self).0 & !(31u8 << 3)) | ((val & 31) << 3)),
    {
        self.0 = (self.0 & !(31u8 << 3)) | ((val & 31) << 3);
    }
}

impl RegValue for NumTxBytes2 {
    open spec fn bits(self) -> u8 {
        self.0
    }

    fn from_bits(val: u8) -> (r: Self) {
        NumTxBytes2(val)
    }

    fn to_bits(self) -> (r: u8) {
        self.0
    }
}

#[derive(Debug, Clone, Copy, PartialEq, Eq, Structural)]
pub struct OpControl(pub u8);

impl OpControl {
    pub fn wu(&self) -> (r: bool)
        ensures
            r == (((self.0 >> 2) & 1) != 0),
    {
        let val = (self.0 >> 2) & 1;
        val != 0
    }

    pub fn tx_en(&self) -> (r: bool)
        ensures
            r == (((self.0 >> 3) & 1) != 0),
    {
        let val = (self.0 >> 3) & 1;
        val != 0
    }

    pub fn rx_man(&self) -> (r: bool)
        ensures
            r == (((self.0 >> 4) & 1) != 0),
    {
        let val = (self.0 >> 4) & 1;
        val != 0
    }

    pub fn rx_chn(&self) -> (r: bool)
        ensures
            r == (((self.0 >> 5) & 1) != 0),
    {
        let val = (self.0 >> 5) & 1;
        val != 0
    }

    pub fn rx_en(&self) -> (r: bool)
        ensures
            r == (((self.0 >> 6) & 1) != 0),
    {
        let val = (self.0 >> 6) & 1;
        val != 0
    }

    pub fn en(&self) -> (r: bool)
        ensures
            r == (((self.0 >> 7) & 1) != 0),
    {
        let val = (self.0 >> 7) & 1;
        val != 0
    }

    pub fn set_wu(&mut self, val: bool)
        ensures
            final(self).0 == ((old(self).0 & !(1u8 << 2)) | (((val as u8) & 1) << 2)),
    {
        self.0 = (self.0 & !(1u8 << 2)) | (((val as u8) & 1) << 2);
    }

    pub fn set_tx_en(&mut self, val: bool)
        ensures
            final(self).0 == ((old(self).0 & !(1u8 << 3)) | (((val as u8) & 1) << 3)),
    {
        self.0 = (self.0 & !(1u8 << 3)) | (((val as u8) & 1) << 3);
    }

    pub fn set_rx_man(&mut self, val: bool)
        ensures
            final(self).0 == ((old(self).0 & !(1u8 << 4)) | (((val as u8) & 1) << 4)),
    {
        self.0 = (self.0 & !(1u8 << 4)) | (((val as u8) & 1) << 4);
    }

    pub fn set_rx_chn(&mut self, val: bool)
        ensures
            final(self).0 == ((old(self).0 & !(1u8 << 5)) | (((val as u8) & 1) << 5)),
    {
        self.0 = (self.0 & !(1u8 << 5)) | (((val as u8) & 1) << 5);
    }

    pub fn set_rx_en(&mut self, val: bool)
        ensures
            final(self).0 == ((old(self).0 & !(1u8 << 6)) | (((val as u8) & 1) << 6)),
    {
        self.0 = (self.0 & !(1u8 << 6)) | (((val as u8) & 1) << 6);
    }

    pub fn set_en(&mut self, val: bool)
        ensures
            final(self).0 == ((old(self).0 & !(1u8 << 7)) | (((val as u8) & 1) << 7)),
    {
        self.0 = (self.0 & !(1u8 << 7)) | (((val as u8) & 1) << 7);
    }
}

impl RegValue for OpControl {
    open spec fn bits(self) -> u8 {
        self.0
    }

    fn from_bits(val: u8) -> (r: Self) {
        OpControl(val)
    }

    fn to_bits(self) -> (r: u8) {
        self.0
    }
}

#[derive(Debug, Clone, Copy, PartialEq, Eq, Structural)]
pub struct PhaseMeasureConf(pub u8);

impl PhaseMeasureConf {
    pub fn pm_ae(&self) -> (r: bool)
        ensures
            r == (((self.0 >> 0) & 1) != 0),
    {
        let val = (self.0 >> 0) & 1;
        val != 0
    }

    pub fn pm_aew(&self) -> (r: u8)
        ensures
            r == ((self.0 >> 1) & 3),
    {
        let val = (self.0 >> 1) & 3;
        val
    }

    pub fn pm_aam(&self) -> (r: bool)
        ensures
            r == (((self.0 >> 3) & 1) != 0),
    {
        let val = (self.0 >> 3) & 1;
        val != 0
    }

    pub fn pm_d(&self) -> (r: u8)
        ensures
            r == ((self.0 >> 4) & 15),
    {
        let val = (self.0 >> 4) & 15;
        val
    }

    pub fn set_pm_ae(&mut self, val: bool)
        ensures
            final(self).0 == ((old(self).0 & !(1u8 << 0)) | (((val as u8) & 1) << 0)),
    {
        self.0 = (self.0 & !(1u8 << 0)) | (((val as u8) & 1) << 0);
    }

    pub fn set_pm_aew(&mut self, val: u8)
        ensures
            final(self).0 == ((old(self).0 & !(3u8 << 1)) | ((val & 3) << 1)),
    {
        self.0 = (self.0 & !(3u8 << 1)) | ((val & 3) << 1);
    }

    pub fn set_pm_aam(&mut self, val: bool)
        ensures
            final(self).0 == ((old(self).0 & !(1u8 << 3)) | (((val as u8) & 1) << 3)),
    {
        self.0 = (self.0 & !(1u8 << 3)) | (((val as u8) & 1) << 3);
    }

    pub fn set_pm_d(&mut self, val: u8)
        ensures
            final(self).0 == ((old(self).0 & !(15u8 << 4)) | ((val & 15) << 4)),
    {
        self.0 = (self.0 & !(15u8 << 4)) | ((val & 15) << 4);
    }
}

impl RegValue for PhaseMeasureConf {
    open spec fn bits(self) -> u8 {
        self.0
    }

    fn from_bits(val: u8) -> (r: Self) {
        PhaseMeasureConf(val)
    }

    fn to_bits(self) -> (r: u8) {
        self.0
    }
}

#[derive(Debug, Clone, Copy, PartialEq, Eq, Structural)]
pub struct RegulatorAndTimDisp(pub u8);

impl RegulatorAndTimDisp {
    pub fn mrt_on(&self) -> (r: bool)
        ensures
            r == (((self.0 >> 0) & 1) != 0),
    {
        let val = (self.0 >> 0) & 1;
        val != 0
    }

    pub fn nrt_on(&self) -> (r: bool)
        ensures
            r == (((self.0 >> 1) & 1) != 0),
    {
        let val = (self.0 >> 1) & 1;
        val != 0
    }

    pub fn gpt_on(&self) -> (r: bool)
        ensures
            r == (((self.0 >> 2) & 1) != 0),
    {
        let val = (self.0 >> 2) & 1;
        val != 0
    }

    pub fn reg(&self) -> (r: u8)
        ensures
            r == ((self.0 >> 4) & 15),
    {
        let val = (self.0 >> 4) & 15;
        val
    }
}

impl RegValue for RegulatorAndTimDisp {
    open spec fn bits(self) -> u8 {
        self.0
    }

    fn from_bits(val: u8) -> (r: Self) {
        RegulatorAndTimDisp(val)
    }

    fn to_bits(self) -> (r: u8) {
        self.0
    }
}

#[derive(Debug, Clone, Copy, PartialEq, Eq, Structural)]
pub struct RegulatorVoltControl(pub u8);

impl RegulatorVoltControl {
    pub fn mpsv(&self) -> (r: u8)
        ensures
            r == ((self.0 >> 1) & 3),
    {
        let val = (self.0 >> 1) & 3;
        val
    }

    pub fn rege(&self) -> (r: u8)
        ensures
            r == ((self.0 >> 3) & 15),
    {
        let val = (self.0 >> 3) & 15;
        val
    }

    pub fn reg_s(&self) -> (r: bool)
        ensures
            r == (((self.0 >> 7) & 1) != 0),
    {
        let val = (self.0 >> 7) & 1;
        val != 0
    }

    pub fn set_mpsv(&mut self, val: u8)
        ensures
            final(self).0 == ((old(self).0 & !(3u8 << 1)) | ((val & 3) << 1)),
    {
        self.0 = (self.0 & !(3u8 << 1)) | ((val & 3) << 1);
    }

    pub fn set_rege(&mut self, val: u8)
        ensures
            final(self).0 == ((old(self).0 & !(15u8 << 3)) | ((val & 15) << 3)),
    {
        self.0 = (self.0 & !(15u8 << 3)) | ((val & 15) << 3);
    }

    pub fn set_reg_s(&mut self, val: bool)
        ensures
            final(self).0 == ((old(self).0 & !(1u8 << 7)) | (((val as u8) & 1) << 7)),
    {
        self.0 = (self.0 & !(1u8 << 7)) | (((val as u8) & 1) << 7);
    }
}

impl RegValue for RegulatorVoltControl {
    open spec fn bits(self) -> u8 {
        self.0
    }

    fn from_bits(val: u8) -> (r: Self) {
        RegulatorVoltControl(val)
    }

    fn to_bits(self) -> (r: u8) {
        self.0
    }
}

#[derive(Debug, Clone, Copy, PartialEq, Eq, Structural)]
pub struct RfoAmLevelDef(pub u8);

impl RfoAmLevelDef {
    pub fn d0(&self) -> (r: bool)
        ensures
            r == (((self.0 >> 0) & 1) != 0),
    {
        let val = (self.0 >> 0) & 1;
        val != 0
    }

    pub fn d1(&self) -> (r: bool)
        ensures
            r == (((self.0 >> 1) & 1) != 0),
    {
        let val = (self.0 >> 1) & 1;
        val != 0
    }

    pub fn d2(&self) -> (r: bool)
        ensures
            r == (((self.0 >> 2) & 1) != 0),
    {
        let val = (self.0 >> 2) & 1;
        val != 0
    }

    pub fn d3(&self) -> (r: bool)
        ensures
            r == (((self.0 >> 3) & 1) != 0),
    {
        let val = (self.0 >> 3) & 1;
        val != 0
    }

    pub fn d4(&self) -> (r: bool)
        ensures
            r == (((self.0 >> 4) & 1) != 0),
    {
        let val = (self.0 >> 4) & 1;
        val != 0
    }

    pub fn d5(&self) -> (r: bool)
        ensures
            r == (((self.0 >> 5) & 1) != 0),
    {
        let val = (self.0 >> 5) & 1;
        val != 0
    }

    pub fn d6(&self) -> (r: bool)
        ensures
            r == (((self.0 >> 6) & 1) != 0),
    {
        let val = (self.0 >> 6) & 1;
        val != 0
    }

    pub fn d7(&self) -> (r: bool)
        ensures
            r == (((self.0 >> 7) & 1) != 0),
    {
        let val = (self.0 >> 7) & 1;
        val != 0
    }

    pub fn set_d0(&mut self, val: bool)
        ensures
            final(self).0 == ((old(self).0 & !(1u8 << 0)) | (((val as u8) & 1) << 0)),
    {
        self.0 = (self.0 & !(1u8 << 0)) | (((val as u8) & 1) << 0);
    }

    pub fn set_d1(&mut self, val: bool)
        ensures
            final(self).0 == ((old(self).0 & !(1u8 << 1)) | (((val as u8) & 1) << 1)),
    {
        self.0 = (self.0 & !(1u8 << 1)) | (((val as u8) & 1) << 1);
    }

    pub fn set_d2(&mut self, val: bool)
        ensures
            final(self).0 == ((old(self).0 & !(1u8 << 2)) | (((val as u8) & 1) << 2)),
    {
        self.0 = (self.0 & !(1u8 << 2)) | (((val as u8) & 1) << 2);
    }

    pub fn set_d3(&mut self, val: bool)
        ensures
            final(self).0 == ((old(self).0 & !(1u8 << 3)) | (((val as u8) & 1) << 3)),
    {
        self.0 = (self.0 & !(1u8 << 3)) | (((val as u8) & 1) << 3);
    }

    pub fn set_d4(&mut self, val: bool)
        ensures
            final(self).0 == ((old(self).0 & !(1u8 << 4)) | (((val as u8) & 1) << 4)),
    {
        self.0 = (self.0 & !(1u8 << 4)) | (((val as u8) & 1) << 4);
    }

    pub fn set_d5(&mut self, val: bool)
        ensures
            final(self).0 == ((old(self).0 & !(1u8 << 5)) | (((val as u8) & 1) << 5)),
    {
        self.0 = (self.0 & !(1u8 << 5)) | (((val as u8) & 1) << 5);
    }

    pub fn set_d6(&mut self, val: bool)
        ensures
            final(self).0 == ((old(self).0 & !(1u8 << 6)) | (((val as u8) & 1) << 6)),
    {
        self.0 = (self.0 & !(1u8 << 6)) | (((val as u8) & 1) << 6);
    }

    pub fn set_d7(&mut self, val: bool)
        ensures
            final(self).0 == ((old(self).0 & !(1u8 << 7)) | (((val as u8) & 1) << 7)),
    {
        self.0 = (self.0 & !(1u8 << 7)) | (((val as u8) & 1) << 7);
    }
}

impl RegValue for RfoAmLevelDef {
    open spec fn bits(self) -> u8 {
        self.0
    }

    fn from_bits(val: u8) -> (r: Self) {
        RfoAmLevelDef(val)
    }

    fn to_bits(self) -> (r: u8) {
        self.0
    }
}

#[derive(Debug, Clone, Copy, PartialEq, Eq, Structural)]
pub struct RssiResult(pub u8);

impl RssiResult {
    pub fn rssi_pm(&self) -> (r: u8)
        ensures
            r == ((self.0 >> 0) & 15),
    {
        let val = (self.0 >> 0) & 15;
        val
    }

    pub fn rssi_am(&self) -> (r: u8)
        ensures
            r == ((self.0 >> 4) & 15),
    {
        let val = (self.0 >> 4) & 15;
        val
    }
}

impl RegValue for RssiResult {
    open spec fn bits(self) -> u8 {
        self.0
    }

    fn from_bits(val: u8) -> (r: Self) {
        RssiResult(val)
    }

    fn to_bits(self) -> (r: u8) {
        self.0
    }
}

#[derive(Debug, Clone, Copy, PartialEq, Eq, Structural)]
pub struct RxConf1(pub u8);

impl RxConf1 {
    pub fn z12k(&self) -> (r: bool)
        ensures
            r == (((self.0 >> 0) & 1) != 0),
    {
        let val = (self.0 >> 0) & 1;
        val != 0
    }

    pub fn h80(&self) -> (r: bool)
        ensures
            r == (((self.0 >> 1) & 1) != 0),
    {
        let val = (self.0 >> 1) & 1;
        val != 0
    }

    pub fn h200(&self) -> (r: bool)
        ensures
            r == (((self.0 >> 2) & 1) != 0),
    {
        let val = (self.0 >> 2) & 1;
        val != 0
    }

    pub fn lp(&self) -> (r: RxConf1Lp)
        ensures
            r.0 == ((self.0 >> 3) & 7),
    {
        let val = (self.0 >> 3) & 7;
        RxConf1Lp(val)
    }

    pub fn amd_sel(&self) -> (r: bool)
        ensures
            r == (((self.0 >> 6) & 1) != 0),
    {
        let val = (self.0 >> 6) & 1;
        val != 0
    }

    pub fn ch_sel(&self) -> (r: bool)
        ensures
            r == (((self.0 >> 7) & 1) != 0),
    {
        let val = (self.0 >> 7) & 1;
        val != 0
    }

    pub fn set_z12k(&mut self, val: bool)
        ensures
            final(self).0 == ((old(self).0 & !(1u8 << 0)) | (((val as u8) & 1) << 0)),
    {
        self.0 = (self.0 & !(1u8 << 0)) | (((val as u8) & 1) << 0);
    }

    pub fn set_h80(&mut self, val: bool)
        ensures
            final(self).0 == ((old(self).0 & !(1u8 << 1)) | (((val as u8) & 1) << 1)),
    {
        self.0 = (self.0 & !(1u8 << 1)) | (((val as u8) & 1) << 1);
    }

    pub fn set_h200(&mut self, val: bool)
        ensures
            final(self).0 == ((old(self).0 & !(1u8 << 2)) | (((val as u8) & 1) << 2)),
    {
        self.0 = (self.0 & !(1u8 << 2)) | (((val as u8) & 1) << 2);
    }

    pub fn set_lp(&mut self, val: RxConf1Lp)
        ensures
            final(self).0 == ((old(self).0 & !(7u8 << 3)) | ((val.0 & 7) << 3)),
    {
        self.0 = (self.0 & !(7u8 << 3)) | ((val.0 & 7) << 3);
    }

    pub fn set_amd_sel(&mut self, val: bool)
        ensures
            final(self).0 == ((old(self).0 & !(1u8 << 6)) | (((val as u8) & 1) << 6)),
    {
        self.0 = (self.0 & !(1u8 << 6)) | (((val as u8) & 1) << 6);
    }

    pub fn set_ch_sel(&mut self, val: bool)
        ensures
            final(self).0 == ((old(self).0 & !(1u8 << 7)) | (((val as u8) & 1) << 7)),
    {
        self.0 = (self.0 & !(1u8 << 7)) | (((val as u8) & 1) << 7);
    }
}

impl RegValue for RxConf1 {
    open spec fn bits(self) -> u8 {
        self.0
    }

    fn from_bits(val: u8) -> (r: Self) {
        RxConf1(val)
    }

    fn to_bits(self) -> (r: u8) {
        self.0
    }
}

#[derive(Debug, Clone, Copy, PartialEq, Eq, Structural)]
pub struct RxConf2(pub u8);

impl RxConf2 {
    pub fn pmix_cl(&self) -> (r: bool)
        ensures
            r == (((self.0 >> 0) & 1) != 0),
    {
        let val = (self.0 >> 0) & 1;
        val != 0
    }

    pub fn sqm_dyn(&self) -> (r: bool)
        ensures
            r == (((self.0 >> 1) & 1) != 0),
    {
        let val = (self.0 >> 1) & 1;
        val != 0
    }

    pub fn agc_alg(&self) -> (r: bool)
        ensures
            r == (((self.0 >> 2) & 1) != 0),
    {
        let val = (self.0 >> 2) & 1;
        val != 0
    }

    pub fn agc_m(&self) -> (r: bool)
        ensures
            r == (((self.0 >> 3) & 1) != 0),
    {
        let val = (self.0 >> 3) & 1;
        val != 0
    }

    pub fn agc_en(&self) -> (r: bool)
        ensures
            r == (((self.0 >> 4) & 1) != 0),
    {
        let val = (self.0 >> 4) & 1;
        val != 0
    }

    pub fn lf_en(&self) -> (r: bool)
        ensures
            r == (((self.0 >> 5) & 1) != 0),
    {
        let val = (self.0 >> 5) & 1;
        val != 0
    }

    pub fn lf_op(&self) -> (r: bool)
        ensures
            r == (((self.0 >> 6) & 1) != 0),
    {
        let val = (self.0 >> 6) & 1;
        val != 0
    }

    pub fn rx_lp(&self) -> (r: bool)
        ensures
            r == (((self.0 >> 7) & 1) != 0),
    {
        let val = (self.0 >> 7) & 1;
        val != 0
    }

    pub fn set_pmix_cl(&mut self, val: bool)
        ensures
            final(self).0 == ((old(self).0 & !(1u8 << 0)) | (((val as u8) & 1) << 0)),
    {
        self.0 = (self.0 & !(1u8 << 0)) | (((val as u8) & 1) << 0);
    }

    pub fn set_sqm_dyn(&mut self, val: bool)
        ensures
            final(self).0 == ((old(self).0 & !(1u8 << 1)) | (((val as u8) & 1) << 1)),
    {
        self.0 = (self.0 & !(1u8 << 1)) | (((val as u8) & 1) << 1);
    }

    pub fn set_agc_alg(&mut self, val: bool)
        ensures
            final(self).0 == ((old(self).0 & !(1u8 << 2)) | (((val as u8) & 1) << 2)),
    {
        self.0 = (self.0 & !(1u8 << 2)) | (((val as u8) & 1) << 2);
    }

    pub fn set_agc_m(&mut self, val: bool)
        ensures
            final(self).0 == ((old(self).0 & !(1u8 << 3)) | (((val as u8) & 1) << 3)),
    {
        self.0 = (self.0 & !(1u8 << 3)) | (((val as u8) & 1) << 3);
    }

    pub fn set_agc_en(&mut self, val: bool)
        ensures
            final(self).0 == ((old(self).0 & !(1u8 << 4)) | (((val as u8) & 1) << 4)),
    {
        self.0 = (self.0 & !(1u8 << 4)) | (((val as u8) & 1) << 4);
    }

    pub fn set_lf_en(&mut self, val: bool)
        ensures
            final(self).0 == ((old(self).0 & !(1u8 << 5)) | (((val as u8) & 1) << 5)),
    {
        self.0 = (self.0 & !(1u8 << 5)) | (((val as u8) & 1) << 5);
    }

    pub fn set_lf_op(&mut self, val: bool)
        ensures
            final(self).0 == ((old(self).0 & !(1u8 << 6)) | (((val as u8) & 1) << 6)),
    {
        self.0 = (self.0 & !(1u8 << 6)) | (((val as u8) & 1) << 6);
    }

    pub fn set_rx_lp(&mut self, val: bool)
        ensures
            final(self).0 == ((old(self).0 & !(1u8 << 7)) | (((val as u8) & 1) << 7)),
    {
        self.0 = (self.0 & !(1u8 << 7)) | (((val as u8) & 1) << 7);
    }
}

impl RegValue for RxConf2 {
    open spec fn bits(self) -> u8 {
        self.0
    }

    fn from_bits(val: u8) -> (r: Self) {
        RxConf2(val)
    }

    fn to_bits(self) -> (r: u8) {
        self.0
    }
}

#[derive(Debug, Clone, Copy, PartialEq, Eq, Structural)]
pub struct RxConf3(pub u8);

impl RxConf3 {
    pub fn rg_nfc(&self) -> (r: bool)
        ensures
            r == (((self.0 >> 0) & 1) != 0),
    {
        let val = (self.0 >> 0) & 1;
        val != 0
    }

    pub fn lim(&self) -> (r: bool)
        ensures
            r == (((self.0 >> 1) & 1) != 0),
    {
        let val = (self.0 >> 1) & 1;
        val != 0
    }

    pub fn rg1_pm(&self) -> (r: u8)
        ensures
            r == ((self.0 >> 2) & 7),
    {
        let val = (self.0 >> 2) & 7;
        val
    }

    pub fn rg1_am(&self) -> (r: u8)
        ensures
            r == ((self.0 >> 5) & 7),
    {
        let val = (self.0 >> 5) & 7;
        val
    }

    pub fn set_rg_nfc(&mut self, val: bool)
        ensures
            final(self).0 == ((old(self).0 & !(1u8 << 0)) | (((val as u8) & 1) << 0)),
    {
        self.0 = (self.0 & !(1u8 << 0)) | (((val as u8) & 1) << 0);
    }

    pub fn set_lim(&mut self, val: bool)
        ensures
            final(self).0 == ((old(self).0 & !(1u8 << 1)) | (((val as u8) & 1) << 1)),
    {
        self.0 = (self.0 & !(1u8 << 1)) | (((val as u8) & 1) << 1);
    }

    pub fn set_rg1_pm(&mut self, val: u8)
        ensures
            final(self).0 == ((old(self).0 & !(7u8 << 2)) | ((val & 7) << 2)),
    {
        self.0 = (self.0 & !(7u8 << 2)) | ((val & 7) << 2);
    }

    pub fn set_rg1_am(&mut self, val: u8)
        ensures
            final(self).0 == ((old(self).0 & !(7u8 << 5)) | ((val & 7) << 5)),
    {
        self.0 = (self.0 & !(7u8 << 5)) | ((val & 7) << 5);
    }
}

impl RegValue for RxConf3 {
    open spec fn bits(self) -> u8 {
        self.0
    }

    fn from_bits(val: u8) -> (r: Self) {
        RxConf3(val)
    }

    fn to_bits(self) -> (r: u8) {
        self.0
    }
}

#[derive(Debug, Clone, Copy, PartialEq, Eq, Structural)]
pub struct RxConf4(pub u8);

impl RxConf4 {
    pub fn rg2_pm(&self) -> (r: u8)
        ensures
            r == ((self.0 >> 0) & 15),
    {
        let val = (self.0 >> 0) & 15;
        val
    }

    pub fn rg2_am(&self) -> (r: u8)
        ensures
            r == ((self.0 >> 4) & 15),
    {
        let val = (self.0 >> 4) & 15;
        val
    }

    pub fn set_rg2_pm(&mut self, val: u8)
        ensures
            final(self).0 == ((old(self).0 & !(15u8 << 0)) | ((val & 15) << 0)),
    {
        self.0 = (self.0 & !(15u8 << 0)) | ((val & 15) << 0);
    }

    pub fn set_rg2_am(&mut self, val: u8)
        ensures
            final(self).0 == ((old(self).0 & !(15u8 << 4)) | ((val & 15) << 4)),
    {
        self.0 = (self.0 & !(15u8 << 4)) | ((val & 15) << 4);
    }
}

impl RegValue for RxConf4 {
    open spec fn bits(self) -> u8 {
        self.0
    }

    fn from_bits(val: u8) -> (r: Self) {
        RxConf4(val)
    }

    fn to_bits(self) -> (r: u8) {
        self.0
    }
}

#[derive(Debug, Clone, Copy, PartialEq, Eq, Structural)]
pub struct StreamMode(pub u8);

impl StreamMode {
    pub fn stx(&self) -> (r: StreamModeStx)
        ensures
            r.0 == ((self.0 >> 0) & 7),
    {
        let val = (self.0 >> 0) & 7;
        StreamModeStx(val)
    }

    pub fn scp(&self) -> (r: StreamModeScp)
        ensures
            r.0 == ((self.0 >> 3) & 3),
    {
        let val = (self.0 >> 3) & 3;
        StreamModeScp(val)
    }

    pub fn scf(&self) -> (r: StreamModeScf)
        ensures
            r.0 == ((self.0 >> 5) & 3),
    {
        let val = (self.0 >> 5) & 3;
        StreamModeScf(val)
    }

    pub fn set_stx(&mut self, val: StreamModeStx)
        ensures
            final(self).0 == ((old(self).0 & !(7u8 << 0)) | ((val.0 & 7) << 0)),
    {
        self.0 = (self.0 & !(7u8 << 0)) | ((val.0 & 7) << 0);
    }

    pub fn set_scp(&mut self, val: StreamModeScp)
        ensures
            final(self).0 == ((old(self).0 & !(3u8 << 3)) | ((val.0 & 3) << 3)),
    {
        self.0 = (self.0 & !(3u8 << 3)) | ((val.0 & 3) << 3);
    }

    pub fn set_scf(&mut self, val: StreamModeScf)
        ensures
            final(self).0 == ((old(self).0 & !(3u8 << 5)) | ((val.0 & 3) << 5)),
    {
        self.0 = (self.0 & !(3u8 << 5)) | ((val.0 & 3) << 5);
    }
}

impl RegValue for StreamMode {
    open spec fn bits(self) -> u8 {
        self.0
    }

    fn from_bits(val: u8) -> (r: Self) {
        StreamMode(val)
    }

    fn to_bits(self) -> (r: u8) {
        self.0
    }
}

#[derive(Debug, Clone, Copy, PartialEq, Eq, Structural)]
pub struct WupTimerControl(pub u8);

impl WupTimerControl {
    pub fn wph(&self) -> (r: bool)
        ensures
            r == (((self.0 >> 1) & 1) != 0),
    {
        let val = (self.0 >> 1) & 1;
        val != 0
    }

    pub fn wam(&self) -> (r: bool)
        ensures
            r == (((self.0 >> 2) & 1) != 0),
    {
        let val = (self.0 >> 2) & 1;
        val != 0
    }

    pub fn wto(&self) -> (r: bool)
        ensures
            r == (((self.0 >> 3) & 1) != 0),
    {
        let val = (self.0 >> 3) & 1;
        val != 0
    }

    pub fn wut(&self) -> (r: u8)
        ensures
            r == ((self.0 >> 4) & 7),
    {
        let val = (self.0 >> 4) & 7;
        val
    }

    pub fn wur(&self) -> (r: bool)
        ensures
            r == (((self.0 >> 7) & 1) != 0),
    {
        let val = (self.0 >> 7) & 1;
        val != 0
    }

    pub fn set_wph(&mut self, val: bool)
        ensures
            final(self).0 == ((old(self).0 & !(1u8 << 1)) | (((val as u8) & 1) << 1)),
    {
        self.0 = (self.0 & !(1u8 << 1)) | (((val as u8) & 1) << 1);
    }

    pub fn set_wam(&mut self, val: bool)
        ensures
            final(self).0 == ((old(self).0 & !(1u8 << 2)) | (((val as u8) & 1) << 2)),
    {
        self.0 = (self.0 & !(1u8 << 2)) | (((val as u8) & 1) << 2);
    }

    pub fn set_wto(&mut self, val: bool)
        ensures
            final(self).0 == ((old(self).0 & !(1u8 << 3)) | (((val as u8) & 1) << 3)),
    {
        self.0 = (self.0 & !(1u8 << 3)) | (((val as u8) & 1) << 3);
    }

    pub fn set_wut(&mut self, val: u8)
        ensures
            final(self).0 == ((old(self).0 & !(7u8 << 4)) | ((val & 7) << 4)),
    {
        self.0 = (self.0 & !(7u8 << 4)) | ((val & 7) << 4);
    }

    pub fn set_wur(&mut self, val: bool)
        ensures
            final(self).0 == ((old(self).0 & !(1u8 << 7)) | (((val as u8) & 1) << 7)),
    {
        self.0 = (self.0 & !(1u8 << 7)) | (((val as u8) & 1) << 7);
    }
}

impl RegValue for WupTimerControl {
    open spec fn bits(self) -> u8 {
        self.0
    }

    fn from_bits(val: u8) -> (r: Self) {
        WupTimerControl(val)
    }

    fn to_bits(self) -> (r: u8) {
        self.0
    }
}

#[derive(Debug, Clone, Copy, PartialEq, Eq, Structural)]
pub struct BitRateE(pub u8);

impl BitRateE {
    pub fn _106() -> (r: Self)
        ensures
            r.0 == 0x00,
    {
        Self(0x00)
    }

    pub fn _212() -> (r: Self)
        ensures
            r.0 == 0x01,
    {
        Self(0x01)
    }

    pub fn _424() -> (r: Self)
        ensures
            r.0 == 0x02,
    {
        Self(0x02)
    }

    pub fn _848() -> (r: Self)
        ensures
            r.0 == 0x03,
    {
        Self(0x03)
    }

    pub fn _1695() -> (r: Self)
        ensures
            r.0 == 0x04,
    {
        Self(0x04)
    }

    pub fn _3390() -> (r: Self)
        ensures
            r.0 == 0x05,
    {
        Self(0x05)
    }

    pub fn _6780() -> (r: Self)
        ensures
            r.0 == 0x06,
    {
        Self(0x06)
    }
}

impl RegValue for BitRateE {
    open spec fn bits(self) -> u8 {
        self.0
    }

    fn from_bits(val: u8) -> (r: Self) {
        BitRateE(val)
    }

    fn to_bits(self) -> (r: u8) {
        self.0
    }
}

#[derive(Debug, Clone, Copy, PartialEq, Eq, Structural)]
pub struct IcIdentityIcRev(pub u8);

impl IcIdentityIcRev {
    pub fn v0() -> (r: Self)
        ensures
            r.0 == 0x00,
    {
        Self(0x00)
    }

    pub fn v3_1() -> (r: Self)
        ensures
            r.0 == 0x02,
    {
        Self(0x02)
    }

    pub fn v3_3() -> (r: Self)
        ensures
            r.0 == 0x03,
    {
        Self(0x03)
    }

    pub fn v4_0() -> (r: Self)
        ensures
            r.0 == 0x04,
    {
        Self(0x04)
    }

    pub fn v4_1() -> (r: Self)
        ensures
            r.0 == 0x05,
    {
        Self(0x05)
    }
}

impl RegValue for IcIdentityIcRev {
    open spec fn bits(self) -> u8 {
        self.0
    }

    fn from_bits(val: u8) -> (r: Self) {
        IcIdentityIcRev(val)
    }

    fn to_bits(self) -> (r: u8) {
        self.0
    }
}

#[derive(Debug, Clone, Copy, PartialEq, Eq, Structural)]
pub struct IcIdentityIcType(pub u8);

impl IcIdentityIcType {
    pub fn st25r3916() -> (r: Self)
        ensures
            r.0 == 0x05,
    {
        Self(0x05)
    }
}

impl RegValue for IcIdentityIcType {
    open spec fn bits(self) -> u8 {
        self.0
    }

    fn from_bits(val: u8) -> (r: Self) {
        IcIdentityIcType(val)
    }

    fn to_bits(self) -> (r: u8) {
        self.0
    }
}

#[derive(Debug, Clone, Copy, PartialEq, Eq, Structural)]
pub struct IoConf1OutCl(pub u8);

impl IoConf1OutCl {
    pub fn _3_39_mhz() -> (r: Self)
        ensures
            r.0 == 0x00,
    {
        Self(0x00)
    }

    pub fn _6_78_mhz() -> (r: Self)
        ensures
            r.0 == 0x01,
    {
        Self(0x01)
    }

    pub fn _13_86_mhz() -> (r: Self)
        ensures
            r.0 == 0x02,
    {
        Self(0x02)
    }

    pub fn disabled() -> (r: Self)
        ensures
            r.0 == 0x03,
    {
        Self(0x03)
    }
}

impl RegValue for IoConf1OutCl {
    open spec fn bits(self) -> u8 {
        self.0
    }

    fn from_bits(val: u8) -> (r: Self) {
        IoConf1OutCl(val)
    }

    fn to_bits(self) -> (r: u8) {
        self.0
    }
}

#[derive(Debug, Clone, Copy, PartialEq, Eq, Structural)]
pub struct Iso14443B1Sof0(pub u8);

impl Iso14443B1Sof0 {
    pub fn _10etu() -> (r: Self)
        ensures
            r.0 == 0x00,
    {
        Self(0x00)
    }

    pub fn _11etu() -> (r: Self)
        ensures
            r.0 == 0x01,
    {
        Self(0x01)
    }
}

impl RegValue for Iso14443B1Sof0 {
    open spec fn bits(self) -> u8 {
        self.0
    }

    fn from_bits(val: u8) -> (r: Self) {
        Iso14443B1Sof0(val)
    }

    fn to_bits(self) -> (r: u8) {
        self.0
    }
}

#[derive(Debug, Clone, Copy, PartialEq, Eq, Structural)]
pub struct Iso14443B1Sof1(pub u8);

impl Iso14443B1Sof1 {
    pub fn _2etu() -> (r: Self)
        ensures
            r.0 == 0x00,
    {
        Self(0x00)
    }

    pub fn _3etu() -> (r: Self)
        ensures
            r.0 == 0x01,
    {
        Self(0x01)
    }
}

impl RegValue for Iso14443B1Sof1 {
    open spec fn bits(self) -> u8 {
        self.0
    }

    fn from_bits(val: u8) -> (r: Self) {
        Iso14443B1Sof1(val)
    }

    fn to_bits(self) -> (r: u8) {
        self.0
    }
}

#[derive(Debug, Clone, Copy, PartialEq, Eq, Structural)]
pub struct Iso14443B2FP(pub u8);

impl Iso14443B2FP {
    pub fn _48() -> (r: Self)
        ensures
            r.0 == 0x00,
    {
        Self(0x00)
    }

    pub fn _64() -> (r: Self)
        ensures
            r.0 == 0x01,
    {
        Self(0x01)
    }

    pub fn _80() -> (r: Self)
        ensures
            r.0 == 0x02,
    {
        Self(0x02)
    }

    pub fn _96() -> (r: Self)
        ensures
            r.0 == 0x03,
    {
        Self(0x03)
    }
}

impl RegValue for Iso14443B2FP {
    open spec fn bits(self) -> u8 {
        self.0
    }

    fn from_bits(val: u8) -> (r: Self) {
        Iso14443B2FP(val)
    }

    fn to_bits(self) -> (r: u8) {
        self.0
    }
}

#[derive(Debug, Clone, Copy, PartialEq, Eq, Structural)]
pub struct Iso14443B2Tr1(pub u8);

impl Iso14443B2Tr1 {
    pub fn _80fs80fs() -> (r: Self)
        ensures
            r.0 == 0x00,
    {
        Self(0x00)
    }

    pub fn _64fs32fs() -> (r: Self)
        ensures
            r.0 == 0x01,
    {
        Self(0x01)
    }
}

impl RegValue for Iso14443B2Tr1 {
    open spec fn bits(self) -> u8 {
        self.0
    }

    fn from_bits(val: u8) -> (r: Self) {
        Iso14443B2Tr1(val)
    }

    fn to_bits(self) -> (r: u8) {
        self.0
    }
}

#[derive(Debug, Clone, Copy, PartialEq, Eq, Structural)]
pub struct ModeOm(pub u8);

impl ModeOm {
    pub fn targ_nfcip1_active_comm_br_det() -> (r: Self)
        ensures
            r.0 == 0x00,
    {
        Self(0x00)
    }

    pub fn targ_nfcip1_active_comm_normal() -> (r: Self)
        ensures
            r.0 == 0x00,
    {
        Self(0x00)
    }

    pub fn ini_iso14443a() -> (r: Self)
        ensures
            r.0 == 0x01,
    {
        Self(0x01)
    }

    pub fn targ_nfca() -> (r: Self)
        ensures
            r.0 == 0x01,
    {
        Self(0x01)
    }

    pub fn ini_iso14443b() -> (r: Self)
        ensures
            r.0 == 0x02,
    {
        Self(0x02)
    }

    pub fn targ_nfcb() -> (r: Self)
        ensures
            r.0 == 0x02,
    {
        Self(0x02)
    }

    pub fn ini_felica() -> (r: Self)
        ensures
            r.0 == 0x03,
    {
        Self(0x03)
    }

    pub fn ini_topaz() -> (r: Self)
        ensures
            r.0 == 0x04,
    {
        Self(0x04)
    }

    pub fn targ_nfcf() -> (r: Self)
        ensures
            r.0 == 0x04,
    {
        Self(0x04)
    }

    pub fn ini_subcarrier_stream() -> (r: Self)
        ensures
            r.0 == 0x0e,
    {
        Self(0x0e)
    }

    pub fn ini_bpsk_stream() -> (r: Self)
        ensures
            r.0 == 0x0f,
    {
        Self(0x0f)
    }
}

impl RegValue for ModeOm {
    open spec fn bits(self) -> u8 {
        self.0
    }

    fn from_bits(val: u8) -> (r: Self) {
        ModeOm(val)
    }

    fn to_bits(self) -> (r: u8) {
        self.0
    }
}

#[derive(Debug, Clone, Copy, PartialEq, Eq, Structural)]
pub struct RxConf1Lp(pub u8);

impl RxConf1Lp {
    pub fn _1200khz() -> (r: Self)
        ensures
            r.0 == 0x00,
    {
        Self(0x00)
    }

    pub fn _600khz() -> (r: Self)
        ensures
            r.0 == 0x01,
    {
        Self(0x01)
    }

    pub fn _300khz() -> (r: Self)
        ensures
            r.0 == 0x02,
    {
        Self(0x02)
    }

    pub fn _2000khz() -> (r: Self)
        ensures
            r.0 == 0x04,
    {
        Self(0x04)
    }

    pub fn _7000khz() -> (r: Self)
        ensures
            r.0 == 0x05,
    {
        Self(0x05)
    }
}

impl RegValue for RxConf1Lp {
    open spec fn bits(self) -> u8 {
        self.0
    }

    fn from_bits(val: u8) -> (r: Self) {
        RxConf1Lp(val)
    }

    fn to_bits(self) -> (r: u8) {
        self.0
    }
}

#[derive(Debug, Clone, Copy, PartialEq, Eq, Structural)]
pub struct StreamModeScf(pub u8);

impl StreamModeScf {
    pub fn bpsk848() -> (r: Self)
        ensures
            r.0 == 0x00,
    {
        Self(0x00)
    }

    pub fn sc212() -> (r: Self)
        ensures
            r.0 == 0x00,
    {
        Self(0x00)
    }

    pub fn bpsk1695() -> (r: Self)
        ensures
            r.0 == 0x01,
    {
        Self(0x01)
    }

    pub fn sc424() -> (r: Self)
        ensures
            r.0 == 0x01,
    {
        Self(0x01)
    }

    pub fn bpsk3390() -> (r: Self)
        ensures
            r.0 == 0x02,
    {
        Self(0x02)
    }

    pub fn sc848() -> (r: Self)
        ensures
            r.0 == 0x02,
    {
        Self(0x02)
    }

    pub fn bpsk106() -> (r: Self)
        ensures
            r.0 == 0x03,
    {
        Self(0x03)
    }

    pub fn sc1695() -> (r: Self)
        ensures
            r.0 == 0x03,
    {
        Self(0x03)
    }
}

impl RegValue for StreamModeScf {
    open spec fn bits(self) -> u8 {
        self.0
    }

    fn from_bits(val: u8) -> (r: Self) {
        StreamModeScf(val)
    }

    fn to_bits(self) -> (r: u8) {
        self.0
    }
}

#[derive(Debug, Clone, Copy, PartialEq, Eq, Structural)]
pub struct StreamModeScp(pub u8);

impl StreamModeScp {
    pub fn _1pulse() -> (r: Self)
        ensures
            r.0 == 0x00,
    {
        Self(0x00)
    }

    pub fn _2pulses() -> (r: Self)
        ensures
            r.0 == 0x01,
    {
        Self(0x01)
    }

    pub fn _4pulses() -> (r: Self)
        ensures
            r.0 == 0x02,
    {
        Self(0x02)
    }

    pub fn _8pulses() -> (r: Self)
        ensures
            r.0 == 0x03,
    {
        Self(0x03)
    }
}

impl RegValue for StreamModeScp {
    open spec fn bits(self) -> u8 {
        self.0
    }

    fn from_bits(val: u8) -> (r: Self) {
        StreamModeScp(val)
    }

    fn to_bits(self) -> (r: u8) {
        self.0
    }
}

#[derive(Debug, Clone, Copy, PartialEq, Eq, Structural)]
pub struct StreamModeStx(pub u8);

impl StreamModeStx {
    pub fn _106() -> (r: Self)
        ensures
            r.0 == 0x00,
    {
        Self(0x00)
    }

    pub fn _212() -> (r: Self)
        ensures
            r.0 == 0x01,
    {
        Self(0x01)
    }

    pub fn _424() -> (r: Self)
        ensures
            r.0 == 0x02,
    {
        Self(0x02)
    }

    pub fn _848() -> (r: Self)
        ensures
            r.0 == 0x03,
    {
        Self(0x03)
    }
}

impl RegValue for StreamModeStx {
    open spec fn bits(self) -> u8 {
        self.0
    }

    fn from_bits(val: u8) -> (r: Self) {
        StreamModeStx(val)
    }

    fn to_bits(self) -> (r: u8) {
        self.0
    }
}

#[derive(Debug, Clone, Copy, PartialEq, Eq, Structural)]
pub struct ThresholdDef1(pub u8);

impl ThresholdDef1 {
    pub fn _75mv() -> (r: Self)
        ensures
            r.0 == 0x00,
    {
        Self(0x00)
    }

    pub fn _105mv() -> (r: Self)
        ensures
            r.0 == 0x01,
    {
        Self(0x01)
    }

    pub fn _150mv() -> (r: Self)
        ensures
            r.0 == 0x02,
    {
        Self(0x02)
    }

    pub fn _205mv() -> (r: Self)
        ensures
            r.0 == 0x03,
    {
        Self(0x03)
    }

    pub fn _290mv() -> (r: Self)
        ensures
            r.0 == 0x04,
    {
        Self(0x04)
    }

    pub fn _400mv() -> (r: Self)
        ensures
            r.0 == 0x05,
    {
        Self(0x05)
    }

    pub fn _560mv() -> (r: Self)
        ensures
            r.0 == 0x06,
    {
        Self(0x06)
    }

    pub fn _800mv() -> (r: Self)
        ensures
            r.0 == 0x07,
    {
        Self(0x07)
    }
}

impl RegValue for ThresholdDef1 {
    open spec fn bits(self) -> u8 {
        self.0
    }

    fn from_bits(val: u8) -> (r: Self) {
        ThresholdDef1(val)
    }

    fn to_bits(self) -> (r: u8) {
        self.0
    }
}

#[derive(Debug, Clone, Copy, PartialEq, Eq, Structural)]
pub struct ThresholdDef2(pub u8);

impl ThresholdDef2 {
    pub fn _75mv() -> (r: Self)
        ensures
            r.0 == 0x00,
    {
        Self(0x00)
    }

    pub fn _105mv() -> (r: Self)
        ensures
            r.0 == 0x01,
    {
        Self(0x01)
    }

    pub fn _150mv() -> (r: Self)
        ensures
            r.0 == 0x02,
    {
        Self(0x02)
    }

    pub fn _205mv() -> (r: Self)
        ensures
            r.0 == 0x03,
    {
        Self(0x03)
    }

    pub fn _290mv() -> (r: Self)
        ensures
            r.0 == 0x04,
    {
        Self(0x04)
    }

    pub fn _400mv() -> (r: Self)
        ensures
            r.0 == 0x05,
    {
        Self(0x05)
    }

    pub fn _560mv() -> (r: Self)
        ensures
            r.0 == 0x06,
    {
        Self(0x06)
    }

    pub fn _800mv() -> (r: Self)
        ensures
            r.0 == 0x07,
    {
        Self(0x07)
    }

    pub fn _25mv() -> (r: Self)
        ensures
            r.0 == 0x08,
    {
        Self(0x08)
    }

    pub fn _33mv() -> (r: Self)
        ensures
            r.0 == 0x09,
    {
        Self(0x09)
    }

    pub fn _47mv() -> (r: Self)
        ensures
            r.0 == 0x0a,
    {
        Self(0x0a)
    }

    pub fn _64mv() -> (r: Self)
        ensures
            r.0 == 0x0b,
    {
        Self(0x0b)
    }

    pub fn _90mv() -> (r: Self)
        ensures
            r.0 == 0x0c,
    {
        Self(0x0c)
    }

    pub fn _125mv() -> (r: Self)
        ensures
            r.0 == 0x0d,
    {
        Self(0x0d)
    }

    pub fn _175mv() -> (r: Self)
        ensures
            r.0 == 0x0e,
    {
        Self(0x0e)
    }

    pub fn _250mv() -> (r: Self)
        ensures
            r.0 == 0x0f,
    {
        Self(0x0f)
    }
}

impl RegValue for ThresholdDef2 {
    open spec fn bits(self) -> u8 {
        self.0
    }

    fn from_bits(val: u8) -> (r: Self) {
        ThresholdDef2(val)
    }

    fn to_bits(self) -> (r: u8) {
        self.0
    }
}

#[derive(Debug, Clone, Copy, PartialEq, Eq, Structural)]
pub struct TimerEmvControlGptc(pub u8);

impl TimerEmvControlGptc {
    pub fn no_trigger() -> (r: Self)
        ensures
            r.0 == 0x00,
    {
        Self(0x00)
    }

    pub fn erx() -> (r: Self)
        ensures
            r.0 == 0x01,
    {
        Self(0x01)
    }

    pub fn srx() -> (r: Self)
        ensures
            r.0 == 0x02,
    {
        Self(0x02)
    }

    pub fn etx_nfc() -> (r: Self)
        ensures
            r.0 == 0x03,
    {
        Self(0x03)
    }
}

impl RegValue for TimerEmvControlGptc {
    open spec fn bits(self) -> u8 {
        self.0
    }

    fn from_bits(val: u8) -> (r: Self) {
        TimerEmvControlGptc(val)
    }

    fn to_bits(self) -> (r: u8) {
        self.0
    }
}

#[derive(Debug, Clone, Copy, PartialEq, Eq, Structural)]
pub struct TimerEmvControlNrtStep(pub u8);

impl TimerEmvControlNrtStep {
    pub fn _64_fc() -> (r: Self)
        ensures
            r.0 == 0x00,
    {
        Self(0x00)
    }

    pub fn _4096_fc() -> (r: Self)
        ensures
            r.0 == 0x01,
    {
        Self(0x01)
    }
}

impl RegValue for TimerEmvControlNrtStep {
    open spec fn bits(self) -> u8 {
        self.0
    }

    fn from_bits(val: u8) -> (r: Self) {
        TimerEmvControlNrtStep(val)
    }

    fn to_bits(self) -> (r: u8) {
        self.0
    }
}

#[derive(Debug, Clone, Copy, PartialEq, Eq, Structural)]
pub struct WakeupTimesDef(pub u8);

impl WakeupTimesDef {
    pub fn _10() -> (r: Self)
        ensures
            r.0 == 0x00,
    {
        Self(0x00)
    }

    pub fn _20() -> (r: Self)
        ensures
            r.0 == 0x01,
    {
        Self(0x01)
    }

    pub fn _30() -> (r: Self)
        ensures
            r.0 == 0x02,
    {
        Self(0x02)
    }

    pub fn _40() -> (r: Self)
        ensures
            r.0 == 0x03,
    {
        Self(0x03)
    }

    pub fn _50() -> (r: Self)
        ensures
            r.0 == 0x04,
    {
        Self(0x04)
    }

    pub fn _60() -> (r: Self)
        ensures
            r.0 == 0x05,
    {
        Self(0x05)
    }

    pub fn _70() -> (r: Self)
        ensures
            r.0 == 0x06,
    {
        Self(0x06)
    }

    pub fn _80() -> (r: Self)
        ensures
            r.0 == 0x07,
    {
        Self(0x07)
    }
}

impl RegValue for WakeupTimesDef {
    open spec fn bits(self) -> u8 {
        self.0
    }

    fn from_bits(val: u8) -> (r: Self) {
        WakeupTimesDef(val)
    }

    fn to_bits(self) -> (r: u8) {
        self.0
    }
}

} // verus!
