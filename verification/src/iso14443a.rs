//! The ISO14443A frame transceiver: one request/response exchange per call,
//! with raw, anticollision and CRC-protected frame kinds, hardware timing
//! programming, and bit-level decoding of partial anticollision responses.

use vstd::prelude::*;

use crate::commands::Command;
use crate::driver::{DEFAULT_TIMEOUT_MS, FieldOnError};
use crate::interface::{Interface, IrqPin, Timer};
use crate::interrupts::{Interrupt, irq_set};
use crate::regs::RegValue;
use crate::regs;
use crate::{Mode, St25r39};

verus! {

/// NFC-A minimum frame delay time in carrier cycles, relaxed by three etu
/// so that slower cards answering together are still heard.
pub const NFCA_FDTMIN: u32 = 1620;

/// No-response-timer start jitter after the end of transmission, in carrier
/// cycles.
pub const FWT_ADJUSTMENT: u32 = 64;

/// ISO14443A receiver latency: a 4-bit length plus half a bit duration of
/// the coherent receiver, in carrier cycles.
pub const FWT_A_ADJUSTMENT: u32 = 512 + 64;

/// An error of one ISO14443A exchange.
#[derive(Debug, Clone, Copy, PartialEq, Eq)]
pub enum Error<T> {
    /// The bus transport failed.
    Interface(T),
    /// No response arrived in time, or a bounded wait expired.
    Timeout,
    /// A framing error was reported during reception.
    Framing,
    /// The last received byte arrived without its parity bit.
    FramingLastByteMissingParity,
    /// The received CRC did not check.
    Crc,
    /// A collision was observed outside anticollision frames.
    Collision,
    /// A parity error was reported during reception.
    Parity,
    /// A CRC-protected response was shorter than its own CRC.
    ResponseTooShort,
    /// The response did not fit the caller's buffer.
    ResponseTooLong,
    /// The chip's FIFO overflowed.
    FifoOverflow,
    /// The chip's FIFO underflowed.
    FifoUnderflow,
}

impl<T> From<crate::Error<T>> for Error<T> {
    fn from(val: crate::Error<T>) -> (r: Self) {
        match val {
            crate::Error::Interface(e) => Error::Interface(e),
            crate::Error::Timeout => Error::Timeout,
            crate::Error::Calibration => Error::Timeout,
        }
    }
}

impl<T> vstd::std_specs::convert::FromSpecImpl<crate::Error<T>> for Error<T> {
    open spec fn obeys_from_spec() -> bool {
        true
    }

    open spec fn from_spec(val: crate::Error<T>) -> Self {
        match val {
            crate::Error::Interface(e) => Error::Interface(e),
            crate::Error::Timeout => Error::Timeout,
            crate::Error::Calibration => Error::Timeout,
        }
    }
}

/// An error of starting an ISO14443A session.
#[derive(Debug, Clone, Copy, PartialEq, Eq)]
pub enum StartError<T> {
    /// The bus transport failed.
    Interface(T),
    /// Another initiator's field was detected; ours was not enabled.
    FieldCollision,
    /// A bounded wait expired.
    Timeout,
}

impl<T> StartError<T> {
    /// Wraps a controller error; never yields `FieldCollision`.
    pub fn from_error(e: crate::Error<T>) -> (r: Self)
        ensures
            !(r matches StartError::FieldCollision),
            (e matches crate::Error::Timeout) ==> (r matches StartError::Timeout),
            (e matches crate::Error::Interface(_)) ==> (r matches StartError::Interface(_)),
    {
        match e {
            crate::Error::Interface(x) => StartError::Interface(x),
            crate::Error::Timeout => StartError::Timeout,
            crate::Error::Calibration => StartError::Timeout,
        }
    }

    /// Carries a field-on error over, variant for variant.
    pub fn from_field(e: FieldOnError<T>) -> (r: Self)
        ensures
            (e matches FieldOnError::FieldCollision) <==> (r matches StartError::FieldCollision),
            (e matches FieldOnError::Timeout) ==> (r matches StartError::Timeout),
            (e matches FieldOnError::Interface(_)) ==> (r matches StartError::Interface(_)),
    {
        match e {
            FieldOnError::FieldCollision => StartError::FieldCollision,
            FieldOnError::Interface(x) => StartError::Interface(x),
            FieldOnError::Timeout => StartError::Timeout,
        }
    }
}

/// One ISO14443A exchange's kind: it decides the transmit command, CRC
/// handling, bit-count programming and the response timeout.
#[derive(Debug, Clone, Copy, PartialEq, Eq, Structural)]
pub enum Frame {
    /// The REQA polling command, sent raw by a dedicated direct command.
    ReqA,
    /// The WUPA polling command, sent raw by a dedicated direct command.
    WupA,
    /// An anticollision frame of `bits` transmitted bits, sent raw so that
    /// colliding bits stay observable.
    Anticoll { bits: usize },
    /// An ordinary frame with hardware-appended CRC and the given response
    /// timeout in carrier cycles.
    Standard { timeout_1fc: u32 },
}

/// The valid bit count of a decoded anticollision response: at a collision,
/// eight bits per full byte before the colliding byte plus the colliding
/// byte's valid bits; otherwise eight bits per received byte, the copied
/// prefix included.
pub fn anticoll_bit_count(collision: Option<(u8, u8)>, full_bytes: usize, fifo_bytes: usize) -> (r:
    usize)
    requires
        full_bytes <= 0x2000,
        fifo_bytes <= 0x100,
    ensures
        collision matches Some((c_byte, c_bit)) ==> r == 8 * c_byte + c_bit,
        collision is None ==> r == 8 * (full_bytes + fifo_bytes),
{
    match collision {
        Some((c_byte, c_bit)) => 8 * (c_byte as usize) + (c_bit as usize),
        None => 8 * (full_bytes + fifo_bytes),
    }
}

/// The length decision for a byte-aligned response: a CRC-protected frame
/// must at least hold its own 2-byte CRC, which is then subtracted; the
/// remaining payload must fit the caller's buffer.
pub fn standard_rx_length<T>(raw: bool, count: usize, capacity: usize) -> (r: Result<
    usize,
    Error<T>,
>)
    ensures
        (!raw && count < 2) ==> r matches Err(Error::ResponseTooShort),
        (!raw && count >= 2 && count - 2 > capacity) ==> r matches Err(Error::ResponseTooLong),
        (!raw && count >= 2 && count - 2 <= capacity) ==> r == Result::<usize, Error<T>>::Ok(
            (count - 2) as usize,
        ),
        (raw && count > capacity) ==> r matches Err(Error::ResponseTooLong),
        (raw && count <= capacity) ==> r == Result::<usize, Error<T>>::Ok(count),
{
    let mut n = count;
    if !raw {
        if n < 2 {
            return Err(Error::ResponseTooShort);
        }
        n = n - 2;
    }
    if n > capacity {
        return Err(Error::ResponseTooLong);
    }
    Ok(n)
}

/// The terminal FIFO faults of one reception, in the order they are
/// checked: overflow, underflow, then a last byte missing its parity bit.
pub fn fifo_fault<T>(stat: regs::FifoStatus2) -> (r: Option<Error<T>>)
    ensures
        ((stat.0 >> 5) & 1) != 0 ==> r == Some(Error::<T>::FifoOverflow),
        (((stat.0 >> 5) & 1) == 0 && ((stat.0 >> 6) & 1) != 0) ==> r == Some(
            Error::<T>::FifoUnderflow,
        ),
        (((stat.0 >> 5) & 1) == 0 && ((stat.0 >> 6) & 1) == 0 && ((stat.0 >> 0) & 1) != 0) ==> r
            == Some(Error::<T>::FramingLastByteMissingParity),
        (((stat.0 >> 5) & 1) == 0 && ((stat.0 >> 6) & 1) == 0 && ((stat.0 >> 0) & 1) == 0) ==> r
            is None,
{
    if stat.fifo_ovr() {
        Some(Error::FifoOverflow)
    } else if stat.fifo_unf() {
        Some(Error::FifoUnderflow)
    } else if stat.np_lb() {
        Some(Error::FramingLastByteMissingParity)
    } else {
        None
    }
}

/// The valid low bits of the partially transmitted byte of an
/// anticollision frame of `bits` bits.
pub open spec fn partial_bits(tx_byte: u8, bits: usize) -> u8 {
    tx_byte & (((1u8 << ((bits % 8) as u32)) - 1) as u8)
}

/// OR-ing bits into a byte sets every one of them.
proof fn lemma_or_sets_bits(a: u8, b: u8)
    ensures
        (a | b) & b == b,
{
    assert(forall|x: u8, y: u8| (x | y) & y == y) by (bit_vector);
}

/// An ST25R39 chip with its field on, exchanging ISO14443A frames.  The
/// session borrows the controller exclusively; `finish` releases it and
/// turns the field off, and must be reached on every exit path — an
/// energized field is a real hazard, not just a leaked resource.
pub struct Iso14443a<'d, I: Interface, P: IrqPin, T: Timer> {
    inner: &'d mut St25r39<I, P, T>,
}

impl<I: Interface, P: IrqPin, T: Timer> St25r39<I, P, T> {
    /// Enters `On` mode, turns the field on (returning to `Off` mode if
    /// that fails), waits the field-on guard time, and hands out the
    /// session.
    pub fn start_iso14443a(&mut self) -> (r: Result<Iso14443a<'_, I, P, T>, StartError<I::Error>>)
        ensures
            r matches Err(e) ==> (e matches StartError::FieldCollision
                ==> final(self).current_mode() == Mode::Off),
    {
        match self.mode_on() {
            Ok(()) => (),
            Err(e) => return Err(StartError::from_error(e)),
        }
        match self.field_on() {
            Ok(()) => (),
            Err(e) => {
                match self.mode_off() {
                    Ok(()) => (),
                    Err(e2) => return Err(StartError::from_error(e2)),
                }
                return Err(StartError::from_field(e));
            }
        }

        // Field-on guard time.
        self.delay_ms(5);

        Ok(Iso14443a { inner: self })
    }
}

impl<'d, I: Interface, P: IrqPin, T: Timer> Iso14443a<'d, I, P, T> {
    /// The accumulated interrupt bitmap of the borrowed controller.
    pub closed spec fn observed_irqs(self) -> u32 {
        self.inner.irq_bits()
    }

    /// Ends the session: turns the field off and returns the controller to
    /// `Off` mode.
    pub fn finish(self) -> (r: Result<(), Error<I::Error>>) {
        match self.inner.mode_off() {
            Ok(()) => Ok(()),
            Err(e) => Err(Error::from(e)),
        }
    }

    /// One ISO14443A exchange: programs the transmission per `frame`,
    /// configures anticollision visibility and the no-response timer,
    /// transmits, waits for the response under the hardware timer and an
    /// independent safety deadline, checks the FIFO for faults, and decodes
    /// the response into `rx`.
    ///
    /// Returns the number of valid received bits.  For an anticollision
    /// frame, the full bytes before the collision point are taken from
    /// `tx` — the hardware does not hand back the prefix it already
    /// acknowledged — which the contract pins: on success the first
    /// `bits / 8` bytes of `rx` equal those of `tx`.
    #[verifier::loop_isolation(false)]
    pub fn transceive(&mut self, tx: &[u8], rx: &mut [u8], frame: Frame) -> (r: Result<
        usize,
        Error<I::Error>,
    >)
        requires
            frame matches Frame::Anticoll { bits } ==> bits <= 0xFFFF && (bits + 7) / 8 <= tx@.len()
                && (bits + 7) / 8 <= old(rx)@.len(),
            frame matches Frame::Standard { .. } ==> tx@.len() <= 8191,
        ensures
            final(rx)@.len() == old(rx)@.len(),
            r matches Ok(n) ==> (!(frame matches Frame::Anticoll { .. }) ==> n % 8 == 0 && n / 8
                <= old(rx)@.len()),
            frame matches Frame::Anticoll { bits } ==> (r matches Ok(n) ==> forall|j: int|
                0 <= j < bits / 8 ==> final(rx)@[j] == tx@[j]),
            frame matches Frame::Anticoll { bits } ==> (r matches Ok(_) && bits % 8 != 0
                ==> final(rx)@[bits as int / 8] & partial_bits(tx@[bits as int / 8], bits)
                    == partial_bits(tx@[bits as int / 8], bits)),
            r matches Ok(_) ==> irq_set(final(self).observed_irqs(), Interrupt::Rxe),
            r matches Err(e) ==> ((e matches Error::Framing ==> irq_set(
                final(self).observed_irqs(),
                Interrupt::Err1,
            ) && !irq_set(final(self).observed_irqs(), Interrupt::Nre)) && (e
                matches Error::Parity ==> irq_set(final(self).observed_irqs(), Interrupt::Par)
                && !irq_set(final(self).observed_irqs(), Interrupt::Nre) && !irq_set(
                final(self).observed_irqs(),
                Interrupt::Err1,
            )) && (e matches Error::Crc ==> irq_set(final(self).observed_irqs(), Interrupt::Crc)
                && !irq_set(final(self).observed_irqs(), Interrupt::Nre) && !irq_set(
                final(self).observed_irqs(),
                Interrupt::Err1,
            ) && !irq_set(final(self).observed_irqs(), Interrupt::Par)) && (e
                matches Error::Collision ==> irq_set(final(self).observed_irqs(), Interrupt::Col)
                && !(frame matches Frame::Anticoll { .. }) && !irq_set(
                final(self).observed_irqs(),
                Interrupt::Nre,
            ) && !irq_set(final(self).observed_irqs(), Interrupt::Err1) && !irq_set(
                final(self).observed_irqs(),
                Interrupt::Par,
            ) && !irq_set(final(self).observed_irqs(), Interrupt::Crc))),
    {
        let this = &mut *self.inner;

        match this.cmd(Command::Stop) {
            Ok(()) => (),
            Err(e) => return Err(Error::from(e)),
        }
        match this.cmd(Command::ResetRxgain) {
            Ok(()) => (),
            Err(e) => return Err(Error::from(e)),
        }

        let is_anticoll = matches!(frame, Frame::Anticoll { .. });

        let (raw, cmd, timeout_1fc) = match frame {
            Frame::ReqA => (true, Command::TransmitReqa, NFCA_FDTMIN),
            Frame::WupA => (true, Command::TransmitWupa, NFCA_FDTMIN),
            Frame::Anticoll { bits } => {
                let low: u8 = (bits % 256) as u8;
                let high: u8 = ((bits / 256) % 256) as u8;
                match regs::Regs::new().num_tx_bytes2().write_value(
                    &mut this.iface,
                    regs::NumTxBytes2::from_bits(low),
                ) {
                    Ok(()) => (),
                    Err(e) => return Err(Error::from(e)),
                }
                match regs::Regs::new().num_tx_bytes1().write_value(&mut this.iface, high) {
                    Ok(()) => (),
                    Err(e) => return Err(Error::from(e)),
                }
                let prefix = vstd::slice::slice_subrange(tx, 0, (bits + 7) / 8);
                match this.iface.write_fifo(prefix) {
                    Ok(()) => (),
                    Err(e) => return Err(Error::Interface(e)),
                }
                (true, Command::TransmitWithoutCrc, NFCA_FDTMIN)
            }
            Frame::Standard { timeout_1fc } => {
                let bits = tx.len() * 8;
                let low: u8 = (bits % 256) as u8;
                let high: u8 = ((bits / 256) % 256) as u8;
                match regs::Regs::new().num_tx_bytes2().write_value(
                    &mut this.iface,
                    regs::NumTxBytes2::from_bits(low),
                ) {
                    Ok(()) => (),
                    Err(e) => return Err(Error::from(e)),
                }
                match regs::Regs::new().num_tx_bytes1().write_value(&mut this.iface, high) {
                    Ok(()) => (),
                    Err(e) => return Err(Error::from(e)),
                }
                match this.iface.write_fifo(tx) {
                    Ok(()) => (),
                    Err(e) => return Err(Error::Interface(e)),
                }
                (false, Command::TransmitWithCrc, timeout_1fc)
            }
        };

        // During anticollision the collision stays visible: no CRC check on
        // reception and no automatic gain control.
        let mut nfc = regs::Iso14443ANfc::from_bits(0);
        nfc.set_antcl(is_anticoll);
        match regs::Regs::new().iso14443a_nfc().write_value(&mut this.iface, nfc) {
            Ok(()) => (),
            Err(e) => return Err(Error::from(e)),
        }

        let mut aux = regs::Aux::from_bits(0);
        aux.set_no_crc_rx(raw);
        match regs::Regs::new().aux().write_value(&mut this.iface, aux) {
            Ok(()) => (),
            Err(e) => return Err(Error::from(e)),
        }

        let mut rxc = regs::RxConf2::from_bits(0);
        rxc.set_agc_en(!is_anticoll);
        rxc.set_agc_m(true);
        rxc.set_sqm_dyn(true);
        match regs::Regs::new().rx_conf2().write_value(&mut this.iface, rxc) {
            Ok(()) => (),
            Err(e) => return Err(Error::from(e)),
        }

        match this.set_nrt(timeout_1fc.saturating_add(FWT_ADJUSTMENT + FWT_A_ADJUSTMENT)) {
            Ok(()) => (),
            Err(e) => return Err(Error::from(e)),
        }

        // The stop command already cleared the chip's pending interrupts.
        this.irqs = 0;
        match this.cmd(cmd) {
            Ok(()) => (),
            Err(e) => return Err(Error::from(e)),
        }

        match this.irq_wait(Interrupt::Txe) {
            Ok(()) => (),
            Err(e) => return Err(Error::from(e)),
        }

        // Wait for reception to end or fail.  The hardware no-response
        // timer bounds the tag; the safety deadline only guards against a
        // stuck state and should never fire.
        let now = this.timer.now_ms();
        let deadline = now.saturating_add(DEFAULT_TIMEOUT_MS);
        // Until reception ends, the outcome stands at the safety timeout.
        let mut outcome: Result<(), Error<I::Error>> = Err(Error::Timeout);
        let mut spins: u64 = 0;
        loop
            invariant
                outcome matches Ok(_) ==> irq_set(this.irq_bits(), Interrupt::Rxe),
                outcome matches Err(e) ==> ((e matches Error::Framing ==> irq_set(
                    this.irq_bits(),
                    Interrupt::Err1,
                ) && !irq_set(this.irq_bits(), Interrupt::Nre)) && (e matches Error::Parity
                    ==> irq_set(this.irq_bits(), Interrupt::Par) && !irq_set(
                    this.irq_bits(),
                    Interrupt::Nre,
                ) && !irq_set(this.irq_bits(), Interrupt::Err1)) && (e matches Error::Crc
                    ==> irq_set(this.irq_bits(), Interrupt::Crc) && !irq_set(
                    this.irq_bits(),
                    Interrupt::Nre,
                ) && !irq_set(this.irq_bits(), Interrupt::Err1) && !irq_set(
                    this.irq_bits(),
                    Interrupt::Par,
                )) && (e matches Error::Collision ==> irq_set(this.irq_bits(), Interrupt::Col)
                    && !is_anticoll && !irq_set(this.irq_bits(), Interrupt::Nre) && !irq_set(
                    this.irq_bits(),
                    Interrupt::Err1,
                ) && !irq_set(this.irq_bits(), Interrupt::Par) && !irq_set(
                    this.irq_bits(),
                    Interrupt::Crc,
                ))),
            decreases u64::MAX - spins,
        {
            if this.irq(Interrupt::Nre) {
                outcome = Err(Error::Timeout);
                break;
            }
            if this.irq(Interrupt::Err1) {
                outcome = Err(Error::Framing);
                break;
            }
            if this.irq(Interrupt::Par) {
                outcome = Err(Error::Parity);
                break;
            }
            if this.irq(Interrupt::Crc) {
                outcome = Err(Error::Crc);
                break;
            }
            if !is_anticoll && this.irq(Interrupt::Col) {
                outcome = Err(Error::Collision);
                break;
            }
            if this.irq(Interrupt::Rxe) {
                outcome = Ok(());
                break;
            }
            if this.timer.now_ms() > deadline || spins == u64::MAX {
                outcome = Err(Error::Timeout);
                break;
            }
            spins = spins + 1;
            this.timer.yield_now();
            match this.irq_update() {
                Ok(()) => (),
                Err(e) => {
                    outcome = Err(Error::from(e));
                    break;
                }
            }
        }

        // The no-response timer stops on every path, success or failure.
        match this.cmd(Command::StopNrt) {
            Ok(()) => (),
            Err(e) => return Err(Error::from(e)),
        }
        outcome?;

        let stat = match regs::Regs::new().fifo_status2().read(&mut this.iface) {
            Ok(v) => v,
            Err(e) => return Err(Error::from(e)),
        };
        match fifo_fault(stat) {
            Some(fault) => {
                return Err(fault);
            }
            None => (),
        }

        let count = match regs::Regs::new().fifo_status1().read(&mut this.iface) {
            Ok(v) => v,
            Err(e) => return Err(Error::from(e)),
        };
        let rx_bytes: usize = count as usize;

        if let Frame::Anticoll { bits } = frame {
            // The already-acknowledged prefix comes from what we sent.
            let full_bytes = bits / 8;
            let mut i: usize = 0;
            while i < full_bytes
                invariant
                    i <= full_bytes,
                    rx@.len() == old(rx)@.len(),
                    forall|j: int| 0 <= j < i ==> rx@[j] == tx@[j],
                decreases full_bytes - i,
            {
                rx[i] = tx[i];
                i += 1;
            }

            if rx.len() - full_bytes < rx_bytes {
                return Err(Error::ResponseTooLong);
            }

            let mut buf: Vec<u8> = Vec::new();
            let mut k: usize = 0;
            while k < rx_bytes
                invariant
                    k <= rx_bytes,
                    buf@.len() == k,
                decreases rx_bytes - k,
            {
                buf.push(0);
                k += 1;
            }
            match this.iface.read_fifo(&mut buf) {
                Ok(()) => (),
                Err(e) => return Err(Error::Interface(e)),
            }
            let mut j: usize = 0;
            while j < rx_bytes
                invariant
                    j <= rx_bytes,
                    buf@.len() == rx_bytes,
                    full_bytes + rx_bytes <= rx@.len(),
                    rx@.len() == old(rx)@.len(),
                    forall|q: int| 0 <= q < full_bytes ==> rx@[q] == tx@[q],
                decreases rx_bytes - j,
            {
                rx[full_bytes + j] = buf[j];
                j += 1;
            }

            // A non-byte-aligned trailing partial bit is OR'd in from `tx`.
            if bits % 8 != 0 {
                let sh: u32 = (bits % 8) as u32;
                proof {
                    assert(sh < 8 ==> (1u8 << sh) >= 1) by (bit_vector);
                }
                let mask = (1u8 << sh) - 1;
                let half_byte = tx[full_bytes] & mask;
                let cur = rx[full_bytes];
                proof {
                    lemma_or_sets_bits(cur, half_byte);
                }
                rx[full_bytes] = cur | half_byte;
            }

            let rx_bits = if this.irq(Interrupt::Col) {
                let coll = match regs::Regs::new().collision_status().read(&mut this.iface) {
                    Ok(v) => v,
                    Err(e) => return Err(Error::from(e)),
                };
                anticoll_bit_count(Some((coll.c_byte(), coll.c_bit())), full_bytes, rx_bytes)
            } else {
                anticoll_bit_count(None, full_bytes, rx_bytes)
            };

            Ok(rx_bits)
        } else {
            // A CRC-protected response carries a 2-byte trailing CRC that
            // the caller never sees.
            let n = standard_rx_length(raw, rx_bytes, rx.len())?;

            let mut buf: Vec<u8> = Vec::new();
            let mut k: usize = 0;
            while k < n
                invariant
                    k <= n,
                    buf@.len() == k,
                decreases n - k,
            {
                buf.push(0);
                k += 1;
            }
            match this.iface.read_fifo(&mut buf) {
                Ok(()) => (),
                Err(e) => return Err(Error::Interface(e)),
            }
            let mut j: usize = 0;
            while j < n
                invariant
                    j <= n,
                    buf@.len() == n,
                    n <= rx@.len(),
                    rx@.len() == old(rx)@.len(),
                decreases n - j,
            {
                rx[j] = buf[j];
                j += 1;
            }

            Ok(n * 8)
        }
    }
}

} // verus!
