//! The ISO-DEP (ISO14443-4) block-transport layer: activation with frame
//! size negotiation, numbered I-blocks whose spin bit strictly alternates
//! across completed exchanges, and wait-time-extension handling.

use vstd::prelude::*;

verus! {

/// The longest activation answer (ATS) that is read.
pub const ATS_MAX_LEN: usize = 32;

/// The largest negotiable frame size, CRC included.
pub const FSC_MAX: usize = 256;

/// The largest frame payload once the hardware strips the 2-byte CRC.
pub const FSC_MAX_WITHOUT_CRC: usize = 254;

/// An ISO14443A tag that exchanges whole frames: one request out, one
/// response into `rx`, returning the response's byte count.  Supplied by
/// the layer below or by a test double.  An implementation writes the
/// response into the front of `rx`, leaves the buffer's length unchanged,
/// and never reports more bytes than the buffer holds.
pub trait Iso14443aTag {
    type Error;

    fn transceive(&mut self, tx: &[u8], rx: &mut Vec<u8>) -> (r: Result<usize, Self::Error>)
        ensures
            final(rx)@.len() == old(rx)@.len(),
            r matches Ok(n) ==> n <= old(rx)@.len(),
    ;
}

/// An error of the ISO-DEP layer.
#[derive(Debug, Clone, Copy, PartialEq, Eq)]
pub enum Error<E> {
    /// The ISO14443A exchange below failed.
    Iso14443a(E),
    /// The tag broke the block protocol: a too-short activation answer, a
    /// reserved frame-size index, an empty or malformed response, or a
    /// response kind (chaining, R-blocks, other S-blocks) that is out of
    /// this layer's scope.
    Protocol,
    /// The request does not fit the negotiated frame size.
    TxFrameTooBig,
    /// The response payload does not fit the caller's buffer.
    RxFrameTooBig,
}

/// The frame size that a 4-bit frame-size index (FSCI) stands for.  The
/// table is not a doubling sequence: its final entry jumps to 256.
pub open spec fn fsc_of_index(idx: int) -> usize {
    if idx == 0 {
        16
    } else if idx == 1 {
        24
    } else if idx == 2 {
        32
    } else if idx == 3 {
        40
    } else if idx == 4 {
        48
    } else if idx == 5 {
        64
    } else if idx == 6 {
        96
    } else if idx == 7 {
        128
    } else {
        256
    }
}

/// Decodes a frame-size index: indices 0 through 8 give the negotiated
/// frame size {16, 24, 32, 40, 48, 64, 96, 128, 256}; higher indices are
/// reserved and decode to nothing.
pub fn frame_size_for_index(idx: usize) -> (r: Option<usize>)
    ensures
        idx < 9 ==> r == Some(fsc_of_index(idx as int)),
        idx >= 9 ==> r is None,
{
    match idx {
        0 => Some(16),
        1 => Some(24),
        2 => Some(32),
        3 => Some(40),
        4 => Some(48),
        5 => Some(64),
        6 => Some(96),
        7 => Some(128),
        8 => Some(256),
        _ => None,
    }
}

/// The protocol control byte of a non-chained I-block with the given spin
/// bit.
pub open spec fn iblock_header(spin: u8) -> u8 {
    0x02 | spin
}

/// The reply to an S(WTX) request: the requested multiplier masked to its
/// low six bits.
pub open spec fn wtx_multiplier(req: u8) -> u8 {
    req & 0x3f
}

/// Echoes a wait-time-extension request: the reply carries exactly the
/// requested multiplier masked to six bits.
pub fn wtx_reply(req: u8) -> (r: u8)
    ensures
        r == wtx_multiplier(req),
{
    req & 0x3f
}

/// The fixed 2-byte activation (RATS) request.
pub fn rats_request() -> (r: Vec<u8>)
    ensures
        r@.len() == 2,
        r@[0] == 0xe0,
        r@[1] == 0x80,
{
    let mut v: Vec<u8> = Vec::new();
    v.push(0xe0);
    v.push(0x80);
    v
}

/// Decodes an activation answer of `len` bytes whose second byte is
/// `ats1`: the answer must hold at least two bytes, and the low nibble of
/// its second byte must be a non-reserved frame-size index; the decoded
/// frame size comes from the negotiation table.
pub fn decode_activation(ats1: u8, len: usize) -> (r: Option<usize>)
    ensures
        len < 2 ==> r is None,
        (len >= 2 && (ats1 & 0xf) >= 9) ==> r is None,
        (len >= 2 && (ats1 & 0xf) < 9) ==> r == Some(fsc_of_index((ats1 & 0xf) as int)),
{
    if len < 2 {
        return None;
    }
    frame_size_for_index((ats1 & 0xf) as usize)
}

/// Builds the I-block frame for one request: the header byte for the given
/// spin bit, followed by the whole payload.
pub fn build_iblock(spin: u8, tx: &[u8]) -> (r: Vec<u8>)
    ensures
        r@.len() == tx@.len() + 1,
        r@[0] == iblock_header(spin),
        forall|i: int| 0 <= i < tx@.len() ==> r@[i + 1] == tx@[i],
{
    let mut buf: Vec<u8> = Vec::new();
    buf.push(0x02 | spin);
    let mut i: usize = 0;
    while i < tx.len()
        invariant
            i <= tx@.len(),
            buf@.len() == i + 1,
            buf@[0] == iblock_header(spin),
            forall|k: int| 0 <= k < i ==> buf@[k + 1] == tx@[k],
        decreases tx@.len() - i,
    {
        buf.push(tx[i]);
        i += 1;
    }
    buf
}

/// What one raw response means under the expected I-block header.
#[derive(Debug, Clone, Copy, PartialEq, Eq, Structural)]
pub enum ResponseKind {
    /// An S(WTX) wait-time-extension request; the field is the multiplier
    /// to echo back.
    WaitExtension(u8),
    /// The response under exactly the header that was sent; the field is
    /// its payload length.
    Payload(usize),
    /// Empty, a malformed S(WTX), or any other header — chaining,
    /// R-blocks and other S-blocks are out of this layer's scope, so such
    /// a response is never accepted.
    Unsupported,
}

/// Classifies one raw response: its first two bytes `first` and `second`
/// and its length `len`, against the I-block header that was sent.  Only a
/// well-formed S(WTX) or a response under exactly the sent header is
/// accepted; everything else is unsupported.
pub fn classify_response(first: u8, second: u8, len: usize, expected: u8) -> (r: ResponseKind)
    ensures
        len == 0 ==> r is Unsupported,
        (len >= 1 && first == 0xf2 && len == 2) ==> r == ResponseKind::WaitExtension(
            wtx_multiplier(second),
        ),
        (len >= 1 && first == 0xf2 && len != 2) ==> r is Unsupported,
        (len >= 1 && first != 0xf2 && first == expected) ==> r == ResponseKind::Payload(
            (len - 1) as usize,
        ),
        (len >= 1 && first != 0xf2 && first != expected) ==> r is Unsupported,
{
    if len == 0 {
        return ResponseKind::Unsupported;
    }
    if first == 0xf2 {
        if len != 2 {
            return ResponseKind::Unsupported;
        }
        return ResponseKind::WaitExtension(wtx_reply(second));
    }
    if first != expected {
        return ResponseKind::Unsupported;
    }
    ResponseKind::Payload(len - 1)
}

/// Strips the one header byte off a response and copies the payload into
/// the front of `rx`; everything past the payload is left as it was.
pub fn copy_payload(resp: &Vec<u8>, len: usize, rx: &mut [u8]) -> (r: usize)
    requires
        1 <= len <= resp@.len(),
        len - 1 <= old(rx)@.len(),
    ensures
        r == len - 1,
        final(rx)@.len() == old(rx)@.len(),
        forall|j: int| 0 <= j < len - 1 ==> final(rx)@[j] == resp@[j + 1],
        forall|j: int| len - 1 <= j < old(rx)@.len() ==> final(rx)@[j] == old(rx)@[j],
{
    let n = len - 1;
    let mut j: usize = 0;
    while j < n
        invariant
            j <= n,
            n == len - 1,
            1 <= len <= resp@.len(),
            n <= rx@.len(),
            rx@.len() == old(rx)@.len(),
            forall|q: int| 0 <= q < j ==> rx@[q] == resp@[q + 1],
            forall|q: int| j <= q < old(rx)@.len() ==> rx@[q] == old(rx)@[q],
        decreases n - j,
    {
        rx[j] = resp[j + 1];
        j += 1;
    }
    n
}

/// Consecutive completed exchanges alternate their headers: a spin bit and
/// its flip give the two distinct I-block headers 0x02 and 0x03, so no
/// header ever repeats across two neighbouring completed exchanges.
pub proof fn lemma_headers_alternate(spin: u8)
    requires
        spin <= 1,
    ensures
        iblock_header(spin) != iblock_header((1 - spin) as u8),
        iblock_header(spin) == 0x02 || iblock_header(spin) == 0x03,
{
    assert((0x02u8 | 0u8) == 0x02u8 && (0x02u8 | 1u8) == 0x03u8) by (bit_vector);
}

/// An activated ISO-DEP tag: the tag below, the negotiated frame size
/// `fsc` (fixed for the session's lifetime), and the block-numbering spin
/// bit.
pub struct IsoDepA<TG: Iso14443aTag> {
    tag: TG,
    /// The largest frame the tag accepts, header and CRC included: a
    /// request of `n` payload bytes needs `n + 3` frame bytes.
    fsc: usize,
    /// Alternates across completed, non-WTX exchanges; never changes
    /// during a wait-time-extension round trip.
    spinny_bit: u8,
}

impl<TG: Iso14443aTag> IsoDepA<TG> {
    /// The session's negotiated frame size.
    pub closed spec fn fsc_value(self) -> usize {
        self.fsc
    }

    /// The session's spin bit.
    pub closed spec fn spin(self) -> u8 {
        self.spinny_bit
    }

    /// The session's invariant: a single-bit spin and a frame size from
    /// the negotiation table.
    pub closed spec fn wf(self) -> bool {
        self.spinny_bit <= 1 && 16 <= self.fsc <= 256
    }

    /// Activates the tag: sends the RATS request, requires an activation
    /// answer of at least two bytes, decodes the 4-bit frame-size index of
    /// its second byte against the negotiation table — rejecting reserved
    /// indices — and stores the decoded frame size for the session's
    /// lifetime.  The spin bit starts at zero.
    pub fn new(tag: TG) -> (r: Result<Self, Error<TG::Error>>)
        ensures
            r matches Ok(s) ==> s.wf() && s.spin() == 0,
    {
        let mut tag = tag;
        let req = rats_request();

        let mut res: Vec<u8> = Vec::new();
        let mut k: usize = 0;
        while k < ATS_MAX_LEN
            invariant
                k <= ATS_MAX_LEN,
                res@.len() == k,
            decreases ATS_MAX_LEN - k,
        {
            res.push(0);
            k += 1;
        }

        let res_len = match tag.transceive(req.as_slice(), &mut res) {
            Ok(len) => len,
            Err(e) => {
                return Err(Error::Iso14443a(e));
            }
        };

        match decode_activation(res[1], res_len) {
            Some(fsc) => Ok(Self { tag, fsc, spinny_bit: 0 }),
            None => Err(Error::Protocol),
        }
    }

    /// The tag below.
    pub fn inner(&self) -> &TG {
        &self.tag
    }

    /// The tag below, mutably.
    pub fn inner_mut(&mut self) -> &mut TG {
        &mut self.tag
    }

    /// One block exchange: sends the request as a non-chained I-block
    /// headed by `0x02 | spin`, answers each S(WTX) request by echoing its
    /// multiplier masked to six bits — without touching the spin bit — and
    /// accepts a response only under the exact header that was sent; any
    /// other header (chaining, R-blocks, other S-blocks) is out of this
    /// layer's scope and rejected as `Protocol`.  The response payload is
    /// copied into `rx` and the spin bit flips exactly once.
    ///
    /// The frame-size bound counts the header byte and the 2-byte CRC
    /// against `fsc`: a request of `n` payload bytes is rejected as
    /// `TxFrameTooBig` when `n + 3` exceeds it.
    pub fn transceive(&mut self, tx: &[u8], rx: &mut [u8]) -> (r: Result<usize, Error<TG::Error>>)
        requires
            old(self).wf(),
        ensures
            final(self).wf(),
            final(self).fsc_value() == old(self).fsc_value(),
            final(rx)@.len() == old(rx)@.len(),
            r matches Ok(n) ==> n <= old(rx)@.len() && final(self).spin() == 1 - old(self).spin()
                && iblock_header(final(self).spin()) != iblock_header(old(self).spin()),
            r matches Ok(n) ==> forall|j: int|
                n <= j < old(rx)@.len() ==> final(rx)@[j] == old(rx)@[j],
            !(r matches Ok(_)) ==> final(self).spin() == old(self).spin() && final(rx)@ == old(
                rx,
            )@,
            tx@.len() + 3 > old(self).fsc_value() ==> r matches Err(Error::TxFrameTooBig),
            r matches Err(e) ==> (e matches Error::TxFrameTooBig ==> tx@.len() + 3
                > old(self).fsc_value()),
    {
        if tx.len() > self.fsc - 3 {
            return Err(Error::TxFrameTooBig);
        }

        let tx_pcb: u8 = 0x02 | self.spinny_bit;

        let mut tx_buf: Vec<u8> = build_iblock(self.spinny_bit, tx);

        let mut rx_buf: Vec<u8> = Vec::new();
        let mut k: usize = 0;
        while k < FSC_MAX_WITHOUT_CRC
            invariant
                k <= FSC_MAX_WITHOUT_CRC,
                rx_buf@.len() == k,
            decreases FSC_MAX_WITHOUT_CRC - k,
        {
            rx_buf.push(0);
            k += 1;
        }

        // A tag may stretch its processing time with any number of S(WTX)
        // rounds; the counter only bounds the loop far beyond any real
        // exchange.
        let mut rounds: u64 = 0;
        let mut rx_len: usize = 0;
        loop
            invariant
                self.wf(),
                self.spinny_bit == old(self).spinny_bit,
                self.fsc == old(self).fsc,
                rx_buf@.len() == FSC_MAX_WITHOUT_CRC,
                rx@.len() == old(rx)@.len(),
                tx@.len() + 3 <= old(self).fsc_value(),
            ensures
                1 <= rx_len <= rx_buf@.len(),
            decreases u64::MAX - rounds,
        {
            let n = match self.tag.transceive(tx_buf.as_slice(), &mut rx_buf) {
                Ok(n) => n,
                Err(e) => {
                    return Err(Error::Iso14443a(e));
                }
            };

            match classify_response(rx_buf[0], rx_buf[1], n, tx_pcb) {
                ResponseKind::WaitExtension(multiplier) => {
                    // Echo the multiplier and listen again, leaving the
                    // spin bit alone.
                    if rounds == u64::MAX {
                        return Err(Error::Protocol);
                    }
                    rounds = rounds + 1;
                    tx_buf = Vec::new();
                    tx_buf.push(0xf2);
                    tx_buf.push(multiplier);
                }
                ResponseKind::Payload(_) => {
                    rx_len = n;
                    break;
                }
                ResponseKind::Unsupported => {
                    // Empty, malformed, or a header out of this layer's
                    // scope: rejected, not guessed at.
                    return Err(Error::Protocol);
                }
            }
        }

        let rx_inf_len = rx_len - 1;
        if rx_inf_len > rx.len() {
            return Err(Error::RxFrameTooBig);
        }

        let copied = copy_payload(&rx_buf, rx_len, rx);

        // The exchange is complete: the spin bit flips exactly once.
        proof {
            let s = self.spinny_bit;
            assert(s <= 1 ==> (s ^ 1) == 1 - s) by (bit_vector);
            lemma_headers_alternate(self.spinny_bit);
        }
        self.spinny_bit = self.spinny_bit ^ 1;

        Ok(copied)
    }
}

} // verus!
