//! The packet framer: assembles an operation code, a one-byte mode, a
//! 16-bit parameter and an optional payload into the checksummed frame
//! the chip's firmware understands, laid out as
//! `[reserved][count][opcode][mode][param_lo][param_hi][payload...][crc_lo][crc_hi]`.
//! Byte 0 is left for the transport's word-address convention; the count
//! byte covers itself through the trailing checksum; the checksum covers
//! the count byte through the payload.

use vstd::prelude::*;

use crate::checksum::{crc16, spec_crc16};

verus! {

/// The one-byte operation codes of the chip's instruction set. The full
/// set is preserved even where this layer does not yet build the
/// corresponding command, so that the constants stay stable for callers.
#[derive(Clone, Copy, Debug, PartialEq, Eq, Structural)]
pub enum OpCode {
    CheckMac,
    DeriveKey,
    Info,
    GenDig,
    GenKey,
    HMac,
    Lock,
    Mac,
    Nonce,
    Pause,
    PrivWrite,
    Random,
    Read,
    Sign,
    UpdateExtra,
    Verify,
    Write,
    Ecdh,
    Counter,
    Sha,
    Aes,
    Kdf,
    SecureBoot,
    SelfTest,
}

impl OpCode {
    /// The code's byte value on the wire.
    pub open spec fn spec_value(self) -> u8 {
        match self {
            OpCode::CheckMac => 0x28,
            OpCode::DeriveKey => 0x1C,
            OpCode::Info => 0x30,
            OpCode::GenDig => 0x15,
            OpCode::GenKey => 0x40,
            OpCode::HMac => 0x11,
            OpCode::Lock => 0x17,
            OpCode::Mac => 0x08,
            OpCode::Nonce => 0x16,
            OpCode::Pause => 0x01,
            OpCode::PrivWrite => 0x46,
            OpCode::Random => 0x1B,
            OpCode::Read => 0x02,
            OpCode::Sign => 0x41,
            OpCode::UpdateExtra => 0x20,
            OpCode::Verify => 0x45,
            OpCode::Write => 0x12,
            OpCode::Ecdh => 0x43,
            OpCode::Counter => 0x24,
            OpCode::Sha => 0x47,
            OpCode::Aes => 0x51,
            OpCode::Kdf => 0x56,
            OpCode::SecureBoot => 0x80,
            OpCode::SelfTest => 0x77,
        }
    }

    /// The code's byte value on the wire.
    pub fn value(self) -> (r: u8)
        ensures
            r == self.spec_value(),
    {
        match self {
            OpCode::CheckMac => 0x28,
            OpCode::DeriveKey => 0x1C,
            OpCode::Info => 0x30,
            OpCode::GenDig => 0x15,
            OpCode::GenKey => 0x40,
            OpCode::HMac => 0x11,
            OpCode::Lock => 0x17,
            OpCode::Mac => 0x08,
            OpCode::Nonce => 0x16,
            OpCode::Pause => 0x01,
            OpCode::PrivWrite => 0x46,
            OpCode::Random => 0x1B,
            OpCode::Read => 0x02,
            OpCode::Sign => 0x41,
            OpCode::UpdateExtra => 0x20,
            OpCode::Verify => 0x45,
            OpCode::Write => 0x12,
            OpCode::Ecdh => 0x43,
            OpCode::Counter => 0x24,
            OpCode::Sha => 0x47,
            OpCode::Aes => 0x51,
            OpCode::Kdf => 0x56,
            OpCode::SecureBoot => 0x80,
            OpCode::SelfTest => 0x77,
        }
    }
}

/// The longest payload a frame can carry: the count byte must hold the
/// payload length plus the seven framing bytes.
pub const MAX_PDU_LEN: usize = 248;

/// `s` zero-filled up to length `n`.
pub open spec fn zero_pad(s: Seq<u8>, n: int) -> Seq<u8> {
    s + Seq::new((n - s.len()) as nat, |i: int| 0u8)
}

/// The checksummed portion of a frame: count byte, opcode, mode, the
/// 16-bit parameter little-endian, then the payload.
pub open spec fn spec_body(op: u8, mode: u8, param2: u16, pdu: Seq<u8>) -> Seq<u8> {
    seq![(pdu.len() + 7) as u8, op, mode, (param2 & 0xff) as u8, (param2 >> 8) as u8] + pdu
}

/// A complete frame: the reserved transport byte, the checksummed body,
/// then the CRC-16 of the body little-endian.
pub open spec fn spec_frame(op: u8, mode: u8, param2: u16, pdu: Seq<u8>) -> Seq<u8> {
    let body = spec_body(op, mode, param2, pdu);
    let crc = spec_crc16(body);
    seq![0u8] + body + seq![(crc & 0xff) as u8, (crc >> 8) as u8]
}

/// The abstract state of a frame under construction.
pub struct FrameModel {
    pub op: OpCode,
    pub mode: u8,
    pub param2: u16,
    pub pdu: Seq<u8>,
}

/// A frame before its operation code is chosen. No frame can be
/// finalized from this state, so "opcode never set" is unrepresentable.
pub struct PacketBuilder {
    _private: (),
}

impl PacketBuilder {
    /// Begin a frame.
    pub fn new() -> PacketBuilder {
        PacketBuilder { _private: () }
    }

    /// Choose the operation code, moving to the configured phase with
    /// mode, parameter and payload at their zero defaults.
    pub fn opcode(self, op: OpCode) -> (r: FrameBuilder)
        ensures
            r@ == (FrameModel { op, mode: 0, param2: 0, pdu: Seq::<u8>::empty() }),
    {
        FrameBuilder { op, mode: 0, param2: 0, pdu: Vec::new() }
    }
}

/// A frame under construction whose operation code is fixed. Each setter
/// returns the updated value; `build` finalizes count and checksum
/// without consuming the state, so building twice from the same state
/// reproduces identical bytes.
pub struct FrameBuilder {
    op: OpCode,
    mode: u8,
    param2: u16,
    pdu: Vec<u8>,
}

impl View for FrameBuilder {
    type V = FrameModel;

    closed spec fn view(&self) -> FrameModel {
        FrameModel { op: self.op, mode: self.mode, param2: self.param2, pdu: self.pdu@ }
    }
}

impl FrameBuilder {
    /// Set the mode byte.
    pub fn mode(self, mode: u8) -> (r: FrameBuilder)
        ensures
            r@ == (FrameModel { mode, ..self@ }),
    {
        FrameBuilder { mode, ..self }
    }

    /// Set the 16-bit parameter.
    pub fn param2(self, param2: u16) -> (r: FrameBuilder)
        ensures
            r@ == (FrameModel { param2, ..self@ }),
    {
        FrameBuilder { param2, ..self }
    }

    /// Set the payload bytes.
    pub fn pdu_data(self, data: &[u8]) -> (r: FrameBuilder)
        requires
            data@.len() <= MAX_PDU_LEN,
        ensures
            r@ == (FrameModel { pdu: data@, ..self@ }),
    {
        FrameBuilder { pdu: vstd::slice::slice_to_vec(data), ..self }
    }

    /// Declare the payload length the chip expects for this command,
    /// zero-filling the payload up to it.
    pub fn pdu_length(self, len: usize) -> (r: FrameBuilder)
        requires
            self@.pdu.len() <= len,
            len <= MAX_PDU_LEN,
        ensures
            r@ == (FrameModel { pdu: zero_pad(self@.pdu, len as int), ..self@ }),
    {
        let ghost m0 = self@;
        let mut b = self;
        while b.pdu.len() < len
            invariant
                b@.pdu.len() <= len,
                b@.op == m0.op,
                b@.mode == m0.mode,
                b@.param2 == m0.param2,
                b@.pdu == m0.pdu + Seq::new((b@.pdu.len() - m0.pdu.len()) as nat, |i: int| 0u8),
            decreases len - b.pdu.len(),
        {
            b.pdu.push(0);
            proof {
                assert(b@.pdu =~= m0.pdu + Seq::new(
                    (b@.pdu.len() - m0.pdu.len()) as nat,
                    |i: int| 0u8,
                ));
            }
        }
        proof {
            assert(b@.pdu =~= zero_pad(m0.pdu, len as int));
        }
        b
    }

    /// Finalize the frame: write the count byte, the header, the payload
    /// and the trailing checksum. The result is a pure function of the
    /// builder state, so repeated builds yield the same bytes.
    pub fn build(&self) -> (p: Packet)
        requires
            self@.pdu.len() <= MAX_PDU_LEN,
        ensures
            p@ == spec_frame(self@.op.spec_value(), self@.mode, self@.param2, self@.pdu),
    {
        let mut body: Vec<u8> = Vec::new();
        body.push((self.pdu.len() + 7) as u8);
        body.push(self.op.value());
        body.push(self.mode);
        body.push((self.param2 & 0xff) as u8);
        body.push((self.param2 >> 8) as u8);
        let mut i: usize = 0;
        while i < self.pdu.len()
            invariant
                i <= self.pdu@.len(),
                self.pdu@.len() <= MAX_PDU_LEN,
                body@ == seq![
                    (self.pdu@.len() + 7) as u8,
                    self@.op.spec_value(),
                    self@.mode,
                    (self@.param2 & 0xff) as u8,
                    (self@.param2 >> 8) as u8,
                ] + self.pdu@.subrange(0, i as int),
            decreases self.pdu@.len() - i,
        {
            body.push(self.pdu[i]);
            proof {
                assert(body@ =~= seq![
                    (self.pdu@.len() + 7) as u8,
                    self@.op.spec_value(),
                    self@.mode,
                    (self@.param2 & 0xff) as u8,
                    (self@.param2 >> 8) as u8,
                ] + self.pdu@.subrange(0, i + 1));
            }
            i += 1;
        }
        proof {
            assert(self.pdu@.subrange(0, self.pdu@.len() as int) =~= self.pdu@);
            assert(body@ =~= spec_body(
                self@.op.spec_value(),
                self@.mode,
                self@.param2,
                self@.pdu,
            ));
        }
        let crc = crc16(&body);
        let mut frame: Vec<u8> = Vec::new();
        frame.push(0u8);
        frame.append(&mut body);
        frame.push((crc & 0xff) as u8);
        frame.push((crc >> 8) as u8);
        proof {
            assert(frame@ =~= spec_frame(
                self@.op.spec_value(),
                self@.mode,
                self@.param2,
                self@.pdu,
            ));
        }
        Packet { bytes: frame }
    }
}

/// A fully framed command, ready for the transport. Constructed only by
/// [`FrameBuilder::build`] and never mutated afterwards.
#[derive(Debug)]
pub struct Packet {
    bytes: Vec<u8>,
}

impl View for Packet {
    type V = Seq<u8>;

    closed spec fn view(&self) -> Seq<u8> {
        self.bytes@
    }
}

impl Packet {
    /// Read-only access to the finished frame bytes.
    pub fn buffer(&self) -> (r: &Vec<u8>)
        ensures
            r@ == self@,
    {
        &self.bytes
    }
}

} // verus!
