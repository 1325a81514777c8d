//! Per-command frame builders and the typed values parsed out of the
//! chip's raw response buffers. Each builder validates its operation's
//! chip-specific constraints, asks the addressing model for the address
//! and mode encoding, and drives the packet framer; each response type is
//! a fixed-width value constructed only through a validating conversion.

use vstd::prelude::*;

use crate::error::Error;
use crate::memory::{spec_slot_addr, Size, Slot, Zone};
use crate::packet::{spec_frame, zero_pad, OpCode, Packet, PacketBuilder};

verus! {

/// Info mode selecting the revision word.
pub const INFO_MODE_REVISION: u8 = 0x00;

/// Sha mode: initialize the chip's hash state; accepts no message.
pub const SHA_MODE_SHA256_START: u8 = 0x00;

/// Sha mode: add a message chunk to the hash state.
pub const SHA_MODE_SHA256_UPDATE: u8 = 0x01;

/// Sha mode: complete the calculation and return the digest.
pub const SHA_MODE_SHA256_END: u8 = 0x02;

/// Sha mode: add the 64-byte public key in a slot to the hash state.
pub const SHA_MODE_SHA256_PUBLIC: u8 = 0x03;

/// Aes mode: encrypt one 16-byte block.
pub const AES_MODE_ENCRYPT: u8 = 0x00;

/// Aes mode: decrypt one 16-byte block.
pub const AES_MODE_DECRYPT: u8 = 0x01;

/// Random mode: update the seed before drawing.
pub const RANDOM_MODE_SEED_UPDATE: u8 = 0x00;

/// Nonce mode bits 2 to 7 are reserved; the low two bits select the kind.
pub const NONCE_MODE_MASK: u8 = 0x03;

/// Nonce mode: combine with the random number generator, updating the seed.
pub const NONCE_MODE_SEED_UPDATE: u8 = 0x00;

/// Nonce mode: combine with the random number generator, keeping the seed.
pub const NONCE_MODE_NO_SEED_UPDATE: u8 = 0x01;

/// Nonce mode 2 is invalid.
pub const NONCE_MODE_INVALID: u8 = 0x02;

/// Nonce mode: write the input value through unchanged.
pub const NONCE_MODE_PASSTHROUGH: u8 = 0x03;

/// Nonce mode: input size selector bit.
pub const NONCE_MODE_INPUT_LEN_MASK: u8 = 0x20;

/// Nonce mode: the input is 32 bytes.
pub const NONCE_MODE_INPUT_LEN_32: u8 = 0x00;

/// Nonce mode: the input is 64 bytes.
pub const NONCE_MODE_INPUT_LEN_64: u8 = 0x20;

/// Nonce mode: target register selector bits.
pub const NONCE_MODE_TARGET_MASK: u8 = 0xc0;

/// Nonce mode: the target is TempKey.
pub const NONCE_MODE_TARGET_TEMPKEY: u8 = 0x00;

/// Nonce mode: the target is the message digest buffer.
pub const NONCE_MODE_TARGET_MSGDIGBUF: u8 = 0x40;

/// Nonce mode: the target is the alternate key buffer.
pub const NONCE_MODE_TARGET_ALTKEYBUF: u8 = 0x80;

/// Sign: the nonce target register a signing flow reads from.
pub const SIGN_NONCE_MODE_TARGET_MSGDIGBUF: u8 = 0x00;

/// Sign: the source register the signature is computed over.
pub const SIGN_MODE_SOURCE_MSGDIGBUF: u8 = 0x00;

/// Four bytes of chip state, e.g. the revision returned by the info
/// command.
#[derive(Clone, Debug)]
pub struct Word {
    value: Vec<u8>,
}

impl View for Word {
    type V = Seq<u8>;

    closed spec fn view(&self) -> Seq<u8> {
        self.value@
    }
}

impl Word {
    /// A word holds exactly four bytes.
    pub open spec fn wf(self) -> bool {
        self@.len() == 4
    }

    /// Parse a word from a response buffer of exactly four bytes.
    pub fn try_from(buffer: &[u8]) -> (r: Result<Word, Error>)
        ensures
            buffer@.len() == 4 ==> r is Ok && r->Ok_0@ == buffer@ && r->Ok_0.wf(),
            buffer@.len() != 4 ==> r == Err::<Word, Error>(Error::BadParam),
    {
        if buffer.len() != Size::Word.len() {
            return Err(Error::BadParam);
        }
        Ok(Word { value: vstd::slice::slice_to_vec(buffer) })
    }

    /// The byte view of the word.
    pub fn as_ref(&self) -> (r: &[u8])
        ensures
            r@ == self@,
    {
        self.value.as_slice()
    }

    /// Mutable access to the word's bytes.
    pub fn as_mut(&mut self) -> (r: &mut [u8])
        ensures
            r@ == old(self)@,
            final(self)@ == final(r)@,
    {
        self.value.as_mut_slice()
    }
}

/// One 32-byte block of zone memory, the unit in which slots and zones
/// are read and written.
#[derive(Clone, Debug)]
pub struct Block {
    value: Vec<u8>,
}

impl View for Block {
    type V = Seq<u8>;

    closed spec fn view(&self) -> Seq<u8> {
        self.value@
    }
}

impl Block {
    /// A block holds exactly 32 bytes.
    pub open spec fn wf(self) -> bool {
        self@.len() == 32
    }

    /// Parse a block from a response buffer of exactly 32 bytes.
    pub fn try_from(buffer: &[u8]) -> (r: Result<Block, Error>)
        ensures
            buffer@.len() == 32 ==> r is Ok && r->Ok_0@ == buffer@ && r->Ok_0.wf(),
            buffer@.len() != 32 ==> r == Err::<Block, Error>(Error::BadParam),
    {
        if buffer.len() != Size::Block.len() {
            return Err(Error::BadParam);
        }
        Ok(Block { value: vstd::slice::slice_to_vec(buffer) })
    }

    /// The byte view of the block.
    pub fn as_ref(&self) -> (r: &[u8])
        ensures
            r@ == self@,
    {
        self.value.as_slice()
    }

    /// Mutable access to the block's bytes.
    pub fn as_mut(&mut self) -> (r: &mut [u8])
        ensures
            r@ == old(self)@,
            final(self)@ == final(r)@,
    {
        self.value.as_mut_slice()
    }
}

/// The chip's unique 9-byte serial number. The chip pads the true serial
/// with status and reserved bytes, so it is reassembled from two
/// non-contiguous ranges of a 32-byte response: bytes 0 to 3 and bytes 8
/// to 12.
#[derive(Clone, Debug)]
pub struct Serial {
    value: Vec<u8>,
}

impl View for Serial {
    type V = Seq<u8>;

    closed spec fn view(&self) -> Seq<u8> {
        self.value@
    }
}

impl Serial {
    /// A serial number holds exactly nine bytes.
    pub open spec fn wf(self) -> bool {
        self@.len() == 9
    }

    /// Reassemble the serial number from a 32-byte response buffer.
    pub fn try_from(buffer: &[u8]) -> (r: Result<Serial, Error>)
        ensures
            buffer@.len() == 32 ==> r is Ok && r->Ok_0@ == buffer@.subrange(0, 4)
                + buffer@.subrange(8, 13) && r->Ok_0.wf(),
            buffer@.len() != 32 ==> r == Err::<Serial, Error>(Error::BadParam),
    {
        if buffer.len() != Size::Block.len() {
            return Err(Error::BadParam);
        }
        let mut value = vstd::slice::slice_to_vec(vstd::slice::slice_subrange(buffer, 0, 4));
        let mut tail = vstd::slice::slice_to_vec(vstd::slice::slice_subrange(buffer, 8, 13));
        value.append(&mut tail);
        Ok(Serial { value })
    }

    /// The byte view of the serial number.
    pub fn as_ref(&self) -> (r: &[u8])
        ensures
            r@ == self@,
    {
        self.value.as_slice()
    }
}

/// A signature returned from a signing operation: the R and S integers
/// in big-endian form, 64 bytes for a 256-bit curve. The pair is carried
/// as an opaque container; verifying it against a public key is the
/// caller's concern.
#[derive(Clone, Debug)]
pub struct Signature {
    value: Vec<u8>,
}

impl View for Signature {
    type V = Seq<u8>;

    closed spec fn view(&self) -> Seq<u8> {
        self.value@
    }
}

impl Signature {
    /// A signature holds exactly 64 bytes.
    pub open spec fn wf(self) -> bool {
        self@.len() == 64
    }

    /// Parse a signature from its 64-byte representation. No curve
    /// membership is checked.
    pub fn from_bytes(bytes: &[u8]) -> (r: Result<Signature, Error>)
        ensures
            bytes@.len() == 64 ==> r is Ok && r->Ok_0@ == bytes@ && r->Ok_0.wf(),
            bytes@.len() != 64 ==> r == Err::<Signature, Error>(Error::InvalidSize),
    {
        if bytes.len() != 64 {
            return Err(Error::InvalidSize);
        }
        Ok(Signature { value: vstd::slice::slice_to_vec(bytes) })
    }

    /// The byte view of the signature.
    pub fn as_ref(&self) -> (r: &[u8])
        ensures
            r@ == self@,
    {
        self.value.as_slice()
    }
}

/// A 32-byte digest yielded by the chip's hash functions.
#[derive(Clone, Debug)]
pub struct Digest {
    value: Vec<u8>,
}

impl View for Digest {
    type V = Seq<u8>;

    closed spec fn view(&self) -> Seq<u8> {
        self.value@
    }
}

impl Digest {
    /// A digest holds exactly 32 bytes.
    pub open spec fn wf(self) -> bool {
        self@.len() == 32
    }

    /// Parse a digest from a response buffer of exactly 32 bytes.
    pub fn try_from(buffer: &[u8]) -> (r: Result<Digest, Error>)
        ensures
            buffer@.len() == 32 ==> r is Ok && r->Ok_0@ == buffer@ && r->Ok_0.wf(),
            buffer@.len() != 32 ==> r == Err::<Digest, Error>(Error::BadParam),
    {
        if buffer.len() != 32 {
            return Err(Error::BadParam);
        }
        Ok(Digest { value: vstd::slice::slice_to_vec(buffer) })
    }

    /// The byte view of the digest.
    pub fn as_ref(&self) -> (r: &[u8])
        ensures
            r@ == self@,
    {
        self.value.as_slice()
    }
}

/// The 32-byte premaster secret of a key-agreement operation.
#[derive(Clone, Debug)]
pub struct PremasterSecret {
    value: Vec<u8>,
}

impl View for PremasterSecret {
    type V = Seq<u8>;

    closed spec fn view(&self) -> Seq<u8> {
        self.value@
    }
}

impl PremasterSecret {
    /// A premaster secret holds exactly 32 bytes.
    pub open spec fn wf(self) -> bool {
        self@.len() == 32
    }

    /// Parse a premaster secret from a response buffer of exactly 32
    /// bytes.
    pub fn try_from(buffer: &[u8]) -> (r: Result<PremasterSecret, Error>)
        ensures
            buffer@.len() == 32 ==> r is Ok && r->Ok_0@ == buffer@ && r->Ok_0.wf(),
            buffer@.len() != 32 ==> r == Err::<PremasterSecret, Error>(Error::BadParam),
    {
        if buffer.len() != 32 {
            return Err(Error::BadParam);
        }
        Ok(PremasterSecret { value: vstd::slice::slice_to_vec(buffer) })
    }

    /// The byte view of the premaster secret.
    pub fn as_ref(&self) -> (r: &[u8])
        ensures
            r@ == self@,
    {
        self.value.as_slice()
    }
}

/// A 32-byte nonce value as returned by, or handed to, the chip.
#[derive(Clone, Debug)]
pub struct Nonce {
    value: Vec<u8>,
}

impl View for Nonce {
    type V = Seq<u8>;

    closed spec fn view(&self) -> Seq<u8> {
        self.value@
    }
}

impl Nonce {
    /// A nonce holds exactly 32 bytes.
    pub open spec fn wf(self) -> bool {
        self@.len() == 32
    }

    /// Parse a nonce from a response buffer of exactly 32 bytes.
    pub fn try_from(buffer: &[u8]) -> (r: Result<Nonce, Error>)
        ensures
            buffer@.len() == 32 ==> r is Ok && r->Ok_0@ == buffer@ && r->Ok_0.wf(),
            buffer@.len() != 32 ==> r == Err::<Nonce, Error>(Error::BadParam),
    {
        if buffer.len() != 32 {
            return Err(Error::BadParam);
        }
        Ok(Nonce { value: vstd::slice::slice_to_vec(buffer) })
    }

    /// The byte view of the nonce.
    pub fn as_ref(&self) -> (r: &[u8])
        ensures
            r@ == self@,
    {
        self.value.as_slice()
    }
}

/// Builds the gen-digest command, used when signing an internally stored
/// digest: the chip combines a stored value with the contents of TempKey
/// through its hash function. TempKey must hold a valid nonce before the
/// command executes; sequencing that is the caller's obligation.
pub struct GenDig {
    builder: PacketBuilder,
}

impl GenDig {
    /// Wrap a packet builder for the gen-digest opcode family.
    pub fn new(builder: PacketBuilder) -> GenDig {
        GenDig { builder }
    }

    /// Frame a digest generation over the key in `key_id`.
    pub fn gendig(self, key_id: Slot) -> (r: Result<Packet, Error>)
        ensures
            r is Ok,
            r->Ok_0@ == spec_frame(
                OpCode::GenDig.spec_value(),
                0x00,
                key_id.spec_id() as u16,
                Seq::<u8>::empty(),
            ),
    {
        let packet = self.builder.opcode(OpCode::GenDig).param2(key_id.id() as u16).build();
        Ok(packet)
    }
}

/// Builds the gen-key command family. No operation of the family is
/// framed by this layer yet.
pub struct GenKey {
    builder: PacketBuilder,
}

impl GenKey {
    /// Wrap a packet builder for the gen-key opcode family.
    pub fn new(builder: PacketBuilder) -> GenKey {
        GenKey { builder }
    }
}

/// Builds the info command family.
pub struct Info {
    builder: PacketBuilder,
}

impl Info {
    /// Wrap a packet builder for the info opcode family.
    pub fn new(builder: PacketBuilder) -> Info {
        Info { builder }
    }

    /// Frame a request for the chip's revision; executing it returns a
    /// word holding the revision.
    pub fn revision(self) -> (r: Result<Packet, Error>)
        ensures
            r is Ok,
            r->Ok_0@ == spec_frame(
                OpCode::Info.spec_value(),
                INFO_MODE_REVISION,
                0x00,
                Seq::<u8>::empty(),
            ),
    {
        let packet = self.builder.opcode(OpCode::Info).mode(INFO_MODE_REVISION).build();
        Ok(packet)
    }
}

/// The mode byte that locks a whole zone: bit 7 set, the zone selector
/// in the low bits. The one-time-programmable zone cannot be locked.
pub open spec fn spec_lock_zone_mode(zone: Zone) -> u8 {
    if zone == Zone::Config {
        0x80
    } else {
        0x81
    }
}

/// The mode byte that locks a single slot: the slot number shifted into
/// bits 2 to 7, with bits 1 and 7 set.
pub open spec fn spec_lock_slot_mode(slot: Slot) -> u8 {
    (4 * slot.spec_id() + 0x82) as u8
}

/// Builds the lock command family, which freezes a zone or a single
/// slot for good.
pub struct Lock {
    builder: PacketBuilder,
}

impl Lock {
    /// Wrap a packet builder for the lock opcode family.
    pub fn new(builder: PacketBuilder) -> Lock {
        Lock { builder }
    }

    /// Frame a lock of a whole zone. The one-time-programmable zone is
    /// not lockable and is rejected.
    pub fn zone(self, zone: Zone) -> (r: Result<Packet, Error>)
        ensures
            zone == Zone::Otp ==> r == Err::<Packet, Error>(Error::BadParam),
            zone != Zone::Otp ==> r is Ok && r->Ok_0@ == spec_frame(
                OpCode::Lock.spec_value(),
                spec_lock_zone_mode(zone),
                0x00,
                Seq::<u8>::empty(),
            ),
    {
        let mode: u8 = match zone {
            Zone::Config => 0x80,
            Zone::Data => 0x81,
            Zone::Otp => {
                return Err(Error::BadParam);
            },
        };
        let packet = self.builder.opcode(OpCode::Lock).mode(mode).build();
        Ok(packet)
    }

    /// Frame a lock of a single slot.
    pub fn slot(self, key_id: Slot) -> (r: Result<Packet, Error>)
        ensures
            r is Ok,
            r->Ok_0@ == spec_frame(
                OpCode::Lock.spec_value(),
                spec_lock_slot_mode(key_id),
                0x00,
                Seq::<u8>::empty(),
            ),
    {
        let mode: u8 = 4 * key_id.id() + 0x82;
        let packet = self.builder.opcode(OpCode::Lock).mode(mode).build();
        Ok(packet)
    }
}

/// Builds the nonce command family. The operations below are part of the
/// chip's instruction set but not yet supported by this layer; each
/// reports that explicitly instead of producing a frame. The intended
/// ordering of nonce loading relative to the commands that consume
/// TempKey is the caller's obligation.
pub struct NonceCmd {
    builder: PacketBuilder,
}

impl NonceCmd {
    /// Wrap a packet builder for the nonce opcode family.
    pub fn new(builder: PacketBuilder) -> NonceCmd {
        NonceCmd { builder }
    }

    /// Not yet supported.
    pub fn nonce(self) -> (r: Result<Packet, Error>)
        ensures
            r == Err::<Packet, Error>(Error::Unimplemented),
    {
        Err(Error::Unimplemented)
    }

    /// Not yet supported.
    pub fn load(self) -> (r: Result<Packet, Error>)
        ensures
            r == Err::<Packet, Error>(Error::Unimplemented),
    {
        Err(Error::Unimplemented)
    }

    /// Not yet supported.
    pub fn rand(self) -> (r: Result<Packet, Error>)
        ensures
            r == Err::<Packet, Error>(Error::Unimplemented),
    {
        Err(Error::Unimplemented)
    }

    /// Not yet supported.
    pub fn challenge(self) -> (r: Result<Packet, Error>)
        ensures
            r == Err::<Packet, Error>(Error::Unimplemented),
    {
        Err(Error::Unimplemented)
    }

    /// Not yet supported.
    pub fn challenge_seed_update(self) -> (r: Result<Packet, Error>)
        ensures
            r == Err::<Packet, Error>(Error::Unimplemented),
    {
        Err(Error::Unimplemented)
    }
}

/// Builds the three-phase streaming hash: start resets the chip's hash
/// state, update feeds chunks of under 64 bytes, end finalizes and the
/// response yields a digest. Each call produces an independent frame;
/// the chip firmware, not this layer, enforces the phase ordering.
pub struct Sha {
    builder: PacketBuilder,
}

impl Sha {
    /// Wrap a packet builder for the hash opcode family.
    pub fn new(builder: PacketBuilder) -> Sha {
        Sha { builder }
    }

    /// Frame the initialization of the hash state.
    pub fn start(self) -> (r: Result<Packet, Error>)
        ensures
            r is Ok,
            r->Ok_0@ == spec_frame(
                OpCode::Sha.spec_value(),
                SHA_MODE_SHA256_START,
                0x00,
                Seq::<u8>::empty(),
            ),
    {
        let packet = self.builder.opcode(OpCode::Sha).mode(SHA_MODE_SHA256_START).build();
        Ok(packet)
    }

    /// Frame the feeding of one message chunk; the chunk must be
    /// strictly under 64 bytes.
    pub fn update(self, data: &[u8]) -> (r: Result<Packet, Error>)
        ensures
            data@.len() >= 64 ==> r == Err::<Packet, Error>(Error::BadParam),
            data@.len() < 64 ==> r is Ok && r->Ok_0@ == spec_frame(
                OpCode::Sha.spec_value(),
                SHA_MODE_SHA256_UPDATE,
                0x00,
                data@,
            ),
    {
        if data.len() >= 64 {
            return Err(Error::BadParam);
        }
        let packet = self.builder.opcode(OpCode::Sha).mode(SHA_MODE_SHA256_UPDATE).pdu_data(
            data,
        ).build();
        Ok(packet)
    }

    /// Frame the finalization; executing it returns a digest.
    pub fn end(self) -> (r: Result<Packet, Error>)
        ensures
            r is Ok,
            r->Ok_0@ == spec_frame(
                OpCode::Sha.spec_value(),
                SHA_MODE_SHA256_END,
                0x00,
                Seq::<u8>::empty(),
            ),
    {
        let packet = self.builder.opcode(OpCode::Sha).mode(SHA_MODE_SHA256_END).build();
        Ok(packet)
    }
}

/// Builds the block cipher command family. Both directions require a
/// slot holding private key material and work on the chip's fixed
/// 16-byte block.
pub struct Aes {
    builder: PacketBuilder,
}

impl Aes {
    /// Wrap a packet builder for the block cipher opcode family.
    pub fn new(builder: PacketBuilder) -> Aes {
        Aes { builder }
    }

    /// Frame the encryption of one block. The plaintext may be up to 16
    /// bytes and is zero-filled to the fixed 16-byte block the chip
    /// expects.
    pub fn encrypt(self, slot: Slot, plaintext: &[u8]) -> (r: Result<Packet, Error>)
        ensures
            !slot.spec_is_private_key() ==> r == Err::<Packet, Error>(Error::BadParam),
            slot.spec_is_private_key() && plaintext@.len() > 16 ==> r == Err::<Packet, Error>(
                Error::InvalidSize,
            ),
            slot.spec_is_private_key() && plaintext@.len() <= 16 ==> r is Ok && r->Ok_0@
                == spec_frame(
                OpCode::Aes.spec_value(),
                AES_MODE_ENCRYPT,
                slot.spec_id() as u16,
                zero_pad(plaintext@, 16),
            ),
    {
        if !slot.is_private_key() {
            return Err(Error::BadParam);
        }
        if plaintext.len() > 16 {
            return Err(Error::InvalidSize);
        }
        let packet = self.builder.opcode(OpCode::Aes).mode(AES_MODE_ENCRYPT).param2(
            slot.id() as u16,
        ).pdu_data(plaintext).pdu_length(16).build();
        Ok(packet)
    }

    /// Frame the decryption of one block. The ciphertext must be exactly
    /// 16 bytes; the chip cannot recognize the command otherwise.
    pub fn decrypt(self, slot: Slot, ciphertext: &[u8]) -> (r: Result<Packet, Error>)
        ensures
            !slot.spec_is_private_key() ==> r == Err::<Packet, Error>(Error::BadParam),
            slot.spec_is_private_key() && ciphertext@.len() != 16 ==> r == Err::<Packet, Error>(
                Error::InvalidSize,
            ),
            slot.spec_is_private_key() && ciphertext@.len() == 16 ==> r is Ok && r->Ok_0@
                == spec_frame(
                OpCode::Aes.spec_value(),
                AES_MODE_DECRYPT,
                slot.spec_id() as u16,
                ciphertext@,
            ),
    {
        if !slot.is_private_key() {
            return Err(Error::BadParam);
        }
        if ciphertext.len() != 16 {
            return Err(Error::InvalidSize);
        }
        let packet = self.builder.opcode(OpCode::Aes).mode(AES_MODE_DECRYPT).param2(
            slot.id() as u16,
        ).pdu_data(ciphertext).pdu_length(16).build();
        proof {
            assert(zero_pad(ciphertext@, 16) =~= ciphertext@);
        }
        Ok(packet)
    }
}

/// Builds the random command, which draws 32 bytes from the chip's
/// random-number generator.
pub struct Random {
    builder: PacketBuilder,
}

impl Random {
    /// Wrap a packet builder for the random opcode family.
    pub fn new(builder: PacketBuilder) -> Random {
        Random { builder }
    }

    /// Frame a draw from the random-number generator, updating its seed.
    pub fn random(self) -> (r: Result<Packet, Error>)
        ensures
            r is Ok,
            r->Ok_0@ == spec_frame(
                OpCode::Random.spec_value(),
                RANDOM_MODE_SEED_UPDATE,
                0x00,
                Seq::<u8>::empty(),
            ),
    {
        let packet = self.builder.opcode(OpCode::Random).mode(RANDOM_MODE_SEED_UPDATE).build();
        Ok(packet)
    }
}

/// Builds the read command family.
pub struct Read {
    builder: PacketBuilder,
}

impl Read {
    /// Wrap a packet builder for the read opcode family.
    pub fn new(builder: PacketBuilder) -> Read {
        Read { builder }
    }

    /// Frame a read of one 32-byte block of a data-zone slot.
    pub fn slot(self, slot: Slot, block: u8) -> (r: Result<Packet, Error>)
        ensures
            !Zone::Data.slot_addr_ok(slot, block) ==> r == Err::<Packet, Error>(Error::BadParam),
            Zone::Data.slot_addr_ok(slot, block) ==> r is Ok && r->Ok_0@ == spec_frame(
                OpCode::Read.spec_value(),
                Zone::Data.spec_encode(Size::Block),
                spec_slot_addr(slot, block),
                Seq::<u8>::empty(),
            ),
    {
        let addr = match Zone::Data.get_slot_addr(slot, block) {
            Ok(addr) => addr,
            Err(e) => {
                return Err(e);
            },
        };
        let mode = Zone::Data.encode(Size::Block);
        let packet = self.builder.opcode(OpCode::Read).mode(mode).param2(addr).build();
        Ok(packet)
    }

    /// Frame a read of a word or block at a direct zone address.
    pub fn read(self, zone: Zone, size: Size, block: u8, offset: u8) -> (r: Result<Packet, Error>)
        ensures
            !zone.addr_ok(block, offset) ==> r == Err::<Packet, Error>(Error::BadParam),
            zone.addr_ok(block, offset) ==> r is Ok && r->Ok_0@ == spec_frame(
                OpCode::Read.spec_value(),
                zone.spec_encode(size),
                zone.spec_addr(block, offset),
                Seq::<u8>::empty(),
            ),
    {
        let addr = match zone.get_addr(block, offset) {
            Ok(addr) => addr,
            Err(e) => {
                return Err(e);
            },
        };
        let mode = zone.encode(size);
        let packet = self.builder.opcode(OpCode::Read).mode(mode).param2(addr).build();
        Ok(packet)
    }
}

/// Builds the sign command family. No operation of the family is framed
/// by this layer yet.
pub struct Sign {
    builder: PacketBuilder,
}

impl Sign {
    /// Wrap a packet builder for the sign opcode family.
    pub fn new(builder: PacketBuilder) -> Sign {
        Sign { builder }
    }
}

/// Builds the write command family.
pub struct Write {
    builder: PacketBuilder,
}

impl Write {
    /// Wrap a packet builder for the write opcode family.
    pub fn new(builder: PacketBuilder) -> Write {
        Write { builder }
    }

    /// Frame a write of one 32-byte block into a data-zone slot.
    pub fn slot(self, slot: Slot, block: u8, data: &Block) -> (r: Result<Packet, Error>)
        requires
            data.wf(),
        ensures
            !Zone::Data.slot_addr_ok(slot, block) ==> r == Err::<Packet, Error>(Error::BadParam),
            Zone::Data.slot_addr_ok(slot, block) ==> r is Ok && r->Ok_0@ == spec_frame(
                OpCode::Write.spec_value(),
                Zone::Data.spec_encode(Size::Block),
                spec_slot_addr(slot, block),
                data@,
            ),
    {
        let addr = match Zone::Data.get_slot_addr(slot, block) {
            Ok(addr) => addr,
            Err(e) => {
                return Err(e);
            },
        };
        let mode = Zone::Data.encode(Size::Block);
        let packet = self.builder.opcode(OpCode::Write).mode(mode).param2(addr).pdu_data(
            data.as_ref(),
        ).build();
        Ok(packet)
    }

    /// Frame a write of a word or block at a direct zone address. The
    /// payload length must equal the length the size descriptor
    /// declares.
    pub fn write(self, zone: Zone, size: Size, block: u8, offset: u8, data: &[u8]) -> (r: Result<
        Packet,
        Error,
    >)
        ensures
            data@.len() != size.spec_len() ==> r == Err::<Packet, Error>(Error::BadParam),
            data@.len() == size.spec_len() && !zone.addr_ok(block, offset) ==> r == Err::<
                Packet,
                Error,
            >(Error::BadParam),
            data@.len() == size.spec_len() && zone.addr_ok(block, offset) ==> r is Ok && r->Ok_0@
                == spec_frame(
                OpCode::Write.spec_value(),
                zone.spec_encode(size),
                zone.spec_addr(block, offset),
                data@,
            ),
    {
        if size.len() != data.len() {
            return Err(Error::BadParam);
        }
        let addr = match zone.get_addr(block, offset) {
            Ok(addr) => addr,
            Err(e) => {
                return Err(e);
            },
        };
        let mode = zone.encode(size);
        let packet = self.builder.opcode(OpCode::Write).mode(mode).param2(addr).pdu_data(
            data,
        ).build();
        Ok(packet)
    }
}

/// Read/write symmetry: a read frame and a write frame built for the
/// same (zone, size, block, offset) carry the same mode byte (frame byte
/// 3) and the same address bytes (frame bytes 4 and 5), whatever payload
/// the write carries.
pub proof fn lemma_read_write_symmetry(
    zone: Zone,
    size: Size,
    block: u8,
    offset: u8,
    data: Seq<u8>,
)
    requires
        zone.addr_ok(block, offset),
    ensures
        ({
            let rd = spec_frame(
                OpCode::Read.spec_value(),
                zone.spec_encode(size),
                zone.spec_addr(block, offset),
                Seq::<u8>::empty(),
            );
            let wr = spec_frame(
                OpCode::Write.spec_value(),
                zone.spec_encode(size),
                zone.spec_addr(block, offset),
                data,
            );
            rd[3] == wr[3] && rd[4] == wr[4] && rd[5] == wr[5]
        }),
{
}

} // verus!
