//! The chip's memory layout: transfer sizes, zones, key slots, and the
//! arithmetic that maps a logical location to the 16-bit physical address
//! and mode encoding the chip expects.

use vstd::prelude::*;

use crate::error::Error;

verus! {

/// The two transfer granularities the chip supports for memory access:
/// a 4-byte word or a 32-byte block.
#[derive(Clone, Copy, Debug, PartialEq, Eq, Structural)]
pub enum Size {
    Word,
    Block,
}

impl Size {
    /// The number of payload bytes this size descriptor stands for.
    pub open spec fn spec_len(self) -> nat {
        match self {
            Size::Word => 4,
            Size::Block => 32,
        }
    }

    /// Payload length in bytes.
    pub fn len(self) -> (r: usize)
        ensures
            r == self.spec_len(),
    {
        match self {
            Size::Word => 4,
            Size::Block => 32,
        }
    }
}

/// A key/data compartment inside the data zone. The chip defines sixteen
/// slots; slots 0 through 7 hold symmetric or private key material and are
/// the only slots eligible for operations that consume such material.
#[derive(Clone, Copy, Debug, PartialEq, Eq, Structural)]
pub enum Slot {
    Slot0,
    Slot1,
    Slot2,
    Slot3,
    Slot4,
    Slot5,
    Slot6,
    Slot7,
    Slot8,
    Slot9,
    Slot10,
    Slot11,
    Slot12,
    Slot13,
    Slot14,
    Slot15,
}

impl Slot {
    /// The slot's numeric identifier, 0 through 15.
    pub open spec fn spec_id(self) -> u8 {
        match self {
            Slot::Slot0 => 0,
            Slot::Slot1 => 1,
            Slot::Slot2 => 2,
            Slot::Slot3 => 3,
            Slot::Slot4 => 4,
            Slot::Slot5 => 5,
            Slot::Slot6 => 6,
            Slot::Slot7 => 7,
            Slot::Slot8 => 8,
            Slot::Slot9 => 9,
            Slot::Slot10 => 10,
            Slot::Slot11 => 11,
            Slot::Slot12 => 12,
            Slot::Slot13 => 13,
            Slot::Slot14 => 14,
            Slot::Slot15 => 15,
        }
    }

    /// The slot's numeric identifier.
    pub fn id(self) -> (r: u8)
        ensures
            r == self.spec_id(),
            r <= 15,
    {
        match self {
            Slot::Slot0 => 0,
            Slot::Slot1 => 1,
            Slot::Slot2 => 2,
            Slot::Slot3 => 3,
            Slot::Slot4 => 4,
            Slot::Slot5 => 5,
            Slot::Slot6 => 6,
            Slot::Slot7 => 7,
            Slot::Slot8 => 8,
            Slot::Slot9 => 9,
            Slot::Slot10 => 10,
            Slot::Slot11 => 11,
            Slot::Slot12 => 12,
            Slot::Slot13 => 13,
            Slot::Slot14 => 14,
            Slot::Slot15 => 15,
        }
    }

    /// Whether the slot may hold symmetric or private key material.
    pub open spec fn spec_is_private_key(self) -> bool {
        self.spec_id() < 8
    }

    /// Whether the slot may hold symmetric or private key material, the
    /// capability gating operations such as block encryption.
    pub fn is_private_key(self) -> (r: bool)
        ensures
            r == self.spec_is_private_key(),
    {
        self.id() < 8
    }

    /// How many 32-byte blocks the slot spans: slots 0 through 7 hold 36
    /// bytes (two blocks), slot 8 holds 416 bytes (thirteen blocks), and
    /// slots 9 through 15 hold 72 bytes (three blocks).
    pub open spec fn spec_block_count(self) -> nat {
        if self.spec_id() < 8 {
            2
        } else if self.spec_id() == 8 {
            13
        } else {
            3
        }
    }

    /// Number of 32-byte blocks the slot spans.
    pub fn block_count(self) -> (r: u8)
        ensures
            r == self.spec_block_count(),
    {
        let id = self.id();
        if id < 8 {
            2
        } else if id == 8 {
            13
        } else {
            3
        }
    }
}

/// A named region of the chip's addressable memory. Each zone has its own
/// addressing arithmetic and legality rules; the one-time-programmable
/// zone, for instance, can never be locked.
#[derive(Clone, Copy, Debug, PartialEq, Eq, Structural)]
pub enum Zone {
    Config,
    Data,
    Otp,
}

impl Zone {
    /// The zone selector bits of the mode byte.
    pub open spec fn spec_zone_id(self) -> u8 {
        match self {
            Zone::Config => 0x00,
            Zone::Otp => 0x01,
            Zone::Data => 0x02,
        }
    }

    /// The mode byte for an access of the given size: the low bits select
    /// the zone, the high bit selects 32-byte rather than 4-byte transfer
    /// granularity.
    pub open spec fn spec_encode(self, size: Size) -> u8 {
        if size == Size::Block {
            (self.spec_zone_id() + 0x80) as u8
        } else {
            self.spec_zone_id()
        }
    }

    /// Encode the zone and transfer size into a mode byte.
    pub fn encode(self, size: Size) -> (r: u8)
        ensures
            r == self.spec_encode(size),
    {
        let id = match self {
            Zone::Config => 0x00,
            Zone::Otp => 0x01,
            Zone::Data => 0x02,
        };
        match size {
            Size::Block => id + 0x80,
            Size::Word => id,
        }
    }

    /// How many 32-byte blocks the zone spans when addressed directly:
    /// the config zone holds 128 bytes (four blocks), the
    /// one-time-programmable zone 64 bytes (two blocks). The data zone is
    /// addressed through its slots instead.
    pub open spec fn spec_block_count(self) -> nat {
        match self {
            Zone::Config => 4,
            Zone::Otp => 2,
            Zone::Data => 0,
        }
    }

    /// Whether (block, offset) is a legal direct address in this zone:
    /// the block must exist and the word offset must fall inside the
    /// block's eight 4-byte words.
    pub open spec fn addr_ok(self, block: u8, offset: u8) -> bool {
        (block as nat) < self.spec_block_count() && offset < 8
    }

    /// The zone-relative physical address of a legal (block, offset):
    /// eight words per block, one address unit per word.
    pub open spec fn spec_addr(self, block: u8, offset: u8) -> u16 {
        (8 * block + offset) as u16
    }

    /// Compute the physical address of a (block, offset) location.
    pub fn get_addr(self, block: u8, offset: u8) -> (r: Result<u16, Error>)
        ensures
            self.addr_ok(block, offset) ==> r == Ok::<u16, Error>(self.spec_addr(block, offset)),
            !self.addr_ok(block, offset) ==> r == Err::<u16, Error>(Error::BadParam),
    {
        let limit: u8 = match self {
            Zone::Config => 4,
            Zone::Otp => 2,
            Zone::Data => 0,
        };
        if block < limit && offset < 8 {
            Ok(8 * (block as u16) + (offset as u16))
        } else {
            Err(Error::BadParam)
        }
    }

    /// Whether `block` is a legal block index inside `slot`; only the
    /// data zone is addressed by slot.
    pub open spec fn slot_addr_ok(self, slot: Slot, block: u8) -> bool {
        self == Zone::Data && (block as nat) < slot.spec_block_count()
    }

    /// Compute the physical address of a key slot's block inside the
    /// data zone.
    pub fn get_slot_addr(self, slot: Slot, block: u8) -> (r: Result<u16, Error>)
        ensures
            self.slot_addr_ok(slot, block) ==> r == Ok::<u16, Error>(spec_slot_addr(slot, block)),
            !self.slot_addr_ok(slot, block) ==> r == Err::<u16, Error>(Error::BadParam),
    {
        match self {
            Zone::Data => {
                if block < slot.block_count() {
                    Ok(256 * (block as u16) + 8 * (slot.id() as u16))
                } else {
                    Err(Error::BadParam)
                }
            },
            _ => Err(Error::BadParam),
        }
    }
}

/// The physical address of a key slot's block: the slot number shifted
/// into bits 3 to 7, the block index into bits 8 and up.
pub open spec fn spec_slot_addr(slot: Slot, block: u8) -> u16 {
    (256 * block + 8 * slot.spec_id()) as u16
}

/// Every direct address the model accepts lies inside the zone's legal
/// range: a zone of `n` blocks spans addresses `0` to `8 * n - 1`.
/// Out-of-range inputs are rejected by `get_addr` with `BadParam`, as its
/// contract states.
pub proof fn lemma_addr_in_zone_range(zone: Zone, block: u8, offset: u8)
    requires
        zone.addr_ok(block, offset),
    ensures
        zone.spec_addr(block, offset) < 8 * zone.spec_block_count(),
{
}

/// Every slot address the model accepts lies inside the data zone's
/// address space: below the address of the first block past the largest
/// slot.
pub proof fn lemma_slot_addr_in_range(slot: Slot, block: u8)
    requires
        Zone::Data.slot_addr_ok(slot, block),
    ensures
        spec_slot_addr(slot, block) < 256 * 13,
{
}

} // verus!
