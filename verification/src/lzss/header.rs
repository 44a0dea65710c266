//! The header that precedes LZSS-compressed data.

use vstd::prelude::*;
use crate::format::Validatable;
use crate::util::bytes::{le_u16, le_u32, read_u16_le, read_u32_le};

verus! {

/// LZSS header, as stored on disk (32 bytes).
#[derive(Debug)]
pub struct LzssHeader {
    /// PS2 pointer; usually 0, since there is no next header.
    pub next: u32,
    pub byte_id: u8,
    /// Matches the on-disk size of this header.
    pub header_size: u8,
    pub max_match: u8,
    pub fill_byte: u8,
    pub ring_size: u16,
    pub error_id: u16,
    pub uncompressed_bytes: u32,
    pub compressed_bytes: u32,
    pub crc_hash: u32,
    pub file_id: u32,
    pub compressed_data_crc: u32,
}

impl LzssHeader {
    /// Size of the header on disk, in bytes.
    pub const SIZE: usize = 32;

    /// The "magic" value of [LzssHeader::byte_id].
    pub const BYTE_ID: u8 = 0x91;

    /// The header stored at the start of `b`.
    pub open spec fn spec_from_bytes(b: Seq<u8>) -> LzssHeader {
        LzssHeader {
            next: le_u32(b, 0),
            byte_id: b[4],
            header_size: b[5],
            max_match: b[6],
            fill_byte: b[7],
            ring_size: le_u16(b, 8),
            error_id: le_u16(b, 10),
            uncompressed_bytes: le_u32(b, 12),
            compressed_bytes: le_u32(b, 16),
            crc_hash: le_u32(b, 20),
            file_id: le_u32(b, 24),
            compressed_data_crc: le_u32(b, 28),
        }
    }

    /// Decode the header stored at the start of `b`, or `None` if `b` is too short to hold one.
    pub fn from_bytes(b: &[u8]) -> (r: Option<LzssHeader>)
        ensures
            b@.len() < Self::SIZE ==> r is None,
            b@.len() >= Self::SIZE ==> r == Some(Self::spec_from_bytes(b@)),
    {
        if b.len() < Self::SIZE {
            return None;
        }
        Some(LzssHeader {
            next: read_u32_le(b, 0),
            byte_id: b[4],
            header_size: b[5],
            max_match: b[6],
            fill_byte: b[7],
            ring_size: read_u16_le(b, 8),
            error_id: read_u16_le(b, 10),
            uncompressed_bytes: read_u32_le(b, 12),
            compressed_bytes: read_u32_le(b, 16),
            crc_hash: read_u32_le(b, 20),
            file_id: read_u32_le(b, 24),
            compressed_data_crc: read_u32_le(b, 28),
        })
    }
}

impl Default for LzssHeader {
    /// A header with every field zero.
    fn default() -> (r: LzssHeader)
        ensures
            r == (LzssHeader {
                next: 0,
                byte_id: 0,
                header_size: 0,
                max_match: 0,
                fill_byte: 0,
                ring_size: 0,
                error_id: 0,
                uncompressed_bytes: 0,
                compressed_bytes: 0,
                crc_hash: 0,
                file_id: 0,
                compressed_data_crc: 0,
            }),
    {
        LzssHeader {
            next: 0,
            byte_id: 0,
            header_size: 0,
            max_match: 0,
            fill_byte: 0,
            ring_size: 0,
            error_id: 0,
            uncompressed_bytes: 0,
            compressed_bytes: 0,
            crc_hash: 0,
            file_id: 0,
            compressed_data_crc: 0,
        }
    }
}

impl Validatable for LzssHeader {
    /// The "magic" byte is 0x91 and [LzssHeader::header_size] is the header's on-disk size.
    open spec fn spec_valid(&self) -> bool {
        self.byte_id == Self::BYTE_ID && self.header_size as usize == Self::SIZE
    }

    /// Validate this LzssHeader object.
    /// This checks if:
    /// - the "magic" byte is correct (0x91)
    /// - the [LzssHeader::header_size] member is correct
    fn valid(&self) -> (r: bool) {
        self.byte_id == Self::BYTE_ID && self.header_size as usize == Self::SIZE
    }
}


/// An LZSS header is valid exactly when its magic byte is 0x91 and its size field is 32;
/// no other field plays a part.
pub proof fn lemma_lzss_header_valid(h: LzssHeader)
    ensures
        h.spec_valid() <==> (h.byte_id == 0x91 && h.header_size == 32),
{
}

} // verus!
