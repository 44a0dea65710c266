//! Package file format structures

use vstd::prelude::*;
use super::Validatable;
use crate::lzss::header::LzssHeader;
use crate::util::bytes::{le_u16, le_u32, read_u16_le, read_u32_le};

verus! {

/// "EOF" header. The QuickBMS script uses this to seek to the PGRP entry.
#[derive(Debug)]
pub struct PackageEofHeader {
    /// Total size of the header.
    pub header_size: u32,
    /// Size of the debug string table in bytes.
    pub stringtable_size: u32,
    /// Start offset of the [PackageGroup] in the package file.
    pub header_start_offset: u32,
}

impl PackageEofHeader {
    /// Size of the header on disk, in bytes.
    pub const SIZE: usize = 12;

    /// The header stored at the start of `b`.
    pub open spec fn spec_from_bytes(b: Seq<u8>) -> PackageEofHeader {
        PackageEofHeader {
            header_size: le_u32(b, 0),
            stringtable_size: le_u32(b, 4),
            header_start_offset: le_u32(b, 8),
        }
    }

    /// Decode the header stored at the start of `b`, or `None` if `b` is too short to hold one.
    pub fn from_bytes(b: &[u8]) -> (r: Option<PackageEofHeader>)
        ensures
            b@.len() < Self::SIZE ==> r is None,
            b@.len() >= Self::SIZE ==> r == Some(Self::spec_from_bytes(b@)),
    {
        if b.len() < Self::SIZE {
            return None;
        }
        Some(
            PackageEofHeader {
                header_size: read_u32_le(b, 0),
                stringtable_size: read_u32_le(b, 4),
                header_start_offset: read_u32_le(b, 8),
            },
        )
    }
}

/// A Package Group.
#[derive(Debug)]
pub struct PackageGroup {
    pub fourcc: u32,
    /// Hash of the name of this package group. Hashed with [hash_string](crate::hash::crc32::hash_string).
    pub group_name_hash: u32,
    /// File count inside of this group.
    pub group_file_count: u32,
    /// Padding. Set to a fill of 0xCD.
    pub pad: u32,
}

impl PackageGroup {
    /// 'PGRP'
    pub const VALID_FOURCC: u32 = 0x50524750;

    /// Size of the group header on disk, in bytes.
    pub const SIZE: usize = 16;

    /// The group header stored at the start of `b`.
    pub open spec fn spec_from_bytes(b: Seq<u8>) -> PackageGroup {
        PackageGroup {
            fourcc: le_u32(b, 0),
            group_name_hash: le_u32(b, 4),
            group_file_count: le_u32(b, 8),
            pad: le_u32(b, 12),
        }
    }

    /// Decode the group header stored at the start of `b`, or `None` if `b` is too short.
    pub fn from_bytes(b: &[u8]) -> (r: Option<PackageGroup>)
        ensures
            b@.len() < Self::SIZE ==> r is None,
            b@.len() >= Self::SIZE ==> r == Some(Self::spec_from_bytes(b@)),
    {
        if b.len() < Self::SIZE {
            return None;
        }
        Some(
            PackageGroup {
                fourcc: read_u32_le(b, 0),
                group_name_hash: read_u32_le(b, 4),
                group_file_count: read_u32_le(b, 8),
                pad: read_u32_le(b, 12),
            },
        )
    }
}

impl Default for PackageGroup {
    fn default() -> (r: PackageGroup)
        ensures
            r == (PackageGroup { fourcc: 0, group_name_hash: 0, group_file_count: 0, pad: 0 }),
    {
        PackageGroup { fourcc: 0, group_name_hash: 0, group_file_count: 0, pad: 0 }
    }
}

impl Validatable for PackageGroup {
    /// The FourCC is 'PGRP'.
    open spec fn spec_valid(&self) -> bool {
        self.fourcc == Self::VALID_FOURCC
    }

    fn valid(&self) -> (r: bool) {
        self.fourcc == Self::VALID_FOURCC
    }
}

/// A package file chunk.
#[derive(Debug)]
pub struct PackageFileChunk {
    pub fourcc: u32,
    /// Unknown, stays the same per file.
    pub unk: u32,
    /// Unknown, stays the same per file.
    pub unk2: u32,
    /// The current chunk sequence number.
    pub chunk_sequence_number: u16,
    /// The total amount of chunks which make up this file.
    pub chunk_sequence_count: u16,
    /// Hash of file name. Hashed with [hash_string](crate::hash::crc32::hash_string),
    /// so it is case-insensitive.
    pub file_name_crc: u32,
    /// Unknown data, stays the same per file.
    pub unk3: [u32; 7],
    /// Uncompressed size of this file chunk's data. Has a maximum of 65535 bytes.
    pub chunk_uncompressed_size: u32,
    /// Where this chunk should start in a larger buffer.
    pub chunk_buffer_offset: u32,
    /// Compressed size of this file chunk's data.
    pub chunk_compressed_size: u32,
    /// Offset in the package file where this chunk's data starts.
    pub chunk_data_offset: u32,
    /// Uncompressed file size.
    pub file_uncompressed_size: u32,
    /// LZSS header. Only used if the file chunk is compressed.
    pub lzss_header: LzssHeader,
}

impl PackageFileChunk {
    /// 'PFIL'
    pub const VALID_FOURCC: u32 = 0x4C494650;

    /// Size of the chunk header on disk, in bytes (the LZSS header is its last 32 bytes).
    pub const SIZE: usize = 100;

    /// Whether `self` is the chunk header stored at the start of `b`.
    pub open spec fn is_decoding_of(self, b: Seq<u8>) -> bool {
        &&& self.fourcc == le_u32(b, 0)
        &&& self.unk == le_u32(b, 4)
        &&& self.unk2 == le_u32(b, 8)
        &&& self.chunk_sequence_number == le_u16(b, 12)
        &&& self.chunk_sequence_count == le_u16(b, 14)
        &&& self.file_name_crc == le_u32(b, 16)
        &&& self.unk3@ == Seq::new(7, |i: int| le_u32(b, 20 + 4 * i))
        &&& self.chunk_uncompressed_size == le_u32(b, 48)
        &&& self.chunk_buffer_offset == le_u32(b, 52)
        &&& self.chunk_compressed_size == le_u32(b, 56)
        &&& self.chunk_data_offset == le_u32(b, 60)
        &&& self.file_uncompressed_size == le_u32(b, 64)
        &&& self.lzss_header == LzssHeader::spec_from_bytes(b.subrange(68, 100))
    }

    /// Decode the chunk header stored at the start of `b`, or `None` if `b` is too short.
    pub fn from_bytes(b: &[u8]) -> (r: Option<PackageFileChunk>)
        ensures
            b@.len() < Self::SIZE ==> r is None,
            b@.len() >= Self::SIZE ==> (r matches Some(c) && c.is_decoding_of(b@)),
    {
        if b.len() < Self::SIZE {
            return None;
        }
        let unk3 = [
            read_u32_le(b, 20),
            read_u32_le(b, 24),
            read_u32_le(b, 28),
            read_u32_le(b, 32),
            read_u32_le(b, 36),
            read_u32_le(b, 40),
            read_u32_le(b, 44),
        ];
        let lzss_bytes = vstd::slice::slice_subrange(b, 68, 100);
        let lzss_header = match LzssHeader::from_bytes(lzss_bytes) {
            Some(h) => h,
            None => {
                return None;
            },
        };
        let c = PackageFileChunk {
            fourcc: read_u32_le(b, 0),
            unk: read_u32_le(b, 4),
            unk2: read_u32_le(b, 8),
            chunk_sequence_number: read_u16_le(b, 12),
            chunk_sequence_count: read_u16_le(b, 14),
            file_name_crc: read_u32_le(b, 16),
            unk3,
            chunk_uncompressed_size: read_u32_le(b, 48),
            chunk_buffer_offset: read_u32_le(b, 52),
            chunk_compressed_size: read_u32_le(b, 56),
            chunk_data_offset: read_u32_le(b, 60),
            file_uncompressed_size: read_u32_le(b, 64),
            lzss_header,
        };
        assert(c.unk3@ =~= Seq::new(7, |i: int| le_u32(b@, 20 + 4 * i)));
        Some(c)
    }

    /// If the compressed size matches the uncompressed size then the file chunk is not
    /// compressed; likewise, if it does not, then the file chunk is compressed.
    pub fn is_compressed(&self) -> (r: bool)
        ensures
            r == (self.chunk_compressed_size != self.chunk_uncompressed_size),
    {
        self.chunk_compressed_size != self.chunk_uncompressed_size
    }
}

impl Default for PackageFileChunk {
    /// A chunk header with every field zero.
    fn default() -> (r: PackageFileChunk)
        ensures
            r.fourcc == 0 && r.unk == 0 && r.unk2 == 0,
            r.chunk_sequence_number == 0 && r.chunk_sequence_count == 0,
            r.file_name_crc == 0,
            r.unk3@ == Seq::new(7, |i: int| 0u32),
            r.chunk_uncompressed_size == 0 && r.chunk_buffer_offset == 0,
            r.chunk_compressed_size == 0 && r.chunk_data_offset == 0,
            r.file_uncompressed_size == 0,
            r.lzss_header == (LzssHeader {
                next: 0,
                byte_id: 0,
                header_size: 0,
                max_match: 0,
                fill_byte: 0,
                ring_size: 0,
                error_id: 0,
                uncompressed_bytes: 0,
                compressed_bytes: 0,
                crc_hash: 0,
                file_id: 0,
                compressed_data_crc: 0,
            }),
    {
        let r = PackageFileChunk {
            fourcc: 0,
            unk: 0,
            unk2: 0,
            chunk_sequence_number: 0,
            chunk_sequence_count: 0,
            file_name_crc: 0,
            unk3: [0, 0, 0, 0, 0, 0, 0],
            chunk_uncompressed_size: 0,
            chunk_buffer_offset: 0,
            chunk_compressed_size: 0,
            chunk_data_offset: 0,
            file_uncompressed_size: 0,
            lzss_header: LzssHeader::default(),
        };
        assert(r.unk3@ =~= Seq::new(7, |i: int| 0u32));
        r
    }
}

impl Validatable for PackageFileChunk {
    /// The FourCC is 'PFIL' and the LZSS header is valid. Even if it is not used, the LZSS
    /// header is initialized to meaningful values, including its magic.
    open spec fn spec_valid(&self) -> bool {
        self.fourcc == Self::VALID_FOURCC && self.lzss_header.spec_valid()
    }

    fn valid(&self) -> (r: bool) {
        self.fourcc == Self::VALID_FOURCC && self.lzss_header.valid()
    }
}


/// A chunk header is valid exactly when its FourCC is 'PFIL' and its LZSS header carries
/// the magic byte 0x91 and the header size 32; the chunk's size fields play no part, so an
/// uncompressed chunk is as valid as a compressed one.
pub proof fn lemma_file_chunk_valid(c: PackageFileChunk)
    ensures
        c.spec_valid() <==> (c.fourcc == 0x4C494650 && c.lzss_header.byte_id == 0x91
            && c.lzss_header.header_size == 32),
{
}

/// Two chunk headers with the same FourCC and LZSS header are valid alike, whatever their
/// other fields (sizes, offsets, sequence numbers) hold.
pub proof fn lemma_file_chunk_valid_ignores_other_fields(a: PackageFileChunk, b: PackageFileChunk)
    requires
        a.fourcc == b.fourcc,
        a.lzss_header == b.lzss_header,
    ensures
        a.spec_valid() == b.spec_valid(),
{
}


/// A package group is valid exactly when its FourCC reads 'PGRP' (bytes `P`, `G`, `R`, `P`
/// in file order); no other field plays a part.
pub proof fn lemma_package_group_valid(g: PackageGroup)
    ensures
        g.spec_valid() <==> g.fourcc == 0x50 + 0x47 * 0x100 + 0x52 * 0x1_0000 + 0x50 * 0x100_0000,
{
}

} // verus!
