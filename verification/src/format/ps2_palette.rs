//! .ps2_palette structures

use vstd::prelude::*;
use super::Validatable;
use crate::util::bytes::{le_u16, le_u32, read_u16_le, read_u32_le};

verus! {

/// .ps2_palette header (48 bytes on disk).
#[derive(Debug)]
pub struct Ps2PaletteHeader {
    pub fourcc: u32,
    pub unk: u32,
    pub unk2: u16,
    pub color_count: u16,
    pub palette_bpp: u16,
    pub unk3: u16,
    pub data_start: u32,
    pub header_size: u32,
    /// Reserved for game code, like .ps2_texture?
    pub pad: [u32; 6],
}

impl Ps2PaletteHeader {
    /// 'PAL1'
    pub const VALID_FOURCC: u32 = 0x314c4150;

    /// Size of the header on disk, in bytes.
    pub const SIZE: usize = 48;

    /// Whether `self` is the header stored at the start of `b`.
    pub open spec fn is_decoding_of(&self, b: Seq<u8>) -> bool {
        &&& self.fourcc == le_u32(b, 0)
        &&& self.unk == le_u32(b, 4)
        &&& self.unk2 == le_u16(b, 8)
        &&& self.color_count == le_u16(b, 10)
        &&& self.palette_bpp == le_u16(b, 12)
        &&& self.unk3 == le_u16(b, 14)
        &&& self.data_start == le_u32(b, 16)
        &&& self.header_size == le_u32(b, 20)
        &&& self.pad@ == Seq::new(6, |i: int| le_u32(b, 24 + 4 * i))
    }

    /// Whether every field of `self` is zero.
    pub open spec fn is_zeroed(&self) -> bool {
        &&& self.fourcc == 0 && self.unk == 0 && self.unk2 == 0 && self.color_count == 0
        &&& self.palette_bpp == 0 && self.unk3 == 0 && self.data_start == 0
        &&& self.header_size == 0
        &&& self.pad@ == Seq::new(6, |i: int| 0u32)
    }

    /// Decode the header stored at the start of `b`, or `None` if `b` is too short to hold one.
    pub fn from_bytes(b: &[u8]) -> (r: Option<Ps2PaletteHeader>)
        ensures
            b@.len() < Self::SIZE ==> r is None,
            b@.len() >= Self::SIZE ==> (r matches Some(h) && h.is_decoding_of(b@)),
    {
        if b.len() < Self::SIZE {
            return None;
        }
        let h = Ps2PaletteHeader {
            fourcc: read_u32_le(b, 0),
            unk: read_u32_le(b, 4),
            unk2: read_u16_le(b, 8),
            color_count: read_u16_le(b, 10),
            palette_bpp: read_u16_le(b, 12),
            unk3: read_u16_le(b, 14),
            data_start: read_u32_le(b, 16),
            header_size: read_u32_le(b, 20),
            pad: [
                read_u32_le(b, 24),
                read_u32_le(b, 28),
                read_u32_le(b, 32),
                read_u32_le(b, 36),
                read_u32_le(b, 40),
                read_u32_le(b, 44),
            ],
        };
        assert(h.pad@ =~= Seq::new(6, |i: int| le_u32(b@, 24 + 4 * i)));
        Some(h)
    }
}

impl Default for Ps2PaletteHeader {
    /// A header with every field zero.
    fn default() -> (r: Ps2PaletteHeader)
        ensures
            r.is_zeroed(),
    {
        let r = Ps2PaletteHeader {
            fourcc: 0,
            unk: 0,
            unk2: 0,
            color_count: 0,
            palette_bpp: 0,
            unk3: 0,
            data_start: 0,
            header_size: 0,
            pad: [0, 0, 0, 0, 0, 0],
        };
        assert(r.pad@ =~= Seq::new(6, |i: int| 0u32));
        r
    }
}

impl Validatable for Ps2PaletteHeader {
    /// The FourCC is 'PAL1' and the header size field is 0x18.
    open spec fn spec_valid(&self) -> bool {
        self.fourcc == Self::VALID_FOURCC && self.header_size == 0x18
    }

    fn valid(&self) -> (r: bool) {
        self.fourcc == Self::VALID_FOURCC && self.header_size == 0x18
    }
}


/// A palette header is valid exactly when its FourCC reads 'PAL1' (bytes `P`, `A`, `L`, `1`
/// in file order) and its header size field is 0x18; no other field plays a part.
pub proof fn lemma_palette_header_valid(h: Ps2PaletteHeader)
    ensures
        h.spec_valid() <==> (h.fourcc == 0x50 + 0x41 * 0x100 + 0x4C * 0x1_0000 + 0x31 * 0x100_0000
            && h.header_size == 0x18),
{
}

} // verus!
