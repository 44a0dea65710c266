//! package.toc structures

use vstd::prelude::*;
use crate::util::bytes::{le_u32, read_u32_le};
use crate::util::{make_c_string, spec_make_c_string};

verus! {

/// An entry inside the `package.toc` file (80 bytes on disk).
#[derive(Debug)]
pub struct PackageTocEntry {
    /// Package file name, NUL-terminated.
    file_name: [u8; 0x40],
    file_name_hash: u32,
    toc_start_offset: u32,
    toc_size: u32,
    toc_file_count: u32,
}

impl PackageTocEntry {
    /// Size of an entry on disk, in bytes.
    pub const SIZE: usize = 0x50;

    /// The 64 bytes of the file name field.
    pub closed spec fn spec_file_name_bytes(&self) -> Seq<u8> {
        self.file_name@
    }

    pub closed spec fn spec_file_name_hash(&self) -> u32 {
        self.file_name_hash
    }

    pub closed spec fn spec_toc_start_offset(&self) -> u32 {
        self.toc_start_offset
    }

    pub closed spec fn spec_toc_size(&self) -> u32 {
        self.toc_size
    }

    pub closed spec fn spec_toc_file_count(&self) -> u32 {
        self.toc_file_count
    }

    /// Whether `self` is the entry stored in the first 80 bytes of `b`.
    pub open spec fn is_decoding_of(&self, b: Seq<u8>) -> bool {
        &&& self.spec_file_name_bytes() == b.subrange(0, 0x40)
        &&& self.spec_file_name_hash() == le_u32(b, 0x40)
        &&& self.spec_toc_start_offset() == le_u32(b, 0x44)
        &&& self.spec_toc_size() == le_u32(b, 0x48)
        &&& self.spec_toc_file_count() == le_u32(b, 0x4C)
    }

    /// Decode the entry stored at the start of `b`, or `None` if `b` is too short to hold one.
    pub fn from_bytes(b: &[u8]) -> (r: Option<PackageTocEntry>)
        ensures
            b@.len() < Self::SIZE ==> r is None,
            b@.len() >= Self::SIZE ==> (r matches Some(e) && e.is_decoding_of(b@)),
    {
        if b.len() < Self::SIZE {
            return None;
        }
        let mut file_name = [0u8; 0x40];
        let mut i: usize = 0;
        while i < 0x40
            invariant
                i <= 0x40,
                b@.len() >= 0x50,
                file_name@.len() == 0x40,
                forall|j: int| 0 <= j < i ==> file_name@[j] == b@[j],
            decreases 0x40 - i,
        {
            file_name[i] = b[i];
            i = i + 1;
        }
        let e = PackageTocEntry {
            file_name,
            file_name_hash: read_u32_le(b, 0x40),
            toc_start_offset: read_u32_le(b, 0x44),
            toc_size: read_u32_le(b, 0x48),
            toc_file_count: read_u32_le(b, 0x4C),
        };
        assert(e.spec_file_name_bytes() =~= b@.subrange(0, 0x40));
        Some(e)
    }

    /// The package file name: the bytes of the name field before its first NUL byte, if
    /// they are valid UTF-8.
    pub fn file_name(&self) -> (r: Option<String>)
        ensures
            r is Some <==> spec_make_c_string(self.spec_file_name_bytes()) is Some,
            r matches Some(s) ==> spec_make_c_string(self.spec_file_name_bytes()) == Some(s@),
    {
        make_c_string(self.file_name.as_slice())
    }

    pub fn file_name_hash(&self) -> (r: u32)
        ensures
            r == self.spec_file_name_hash(),
    {
        self.file_name_hash
    }

    pub fn toc_start_offset(&self) -> (r: u32)
        ensures
            r == self.spec_toc_start_offset(),
    {
        self.toc_start_offset
    }

    pub fn toc_size(&self) -> (r: u32)
        ensures
            r == self.spec_toc_size(),
    {
        self.toc_size
    }

    pub fn toc_file_count(&self) -> (r: u32)
        ensures
            r == self.spec_toc_file_count(),
    {
        self.toc_file_count
    }
}

} // verus!
