//! Reading `package.toc`: the file is a sequence of 80-byte [PackageTocEntry] records.

use vstd::prelude::*;
use crate::format::package_toc::PackageTocEntry;

verus! {

#[verifier::external_type_specification]
#[verifier::external_body]
pub struct ExIoError(std::io::Error);

/// Errors of reading `package.toc`.
#[derive(Debug)]
pub enum Error {
    /// Underlying I/O error.
    IoError(std::io::Error),
    /// File too small to hold a package toc entry.
    FileTooSmall,
    /// Under-read of data.
    ReadTooSmall,
}

/// The number of whole entries a `package.toc` of `file_size` bytes holds.
pub open spec fn spec_toc_entry_count(file_size: nat) -> nat {
    file_size / (PackageTocEntry::SIZE as nat)
}

/// Decode the entries of a `package.toc` file whose contents are `bytes`: one entry per
/// whole 80 bytes, in order (trailing bytes that make no whole entry are ignored). A file
/// too small to hold one entry is [Error::FileTooSmall].
pub fn parse_package_toc(bytes: &[u8]) -> (r: Result<Vec<PackageTocEntry>, Error>)
    ensures
        bytes@.len() < PackageTocEntry::SIZE <==> (r matches Err(e) && e is FileTooSmall),
        bytes@.len() >= PackageTocEntry::SIZE ==> r is Ok,
        r matches Ok(v) ==> {
            &&& v@.len() == spec_toc_entry_count(bytes@.len())
            &&& v@.len() * 80 <= bytes@.len() < v@.len() * 80 + 80
            &&& forall|i: int|
                0 <= i < v@.len() ==> #[trigger] v@[i].is_decoding_of(
                    bytes@.subrange(i * 80, i * 80 + 80),
                )
        },
{
    assert(PackageTocEntry::SIZE == 80);
    let n = bytes.len();
    let vec_size: usize = n / PackageTocEntry::SIZE;
    if vec_size == 0 {
        return Err(Error::FileTooSmall);
    }
    let mut vec: Vec<PackageTocEntry> = Vec::new();
    let mut i: usize = 0;
    while i < vec_size
        invariant
            n == bytes@.len(),
            vec_size == bytes@.len() / 80,
            i <= vec_size,
            vec@.len() == i,
            forall|j: int|
                0 <= j < i ==> #[trigger] vec@[j].is_decoding_of(
                    bytes@.subrange(j * 80, j * 80 + 80),
                ),
        decreases vec_size - i,
    {
        assert(i * 80 + 80 <= bytes@.len()) by (nonlinear_arith)
            requires
                i < vec_size,
                vec_size == bytes@.len() / 80,
        ;
        let start = i * PackageTocEntry::SIZE;
        let chunk = vstd::slice::slice_subrange(bytes, start, start + PackageTocEntry::SIZE);
        let e = PackageTocEntry::from_bytes(chunk).unwrap();
        vec.push(e);
        i = i + 1;
    }
    assert(vec_size * 80 <= n < vec_size * 80 + 80) by (nonlinear_arith)
        requires
            vec_size == n / 80,
    ;
    Ok(vec)
}


/// A `package.toc` of `k` whole entries and `rest` (< 80) trailing bytes holds exactly `k`
/// entries: a file that is a whole number of entries loses none.
pub proof fn lemma_toc_entry_count(k: nat, rest: nat)
    requires
        rest < 80,
    ensures
        spec_toc_entry_count(k * 80 + rest) == k,
{
    assert(PackageTocEntry::SIZE == 80);
    assert((k * 80 + rest) / 80 == k) by (nonlinear_arith)
        requires
            rest < 80,
    ;
}

} // verus!
