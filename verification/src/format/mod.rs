//! Low-level file format definitions. Each structure is decoded from the little-endian
//! bytes that the game stores on disk.

pub mod package;
pub mod package_toc;
pub mod ps2_palette;
pub mod ps2_texture;

use vstd::prelude::*;


verus! {

/// A trait validatable format objects implement.
pub trait Validatable {
    /// Whether the object is valid.
    spec fn spec_valid(&self) -> bool;

    /// Returns true if the object is valid, false otherwise.
    fn valid(&self) -> (r: bool)
        ensures
            r == self.spec_valid(),
    ;
}

} // verus!
