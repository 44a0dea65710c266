//! The `image` crate pixel type that PS2 colors convert to.

use vstd::prelude::*;

verus! {

#[verifier::external_type_specification]
#[verifier::external_body]
#[verifier::reject_recursive_types(T)]
pub struct ExRgba<T>(image::Rgba<T>);

/// The `image::Rgba<u8>` pixel whose channels are `channels` (red, green, blue, alpha).
pub uninterp spec fn rgba_pixel(channels: Seq<u8>) -> image::Rgba<u8>;

/// Trusted: builds the `image::Rgba` tuple struct from its channel array.
#[verifier::external_body]
pub(crate) fn make_rgba_pixel(channels: [u8; 4]) -> (r: image::Rgba<u8>)
    ensures
        r == rgba_pixel(channels@),
{
    image::Rgba(channels)
}

} // verus!
