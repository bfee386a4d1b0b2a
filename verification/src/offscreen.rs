//! Sizes for rendering into an image that is copied back and saved: the
//! bytes its pixels take, and the workgroups that cover it.

use vstd::prelude::*;
use crate::resources::Extent;

verus! {

/// Bytes per pixel of an 8-bit RGBA image.
pub const BYTES_PER_PIXEL: u32 = 4;

/// The bytes that the pixels of an image of `extent` take.
pub open spec fn rgba_len(extent: Extent) -> nat {
    (extent.width * extent.height * 4) as nat
}

/// The number of workgroups of `local` invocations along one axis that fit
/// into `size` pixels.
pub open spec fn groups_along(size: u32, local: u32) -> int {
    size as int / local as int
}

/// The size in bytes of the buffer that an image of `extent` is copied to,
/// if a 32-bit count can hold it.
pub fn rgba_byte_len(extent: Extent) -> (len: Option<u32>)
    ensures
        len is Some <==> rgba_len(extent) <= u32::MAX,
        len matches Some(bytes) ==> bytes == rgba_len(extent),
{
    match extent.width.checked_mul(extent.height) {
        None => {
            assert(extent.width * extent.height * 4 >= extent.width * extent.height)
                by (nonlinear_arith);
            None
        },
        Some(pixels) => pixels.checked_mul(BYTES_PER_PIXEL),
    }
}

/// Tells whether a buffer of `len` bytes holds every pixel of an image of
/// `extent`.
pub fn holds_image(len: usize, extent: Extent) -> (enough: bool)
    ensures
        enough == (len >= rgba_len(extent)),
{
    assert(extent.width * extent.height <= 0xffff_ffff * 0xffff_ffff) by (nonlinear_arith)
        requires
            extent.width <= 0xffff_ffff,
            extent.height <= 0xffff_ffff,
    ;
    let pixels: u64 = (extent.width as u64) * (extent.height as u64);
    let quads: u64 = (len as u64) / 4;
    assert(quads >= pixels <==> len >= pixels * 4);
    assert(rgba_len(extent) == pixels * 4);
    quads >= pixels
}

/// The workgroup counts that a dispatch over an image of `extent` uses, for
/// workgroups of `local_x` by `local_y` invocations: whole groups only, one
/// layer deep.
pub fn workgroup_counts(extent: Extent, local_x: u32, local_y: u32) -> (counts: [u32; 3])
    requires
        local_x > 0,
        local_y > 0,
    ensures
        counts[0] == groups_along(extent.width, local_x),
        counts[1] == groups_along(extent.height, local_y),
        counts[2] == 1,
{
    [extent.width / local_x, extent.height / local_y, 1]
}

} // verus!
