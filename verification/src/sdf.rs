//! Integer side of the obstacle signed-distance field: the layout of its
//! cubic texel volume and how a lookup outside the volume is moved onto
//! its border.
use vstd::prelude::*;

use crate::bed::{cell_index, cell_index_spec, in_grid};

verus! {

/// Texels along each axis of the signed-distance volume.
pub const SDF_RES: u32 = 128;

/// Texel coordinate `c` moved into the volume: onto `0 ..= SDF_RES - 1`.
pub open spec fn clamp_texel(c: i32) -> int {
    if c < 0 {
        0
    } else if c >= SDF_RES {
        SDF_RES - 1
    } else {
        c as int
    }
}

/// Position in the volume's data of the texel nearest to `c`: x runs
/// fastest, then y, then z.
pub open spec fn sdf_texel_index_spec(c: [i32; 3]) -> int {
    cell_index_spec([SDF_RES, SDF_RES, SDF_RES], clamp_texel(c[0]), clamp_texel(c[1]), clamp_texel(c[2]))
}

/// The position in the volume's data of texel `c`, clamped into the
/// volume.
pub fn sdf_texel_index(c: [i32; 3]) -> (r: usize)
    ensures
        r == sdf_texel_index_spec(c),
        r < SDF_RES * SDF_RES * SDF_RES,
{
    let top: i32 = 127;
    let x = if c[0] < 0 {
        0
    } else if c[0] > top {
        top
    } else {
        c[0]
    };
    let y = if c[1] < 0 {
        0
    } else if c[1] > top {
        top
    } else {
        c[1]
    };
    let z = if c[2] < 0 {
        0
    } else if c[2] > top {
        top
    } else {
        c[2]
    };
    assert(in_grid([SDF_RES, SDF_RES, SDF_RES], x as int, y as int, z as int));
    cell_index([SDF_RES, SDF_RES, SDF_RES], x as u32, y as u32, z as u32)
}

} // verus!
