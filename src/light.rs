use vstd::prelude::*;

verus! {

/// The GL enum of the first light slot (`GL_LIGHT0`); the other seven follow it.
pub const LIGHT0: u32 = 0x4000;

/// Number of fixed-function light slots.
pub const LIGHT_COUNT: u32 = 8;

/// The GL enum for light slot `id`.
pub open spec fn light_enum(id: u32) -> int {
    LIGHT0 + id
}

/// Maps a light slot number in `0..=7` to its GL enum.
pub fn id_to_enum(id: u32) -> (r: u32)
    requires
        id < LIGHT_COUNT,
    ensures
        r == light_enum(id),
{
    LIGHT0 + id
}

} // verus!
