use vstd::prelude::*;

use crate::demo::SceneItem;

verus! {

/// The three coordinate axes as arrows, in green, red and blue.
///
/// Its geometry never changes, so it is recorded once into a display list and replayed
/// from there; the handle is 0 until that list is built.
pub struct Axis {
    display_list: u32,
}

impl Axis {
    /// The handle of the display list holding the geometry.
    pub closed spec fn list(&self) -> u32 {
        self.display_list
    }

    /// A axis whose display list is not built yet.
    pub fn new() -> (r: Self)
        ensures
            r.list() == 0,
    {
        Axis { display_list: 0 }
    }

    /// The handle of the display list holding the geometry (0 before it is built).
    pub fn display_list(&self) -> (r: u32)
        ensures
            r == self.list(),
    {
        self.display_list
    }

    /// Records the handle of the display list built for this axis.
    pub fn set_display_list(&mut self, list: u32)
        ensures
            final(self).list() == list,
    {
        self.display_list = list;
    }
}

impl SceneItem for Axis {
    /// A axis does not move.
    closed spec fn advanced(&self, elapsed: u64) -> Self {
        Axis { display_list: self.display_list }
    }

    fn anim(&mut self, elapsed: u64) {
    }
}

} // verus!
