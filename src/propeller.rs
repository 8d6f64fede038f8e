use vstd::prelude::*;

use crate::demo::SceneItem;

verus! {

/// A two-bladed helicopter propeller in the XY plane.
///
/// Its geometry never changes, so it is recorded once into a display list and replayed
/// from there; the handle is 0 until that list is built.
pub struct Propeller {
    display_list: u32,
}

impl Propeller {
    /// The handle of the display list holding the geometry.
    pub closed spec fn list(&self) -> u32 {
        self.display_list
    }

    /// A propeller whose display list is not built yet.
    pub fn new() -> (r: Self)
        ensures
            r.list() == 0,
    {
        Propeller { display_list: 0 }
    }

    /// The handle of the display list holding the geometry (0 before it is built).
    pub fn display_list(&self) -> (r: u32)
        ensures
            r == self.list(),
    {
        self.display_list
    }

    /// Records the handle of the display list built for this propeller.
    pub fn set_display_list(&mut self, list: u32)
        ensures
            final(self).list() == list,
    {
        self.display_list = list;
    }
}

impl SceneItem for Propeller {
    /// A propeller does not move.
    closed spec fn advanced(&self, elapsed: u64) -> Self {
        Propeller { display_list: self.display_list }
    }

    fn anim(&mut self, elapsed: u64) {
    }
}

} // verus!
