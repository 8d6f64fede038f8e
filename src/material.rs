use vstd::prelude::*;

verus! {

/// The GL enum for front faces (`GL_FRONT`).
pub const FACE_FRONT: u32 = 0x0404;

/// The GL enum for back faces (`GL_BACK`).
pub const FACE_BACK: u32 = 0x0405;

/// Which faces a material applies to.
#[derive(Clone, Copy, Debug, PartialEq, Eq, Structural)]
pub enum ActiveFace {
    Front,
    Back,
    FrontAndBack,
}

/// The GL faces a material set to `active` is applied to, in order.
pub open spec fn face_enums(active: ActiveFace) -> Seq<u32> {
    match active {
        ActiveFace::Front => seq![FACE_FRONT],
        ActiveFace::Back => seq![FACE_BACK],
        ActiveFace::FrontAndBack => seq![FACE_FRONT, FACE_BACK],
    }
}

impl ActiveFace {
    /// The GL faces to apply a material to, front before back.
    pub fn faces(&self) -> (r: Vec<u32>)
        ensures
            r@ == face_enums(*self),
    {
        match self {
            ActiveFace::Front => vec![FACE_FRONT],
            ActiveFace::Back => vec![FACE_BACK],
            ActiveFace::FrontAndBack => vec![FACE_FRONT, FACE_BACK],
        }
    }
}

} // verus!
