use vstd::prelude::*;

use crate::axis::Axis;
use crate::cone::Cone;
use crate::demo::SceneItem;
use crate::ocean::Ocean;
use crate::propeller::Propeller;
use crate::ship::Ship;
use crate::torus::Torus;

verus! {

/// One of the library's meshes, so that a single demo can hold a mix of them.
pub enum SceneObject {
    Torus(Torus),
    Cone(Cone),
    Ocean(Ocean),
    Ship(Ship),
    Axis(Axis),
    Propeller(Propeller),
}

impl SceneItem for SceneObject {
    /// The same kind of object, with the mesh inside advanced.
    open spec fn advanced(&self, elapsed: u64) -> Self {
        match self {
            SceneObject::Torus(t) => SceneObject::Torus(t.advanced(elapsed)),
            SceneObject::Cone(c) => SceneObject::Cone(c.advanced(elapsed)),
            SceneObject::Ocean(o) => SceneObject::Ocean(o.advanced(elapsed)),
            SceneObject::Ship(s) => SceneObject::Ship(s.advanced(elapsed)),
            SceneObject::Axis(a) => SceneObject::Axis(a.advanced(elapsed)),
            SceneObject::Propeller(p) => SceneObject::Propeller(p.advanced(elapsed)),
        }
    }

    fn anim(&mut self, elapsed: u64) {
        match self {
            SceneObject::Torus(t) => t.anim(elapsed),
            SceneObject::Cone(c) => c.anim(elapsed),
            SceneObject::Ocean(o) => o.anim(elapsed),
            SceneObject::Ship(s) => s.anim(elapsed),
            SceneObject::Axis(a) => a.anim(elapsed),
            SceneObject::Propeller(p) => p.anim(elapsed),
        }
    }
}

} // verus!
