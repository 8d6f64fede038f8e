use vstd::prelude::*;

use crate::demo::SceneItem;
use crate::mesh::Triangle;

verus! {

/// Where a cone corner sits.
#[derive(Clone, Copy, Debug, PartialEq, Eq, Structural)]
pub enum ConePoint {
    /// The tip, straight above the centre of the base.
    Apex,
    /// Step `k` round the rim of the base, at the angle `k * 2π / segments`.
    Rim(u32),
    /// The centre of the base.
    Center,
}

/// Which way a cone corner faces.
#[derive(Clone, Copy, Debug, PartialEq, Eq, Structural)]
pub enum ConeNormal {
    /// Out along the side of the cone, at the angle `h * π / segments` for `Slant(h)`.
    Slant(u64),
    /// Straight down, out of the base.
    Down,
}

/// A corner of a cone triangle.
#[derive(Clone, Copy, Debug, PartialEq, Eq, Structural)]
pub struct ConeCorner {
    pub point: ConePoint,
    pub normal: ConeNormal,
}

/// An upright cone standing on the origin. Lengths are in thousandths of a scene unit.
#[derive(Clone, Copy, Debug, PartialEq, Eq, Structural)]
pub struct Cone {
    pub height: u32,
    pub radius: u32,
    /// Number of steps round the base.
    pub segments: u32,
}

/// The side triangle of segment `i`: from the tip down to rim steps `i` and `i + 1`. The
/// tip faces along the slant of this face, half way between the two rim steps.
pub open spec fn side_triangle(i: int) -> Triangle<ConeCorner> {
    Triangle {
        a: ConeCorner { point: ConePoint::Apex, normal: ConeNormal::Slant((2 * i + 1) as u64) },
        b: ConeCorner { point: ConePoint::Rim(i as u32), normal: ConeNormal::Slant((2 * i) as u64) },
        c: ConeCorner {
            point: ConePoint::Rim((i + 1) as u32),
            normal: ConeNormal::Slant((2 * i + 2) as u64),
        },
    }
}

/// The base triangle of segment `i`: from the centre to rim steps `i + 1` and `i`,
/// facing down.
pub open spec fn base_triangle(i: int) -> Triangle<ConeCorner> {
    Triangle {
        a: ConeCorner { point: ConePoint::Center, normal: ConeNormal::Down },
        b: ConeCorner { point: ConePoint::Rim((i + 1) as u32), normal: ConeNormal::Down },
        c: ConeCorner { point: ConePoint::Rim(i as u32), normal: ConeNormal::Down },
    }
}

impl Cone {
    /// A cone of height 1 on a base of radius 0.5, in 8 steps.
    pub fn new() -> (c: Self)
        ensures
            c.height == 1000,
            c.radius == 500,
            c.segments == 8,
    {
        Cone { height: 1000, radius: 500, segments: 8 }
    }

    /// Every triangle of the surface, segment by segment: the side triangle of a segment,
    /// then its base triangle. There are none when `segments` is 0.
    pub fn triangles(&self) -> (r: Vec<Triangle<ConeCorner>>)
        requires
            2 * self.segments <= usize::MAX,
        ensures
            r@.len() == 2 * self.segments,
            forall|i: int| 0 <= i < self.segments ==> #[trigger] r@[2 * i] == side_triangle(i),
            forall|i: int| 0 <= i < self.segments ==> #[trigger] r@[2 * i + 1] == base_triangle(i),
    {
        let n = self.segments;
        let mut r: Vec<Triangle<ConeCorner>> = Vec::new();
        for i in 0..n
            invariant
                n == self.segments,
                2 * n <= usize::MAX,
                r@.len() == 2 * i,
                forall|j: int| 0 <= j < i ==> #[trigger] r@[2 * j] == side_triangle(j),
                forall|j: int| 0 <= j < i ==> #[trigger] r@[2 * j + 1] == base_triangle(j),
        {
            let step: u64 = 2 * (i as u64);
            r.push(Triangle {
                a: ConeCorner { point: ConePoint::Apex, normal: ConeNormal::Slant(step + 1) },
                b: ConeCorner { point: ConePoint::Rim(i), normal: ConeNormal::Slant(step) },
                c: ConeCorner { point: ConePoint::Rim(i + 1), normal: ConeNormal::Slant(step + 2) },
            });
            r.push(Triangle {
                a: ConeCorner { point: ConePoint::Center, normal: ConeNormal::Down },
                b: ConeCorner { point: ConePoint::Rim(i + 1), normal: ConeNormal::Down },
                c: ConeCorner { point: ConePoint::Rim(i), normal: ConeNormal::Down },
            });
        }
        r
    }
}

impl SceneItem for Cone {
    /// A cone does not move.
    open spec fn advanced(&self, elapsed: u64) -> Self {
        *self
    }

    fn anim(&mut self, elapsed: u64) {
    }
}

} // verus!
