use vstd::prelude::*;

use rand::Rng;

use crate::demo::SceneItem;
use crate::mesh::Quad;

verus! {

/// Vertices along each side of the wave grid.
pub const WATER_SIZE: usize = 20;

/// Vertices in the whole grid.
pub const WATER_CELLS: usize = 400;

/// Phase offsets are drawn from `0..OFFSET_RANGE` milliradians (below 1000 radians).
pub const OFFSET_RANGE: u32 = 1_000_000;

/// Microseconds of time that advance the wave phase by one milliradian (two radians a
/// second).
pub const MICROS_PER_MILLIRAD: u64 = 500;

/// A corner of a wave quad: its grid position and its wave phase in milliradians.
#[derive(Clone, Copy, Debug, PartialEq, Eq, Structural)]
pub struct WaveCorner {
    pub row: u32,
    pub col: u32,
    pub phase: u64,
}

/// The wave phase, in milliradians, of a vertex with phase offset `offset` after `time`
/// microseconds.
pub open spec fn phase(time: u64, offset: u32) -> int {
    (time as int) / (MICROS_PER_MILLIRAD as int) + offset
}

/// A clock reading `time` advanced by `diff`, stopping at its largest value.
pub open spec fn clock_after(time: u64, diff: u64) -> u64 {
    if time + diff > u64::MAX {
        u64::MAX
    } else {
        (time + diff) as u64
    }
}

/// A square grid of water whose vertices each bob with their own fixed phase offset.
pub struct Ocean {
    display_list: u32,
    offsets: Vec<u32>,
    time: u64,
    texture: u32,
    morph_on: bool,
    texture_on: bool,
}

/// Relies on rand's `Rng::gen_range` over the thread-local generator, which returns a
/// value in `[low, high)`.
#[verifier::external_body]
fn random_below(high: u32) -> (r: u32)
    requires
        0 < high,
    ensures
        r < high,
{
    rand::thread_rng().gen_range(0, high)
}

/// Whether `offsets` fills the grid, row by row, with offsets in range.
pub open spec fn valid_offsets(offsets: Seq<u32>) -> bool {
    &&& offsets.len() == WATER_CELLS
    &&& forall|k: int| 0 <= k < offsets.len() ==> #[trigger] offsets[k] < OFFSET_RANGE
}

impl Ocean {
    /// The phase offsets, row by row.
    pub closed spec fn offsets(&self) -> Seq<u32> {
        self.offsets@
    }

    /// Microseconds of animation so far.
    pub closed spec fn time_spec(&self) -> u64 {
        self.time
    }

    pub closed spec fn morph_spec(&self) -> bool {
        self.morph_on
    }

    pub closed spec fn texture_on_spec(&self) -> bool {
        self.texture_on
    }

    pub closed spec fn texture_spec(&self) -> u32 {
        self.texture
    }

    /// The offset grid is complete and in range.
    #[verifier::type_invariant]
    closed spec fn inv(&self) -> bool {
        valid_offsets(self.offsets@)
    }

    /// The phase offset at `row`, `col`.
    pub open spec fn offset_at(&self, row: int, col: int) -> u32 {
        self.offsets()[row * WATER_SIZE + col]
    }

    /// The wave phase, in milliradians, at `row`, `col` now.
    pub open spec fn phase_at(&self, row: int, col: int) -> int {
        phase(self.time_spec(), self.offset_at(row, col))
    }

    /// The corner at `row`, `col` as it stands now.
    pub open spec fn corner_at(&self, row: int, col: int) -> WaveCorner {
        WaveCorner { row: row as u32, col: col as u32, phase: self.phase_at(row, col) as u64 }
    }

    /// The quad whose first corner is at `row`, `col`: it runs along the row, down to
    /// the next one and back.
    pub open spec fn quad_at(&self, row: int, col: int) -> Quad<WaveCorner> {
        Quad {
            a: self.corner_at(row, col),
            b: self.corner_at(row, col + 1),
            c: self.corner_at(row + 1, col + 1),
            d: self.corner_at(row + 1, col),
        }
    }

    /// An ocean over the given phase offsets (row by row), at time zero, with morphing
    /// and texturing off; `None` unless the offsets fill the grid and lie in range.
    pub fn from_offsets(offsets: Vec<u32>) -> (r: Option<Self>)
        ensures
            r is Some <==> valid_offsets(offsets@),
            r matches Some(o) ==> {
                &&& o.offsets() == offsets@
                &&& o.time_spec() == 0
                &&& !o.morph_spec()
                &&& !o.texture_on_spec()
                &&& o.texture_spec() == 0
            },
    {
        if offsets.len() != WATER_CELLS {
            return None;
        }
        let mut k: usize = 0;
        while k < offsets.len()
            invariant
                0 <= k <= offsets@.len(),
                forall|j: int| 0 <= j < k ==> #[trigger] offsets@[j] < OFFSET_RANGE,
            decreases offsets@.len() - k,
        {
            if offsets[k] >= OFFSET_RANGE {
                return None;
            }
            k = k + 1;
        }
        Some(Ocean { display_list: 0, offsets, time: 0, texture: 0, morph_on: false, texture_on: false })
    }

    /// An ocean over phase offsets drawn at random, one per vertex, as `from_offsets`
    /// builds it.
    pub fn new() -> (o: Self)
        ensures
            valid_offsets(o.offsets()),
            o.time_spec() == 0,
            !o.morph_spec(),
            !o.texture_on_spec(),
            o.texture_spec() == 0,
    {
        let mut offsets: Vec<u32> = Vec::new();
        while offsets.len() < WATER_CELLS
            invariant
                offsets@.len() <= WATER_CELLS,
                forall|j: int| 0 <= j < offsets@.len() ==> #[trigger] offsets@[j] < OFFSET_RANGE,
            decreases WATER_CELLS - offsets@.len(),
        {
            offsets.push(random_below(OFFSET_RANGE));
        }
        Ocean::from_offsets(offsets).unwrap()
    }

    /// Advances the waves by `time_diff` microseconds; the clock stops at its largest
    /// value.
    pub fn animate(&mut self, time_diff: u64)
        ensures
            final(self).time_spec() == clock_after(old(self).time_spec(), time_diff),
            final(self).offsets() == old(self).offsets(),
            final(self).morph_spec() == old(self).morph_spec(),
            final(self).texture_on_spec() == old(self).texture_on_spec(),
            final(self).texture_spec() == old(self).texture_spec(),
            *final(self) == old(self).advanced(time_diff),
    {
        proof {
            use_type_invariant(&*self);
        }
        if self.time > u64::MAX - time_diff {
            self.time = u64::MAX;
        } else {
            self.time = self.time + time_diff;
        }
    }

    /// Switches the small circular wobble of the texture coordinates on or off.
    pub fn toggle_morph(&mut self)
        ensures
            final(self).morph_spec() == !old(self).morph_spec(),
            final(self).texture_on_spec() == old(self).texture_on_spec(),
            final(self).time_spec() == old(self).time_spec(),
            final(self).offsets() == old(self).offsets(),
            final(self).texture_spec() == old(self).texture_spec(),
    {
        proof {
            use_type_invariant(&*self);
        }
        self.morph_on = !self.morph_on;
    }

    /// Switches texturing on or off.
    pub fn toggle_texture(&mut self)
        ensures
            final(self).texture_on_spec() == !old(self).texture_on_spec(),
            final(self).morph_spec() == old(self).morph_spec(),
            final(self).time_spec() == old(self).time_spec(),
            final(self).offsets() == old(self).offsets(),
            final(self).texture_spec() == old(self).texture_spec(),
    {
        proof {
            use_type_invariant(&*self);
        }
        self.texture_on = !self.texture_on;
    }

    /// Microseconds of animation so far.
    pub fn time(&self) -> (r: u64)
        ensures
            r == self.time_spec(),
    {
        self.time
    }

    /// Whether the texture coordinates wobble.
    pub fn morph_on(&self) -> (r: bool)
        ensures
            r == self.morph_spec(),
    {
        self.morph_on
    }

    /// Whether the surface is textured.
    pub fn texture_on(&self) -> (r: bool)
        ensures
            r == self.texture_on_spec(),
    {
        self.texture_on
    }

    /// The handle of the texture bound while drawing (0 before one is loaded).
    pub fn texture(&self) -> (r: u32)
        ensures
            r == self.texture_spec(),
    {
        self.texture
    }

    /// Records the handle of the texture loaded for this ocean.
    pub fn set_texture(&mut self, texture: u32)
        ensures
            final(self).texture_spec() == texture,
            final(self).texture_on_spec() == old(self).texture_on_spec(),
            final(self).morph_spec() == old(self).morph_spec(),
            final(self).time_spec() == old(self).time_spec(),
            final(self).offsets() == old(self).offsets(),
    {
        proof {
            use_type_invariant(&*self);
        }
        self.texture = texture;
    }

    /// The corner at `row`, `col` as it stands now.
    fn corner(&self, row: usize, col: usize) -> (r: WaveCorner)
        requires
            row < WATER_SIZE,
            col < WATER_SIZE,
        ensures
            r == self.corner_at(row as int, col as int),
    {
        WaveCorner { row: row as u32, col: col as u32, phase: self.phase(row, col) }
    }

    /// Every quad of the grid as it stands now, row by row and, within a row, column by
    /// column: `(WATER_SIZE - 1)²` of them, each corner carrying its own phase.
    pub fn quads(&self) -> (r: Vec<Quad<WaveCorner>>)
        ensures
            r@.len() == (WATER_SIZE - 1) * (WATER_SIZE - 1),
            forall|row: int, col: int|
                0 <= row < WATER_SIZE - 1 && 0 <= col < WATER_SIZE - 1
                    ==> #[trigger] r@[row * (WATER_SIZE - 1) + col] == self.quad_at(row, col),
    {
        let side: usize = WATER_SIZE - 1;
        let mut r: Vec<Quad<WaveCorner>> = Vec::new();
        for row in 0..side
            invariant
                side == WATER_SIZE - 1,
                r@.len() == row * side,
                forall|row2: int, col2: int|
                    0 <= row2 < row && 0 <= col2 < side
                        ==> #[trigger] r@[row2 * side + col2] == self.quad_at(row2, col2),
        {
            for col in 0..side
                invariant
                    side == WATER_SIZE - 1,
                    row < side,
                    r@.len() == row * side + col,
                    forall|row2: int, col2: int|
                        0 <= row2 < row && 0 <= col2 < side
                            ==> #[trigger] r@[row2 * side + col2] == self.quad_at(row2, col2),
                    forall|col2: int| 0 <= col2 < col ==> #[trigger] r@[row * side + col2] == self.quad_at(row as int, col2),
            {
                let ghost before = r@;
                let q = Quad {
                    a: self.corner(row, col),
                    b: self.corner(row, col + 1),
                    c: self.corner(row + 1, col + 1),
                    d: self.corner(row + 1, col),
                };
                r.push(q);
                assert forall|row2: int, col2: int|
                    0 <= row2 < row && 0 <= col2 < side implies #[trigger] r@[row2 * side + col2] == self.quad_at(row2, col2) by {
                    assert(row2 * side + col2 < row * side) by (nonlinear_arith)
                        requires
                            0 <= row2 < row,
                            0 <= col2 < side,
                    ;
                    assert(r@[row2 * side + col2] == before[row2 * side + col2]);
                }
            }
            assert forall|row2: int, col2: int|
                0 <= row2 < row + 1 && 0 <= col2 < side implies #[trigger] r@[row2 * side + col2] == self.quad_at(row2, col2) by {
                if row2 == row {
                    assert(r@[row * side + col2] == self.quad_at(row as int, col2));
                }
            }
            assert(r@.len() == (row + 1) * side) by (nonlinear_arith)
                requires
                    r@.len() == row * side + side,
            ;
        }
        r
    }

    /// The wave phase, in milliradians, at `row`, `col` now.
    pub fn phase(&self, row: usize, col: usize) -> (r: u64)
        requires
            row < WATER_SIZE,
            col < WATER_SIZE,
        ensures
            r == self.phase_at(row as int, col as int),
    {
        proof {
            use_type_invariant(self);
        }
        self.time / MICROS_PER_MILLIRAD + self.offsets[row * WATER_SIZE + col] as u64
    }
}

impl SceneItem for Ocean {
    /// The same ocean with its clock advanced.
    closed spec fn advanced(&self, elapsed: u64) -> Self {
        Ocean { time: clock_after(self.time, elapsed), ..*self }
    }

    fn anim(&mut self, elapsed: u64) {
        self.animate(elapsed);
    }
}

} // verus!
