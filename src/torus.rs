use vstd::arithmetic::div_mod::{lemma_fundamental_div_mod, lemma_fundamental_div_mod_converse};
use vstd::prelude::*;

use crate::demo::SceneItem;
use crate::mesh::Quad;

verus! {

/// A corner of a torus quad: the step around the ring and the step around the tube.
/// Step `k` of `n` stands at the angle `k * 2π / n`.
#[derive(Clone, Copy, Debug, PartialEq, Eq, Structural)]
pub struct RingCorner {
    pub major: u32,
    pub minor: u32,
}

/// A torus around the vertical axis. Lengths are in thousandths of a scene unit.
#[derive(Clone, Copy, Debug, PartialEq, Eq, Structural)]
pub struct Torus {
    /// Distance from the central axis to the centre of the tube.
    pub major_radius: u32,
    /// Number of steps around the ring.
    pub major_segments: u32,
    /// Radius of the tube.
    pub minor_radius: u32,
    /// Number of steps around the tube.
    pub minor_segments: u32,
}

/// The quad at ring step `a` and tube step `i`: its corners run from the next tube step
/// back to this one, then across to the next ring step and up again.
pub open spec fn torus_quad(a: int, i: int) -> Quad<RingCorner> {
    Quad {
        a: RingCorner { major: a as u32, minor: (i + 1) as u32 },
        b: RingCorner { major: a as u32, minor: i as u32 },
        c: RingCorner { major: (a + 1) as u32, minor: i as u32 },
        d: RingCorner { major: (a + 1) as u32, minor: (i + 1) as u32 },
    }
}

/// The whole surface of a torus in `m` ring steps and `n` tube steps: the quad of ring
/// step `a` and tube step `i` stands at `a * n + i`.
pub open spec fn torus_quads(m: nat, n: nat) -> Seq<Quad<RingCorner>> {
    Seq::new(m * n, |k: int| torus_quad(k / (n as int), k % (n as int)))
}

/// Position `k` of `m * n` splits into a ring step below `m` and a tube step below `n`.
proof fn lemma_split_index(k: int, m: nat, n: nat)
    requires
        0 <= k < m * n,
    ensures
        n > 0,
        0 <= k / (n as int) < m,
        0 <= k % (n as int) < n,
        k == (k / (n as int)) * n + k % (n as int),
{
    if n == 0 {
        assert(m * n == 0) by (nonlinear_arith)
            requires
                n == 0,
        ;
    }
    lemma_fundamental_div_mod(k, n as int);
    let a = k / (n as int);
    let i = k % (n as int);
    assert(0 <= a < m) by (nonlinear_arith)
        requires
            k == n * a + i,
            0 <= i < n,
            0 <= k < m * n,
    ;
    assert(k == a * n + i) by (nonlinear_arith)
        requires
            k == n * a + i,
    ;
}

/// The surface of an `m` by `n` torus has `m * n` quads, and the one at ring step `a`
/// and tube step `i` joins ring steps `a`, `a + 1` with tube steps `i`, `i + 1`.
pub proof fn lemma_torus_quad_count(m: nat, n: nat)
    ensures
        torus_quads(m, n).len() == m * n,
        forall|a: int, i: int|
            0 <= a < m && 0 <= i < n ==> #[trigger] torus_quads(m, n)[a * n + i] == torus_quad(a, i),
{
    assert forall|a: int, i: int|
        0 <= a < m && 0 <= i < n implies #[trigger] torus_quads(m, n)[a * n + i] == torus_quad(a, i) by {
        let k = a * n + i;
        assert(0 <= k < m * n) by (nonlinear_arith)
            requires
                0 <= a < m,
                0 <= i < n,
                k == a * n + i,
        ;
        lemma_fundamental_div_mod_converse(k, n as int, a, i);
    }
}

/// A torus with a single ring step, or a single tube step, is one well-formed ring of
/// quads: one per step of the other count, spanning steps 0 and 1 of the single one.
pub proof fn lemma_single_ring(n: nat)
    ensures
        torus_quads(1, n) == Seq::new(n, |i: int| torus_quad(0, i)),
        torus_quads(n, 1) == Seq::new(n, |a: int| torus_quad(a, 0)),
{
    assert(torus_quads(1, n) =~= Seq::new(n, |i: int| torus_quad(0, i))) by {
        assert forall|i: int| 0 <= i < n implies torus_quads(1, n)[i] == torus_quad(0, i) by {
            lemma_fundamental_div_mod_converse(i, n as int, 0, i);
        }
    }
    assert(torus_quads(n, 1) =~= Seq::new(n, |a: int| torus_quad(a, 0))) by {
        assert forall|a: int| 0 <= a < n implies torus_quads(n, 1)[a] == torus_quad(a, 0) by {
            lemma_fundamental_div_mod_converse(a, 1, a, 0);
        }
    }
}

impl Torus {
    /// A ring of radius 3 with a tube of radius 1, in 16 by 6 steps.
    pub fn new() -> (t: Self)
        ensures
            t.major_radius == 3000,
            t.major_segments == 16,
            t.minor_radius == 1000,
            t.minor_segments == 6,
    {
        Torus { major_radius: 3000, major_segments: 16, minor_radius: 1000, minor_segments: 6 }
    }

    /// Every quad of the surface, ring step by ring step and, within one, tube step by
    /// tube step: `major_segments * minor_segments` of them, none when either count is 0.
    pub fn quads(&self) -> (r: Vec<Quad<RingCorner>>)
        requires
            self.major_segments * self.minor_segments <= usize::MAX,
        ensures
            r@.len() == self.major_segments * self.minor_segments,
            forall|a: int, i: int|
                0 <= a < self.major_segments && 0 <= i < self.minor_segments
                    ==> #[trigger] r@[a * self.minor_segments + i] == torus_quad(a, i),
            r@ == torus_quads(self.major_segments as nat, self.minor_segments as nat),
    {
        let m = self.major_segments;
        let n = self.minor_segments;
        let mut r: Vec<Quad<RingCorner>> = Vec::new();
        for a in 0..m
            invariant
                m == self.major_segments,
                n == self.minor_segments,
                m * n <= usize::MAX,
                r@.len() == a * n,
                forall|a2: int, i2: int|
                    0 <= a2 < a && 0 <= i2 < n ==> #[trigger] r@[a2 * n + i2] == torus_quad(a2, i2),
        {
            assert(a * n + n <= m * n) by (nonlinear_arith)
                requires
                    a < m,
            ;
            for i in 0..n
                invariant
                    m == self.major_segments,
                    n == self.minor_segments,
                    a < m,
                    a * n + n <= usize::MAX,
                    r@.len() == a * n + i,
                    forall|a2: int, i2: int|
                        0 <= a2 < a && 0 <= i2 < n ==> #[trigger] r@[a2 * n + i2] == torus_quad(a2, i2),
                    forall|i2: int| 0 <= i2 < i ==> #[trigger] r@[a * n + i2] == torus_quad(a as int, i2),
            {
                let ghost before = r@;
                r.push(Quad {
                    a: RingCorner { major: a, minor: i + 1 },
                    b: RingCorner { major: a, minor: i },
                    c: RingCorner { major: a + 1, minor: i },
                    d: RingCorner { major: a + 1, minor: i + 1 },
                });
                assert forall|a2: int, i2: int|
                    0 <= a2 < a && 0 <= i2 < n implies #[trigger] r@[a2 * n + i2] == torus_quad(a2, i2) by {
                    assert(a2 * n + i2 < a * n) by (nonlinear_arith)
                        requires
                            0 <= a2 < a,
                            0 <= i2 < n,
                    ;
                    assert(r@[a2 * n + i2] == before[a2 * n + i2]);
                }
            }
            assert forall|a2: int, i2: int|
                0 <= a2 < a + 1 && 0 <= i2 < n implies #[trigger] r@[a2 * n + i2] == torus_quad(a2, i2) by {
                if a2 == a {
                    assert(r@[a * n + i2] == torus_quad(a as int, i2));
                }
            }
            assert(r@.len() == (a + 1) * n) by (nonlinear_arith)
                requires
                    r@.len() == a * n + n,
            ;
        }
        assert forall|k: int| 0 <= k < r@.len() implies r@[k] == torus_quads(m as nat, n as nat)[k] by {
            lemma_split_index(k, m as nat, n as nat);
            let a = k / (n as int);
            let i = k % (n as int);
            assert(r@[a * n + i] == torus_quad(a, i));
        }
        assert(r@ =~= torus_quads(m as nat, n as nat));
        r
    }
}

impl SceneItem for Torus {
    /// A torus does not move.
    open spec fn advanced(&self, elapsed: u64) -> Self {
        *self
    }

    fn anim(&mut self, elapsed: u64) {
    }
}

} // verus!
