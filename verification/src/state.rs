//! The shared frame buffer: a depth plane and a glyph plane of fixed size.
//!
//! Depth is the scaled inverse distance of the closest surface written so
//! far (0 meaning "never touched"), and the glyph is the shading character
//! chosen for that surface. The two planes are only ever changed together:
//! `write_cell` either updates both entries of a cell or neither.

use vstd::pervasive::VecAdditionalExecFns;
use vstd::prelude::*;

verus! {

/// Width of the character grid.
pub const SCREEN_W: usize = 80;

/// Height of the character grid.
pub const SCREEN_H: usize = 22;

/// Number of cells in the grid.
pub const BUF_SIZE: usize = 1760;

/// The depth plane of a freshly cleared frame: all zeros.
pub open spec fn blank_depth() -> Seq<i64> {
    Seq::new(BUF_SIZE as nat, |k: int| 0i64)
}

/// The glyph plane of a freshly cleared frame: all blanks.
pub open spec fn blank_glyph() -> Seq<char> {
    Seq::new(BUF_SIZE as nat, |k: int| ' ')
}

/// One depth-tested write: the cell changes, both planes at once, exactly
/// when the new depth beats the stored one (closer surface wins).
pub open spec fn cell_write(
    dz: Seq<i64>,
    dg: Seq<char>,
    o: int,
    d: i64,
    g: char,
) -> (Seq<i64>, Seq<char>) {
    if d > dz[o] {
        (dz.update(o, d), dg.update(o, g))
    } else {
        (dz, dg)
    }
}

/// One rendered frame: a depth plane and a glyph plane of `BUF_SIZE`
/// cells each, row-major over an `SCREEN_W` by `SCREEN_H` grid.
pub struct Buffers {
    pub depth: Vec<i64>,
    pub glyph: Vec<char>,
}

impl Buffers {
    /// Both planes have exactly one entry per grid cell.
    pub open spec fn wf(&self) -> bool {
        self.depth@.len() == BUF_SIZE && self.glyph@.len() == BUF_SIZE
    }

    /// The cleared state every frame starts from.
    pub open spec fn is_blank(&self) -> bool {
        self.depth@ == blank_depth() && self.glyph@ == blank_glyph()
    }

    /// A buffer of `BUF_SIZE` cells, all blank with zero depth.
    pub fn new() -> (r: Buffers)
        ensures
            r.wf(),
            r.is_blank(),
    {
        let mut depth: Vec<i64> = Vec::new();
        let mut glyph: Vec<char> = Vec::new();
        let mut k: usize = 0;
        while k < BUF_SIZE
            invariant
                k <= BUF_SIZE,
                depth@.len() == k,
                glyph@.len() == k,
                forall|i: int| 0 <= i < k ==> depth@[i] == 0i64,
                forall|i: int| 0 <= i < k ==> glyph@[i] == ' ',
            decreases BUF_SIZE - k,
        {
            depth.push(0);
            glyph.push(' ');
            k += 1;
        }
        proof {
            assert(depth@ =~= blank_depth());
            assert(glyph@ =~= blank_glyph());
        }
        Buffers { depth, glyph }
    }

    /// Clear every cell back to zero depth and a blank glyph, in place.
    pub fn reset(&mut self)
        requires
            old(self).wf(),
        ensures
            final(self).wf(),
            final(self).is_blank(),
    {
        let mut k: usize = 0;
        while k < BUF_SIZE
            invariant
                k <= BUF_SIZE,
                self.wf(),
                forall|i: int| 0 <= i < k ==> self.depth@[i] == 0i64,
                forall|i: int| 0 <= i < k ==> self.glyph@[i] == ' ',
            decreases BUF_SIZE - k,
        {
            self.depth.set(k, 0);
            self.glyph.set(k, ' ');
            k += 1;
        }
        proof {
            assert(self.depth@ =~= blank_depth());
            assert(self.glyph@ =~= blank_glyph());
        }
    }

    /// Depth-tested write of one cell: both planes change together when
    /// `d` beats the stored depth, and nothing changes otherwise.
    pub fn write_cell(&mut self, o: usize, d: i64, g: char)
        requires
            old(self).wf(),
            o < BUF_SIZE,
        ensures
            final(self).wf(),
            final(self).depth@ == cell_write(old(self).depth@, old(self).glyph@, o as int, d, g).0,
            final(self).glyph@ == cell_write(old(self).depth@, old(self).glyph@, o as int, d, g).1,
    {
        if d > self.depth[o] {
            self.depth.set(o, d);
            self.glyph.set(o, g);
        }
    }

    /// A copy of the glyph plane, for presentation outside the lock.
    pub fn snapshot(&self) -> (r: Vec<char>)
        requires
            self.wf(),
        ensures
            r@ == self.glyph@,
    {
        let mut out: Vec<char> = Vec::new();
        let mut k: usize = 0;
        while k < BUF_SIZE
            invariant
                k <= BUF_SIZE,
                self.wf(),
                out@ =~= self.glyph@.subrange(0, k as int),
            decreases BUF_SIZE - k,
        {
            out.push(self.glyph[k]);
            k += 1;
        }
        proof {
            assert(out@ =~= self.glyph@);
        }
        out
    }

    /// The stored depth of one cell.
    pub fn depth_at(&self, o: usize) -> (r: i64)
        requires
            self.wf(),
            o < BUF_SIZE,
        ensures
            r == self.depth@[o as int],
    {
        self.depth[o]
    }

    /// The stored glyph of one cell.
    pub fn glyph_at(&self, o: usize) -> (r: char)
        requires
            self.wf(),
            o < BUF_SIZE,
        ensures
            r == self.glyph@[o as int],
    {
        self.glyph[o]
    }
}

/// Clearing a cleared buffer changes nothing: the state after two resets
/// is exactly the state after one, so reset is idempotent.
pub proof fn lemma_reset_idempotent(once: Buffers, twice: Buffers)
    requires
        once.is_blank(),
        twice.is_blank(),
    ensures
        once.depth@ == twice.depth@,
        once.glyph@ == twice.glyph@,
{
}

/// The z-buffer test is order-independent: if one cell receives two
/// writes with depths `d1 < d2`, then whichever order they arrive in,
/// the cell ends up holding `d2` and the glyph written with it.
pub proof fn lemma_depth_test_order_independent(
    dz: Seq<i64>,
    dg: Seq<char>,
    o: int,
    d1: i64,
    g1: char,
    d2: i64,
    g2: char,
)
    requires
        0 <= o < dz.len(),
        dg.len() == dz.len(),
        d1 < d2,
        dz[o] < d2,
    ensures
        ({
            let first = cell_write(dz, dg, o, d1, g1);
            let both = cell_write(first.0, first.1, o, d2, g2);
            both.0[o] == d2 && both.1[o] == g2
        }),
        ({
            let first = cell_write(dz, dg, o, d2, g2);
            let both = cell_write(first.0, first.1, o, d1, g1);
            both.0[o] == d2 && both.1[o] == g2
        }),
{
}

} // verus!
