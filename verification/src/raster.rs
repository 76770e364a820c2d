//! The rasterizer: per-cell nearest-depth resolution over a
//! character-grid frame.
//!
//! Each frame starts from a cleared buffer — every cell's depth at the
//! far sentinel and its glyph blank.  A projected vertex whose integer
//! screen coordinates fall within bounds overwrites a cell's depth and
//! glyph exactly when it is strictly nearer than the value recorded
//! there; nearest wins, and the outcome is independent of submission
//! order.

use vstd::prelude::*;

verus! {

/// The glyph of an empty cell.
pub const BLANK_GLYPH: u8 = 32;

/// The fixed marker glyph written for a vertex.
pub const MARKER_GLYPH: u8 = 35;

/// The depth recorded in an empty cell; stands for +infinity, farther
/// than any representable vertex depth.
pub const DEPTH_FAR: i64 = 0x7fff_ffff_ffff_ffff;

/// A vertex after projection: integer screen cell coordinates and a
/// fixed-point depth.
#[derive(Clone, Copy, Debug, PartialEq, Eq, Structural)]
pub struct ProjectedPoint {
    /// Screen column, origin at the left.
    pub x: i64,
    /// Screen row, origin at the top.
    pub y: i64,
    /// Fixed-point depth after the perspective divide.
    pub depth: i64,
}

/// One frame's parallel depth and glyph buffers, row-major over
/// width × height character cells.
pub struct FrameBuffer {
    /// Width in character cells.
    pub width: usize,
    /// Height in character cells.
    pub height: usize,
    /// Per-cell nearest depth recorded so far.
    pub depth: Vec<i64>,
    /// Per-cell glyph.
    pub glyph: Vec<u8>,
}

/// The buffers after writing one projected point: both updated at the
/// point's cell when it lands in bounds strictly nearer than the
/// recorded depth, both unchanged otherwise.
pub open spec fn plotted(
    width: int,
    height: int,
    depth: Seq<i64>,
    glyph: Seq<u8>,
    p: ProjectedPoint,
) -> (Seq<i64>, Seq<u8>) {
    let idx = p.y * width + p.x;
    if 0 <= p.x < width && 0 <= p.y < height && (p.depth as int) < depth[idx] {
        (depth.update(idx, p.depth), glyph.update(idx, MARKER_GLYPH))
    } else {
        (depth, glyph)
    }
}

/// The buffers after writing a sequence of projected points in order.
pub open spec fn rastered(
    width: int,
    height: int,
    depth: Seq<i64>,
    glyph: Seq<u8>,
    pts: Seq<ProjectedPoint>,
) -> (Seq<i64>, Seq<u8>)
    decreases pts.len(),
{
    if pts.len() == 0 {
        (depth, glyph)
    } else {
        let prev = rastered(width, height, depth, glyph, pts.drop_last());
        plotted(width, height, prev.0, prev.1, pts.last())
    }
}

/// A cell index lies inside the buffer.
pub proof fn lemma_cell_index_in_range(width: int, height: int, x: int, y: int)
    requires
        0 <= x < width,
        0 <= y < height,
    ensures
        0 <= y * width + x < width * height,
{
    assert(0 <= y * width + x < width * height) by (nonlinear_arith)
        requires
            0 <= x < width,
            0 <= y < height,
    ;
}

/// Nearest-wins is order-independent: two vertices landing on the
/// same cell with depths d1 < d2, both nearer than what the cell
/// holds, leave the same buffers whichever is submitted first — the
/// cell records d1 and the marker glyph.
pub proof fn lemma_depth_order_independent(
    width: int,
    height: int,
    depth: Seq<i64>,
    glyph: Seq<u8>,
    p1: ProjectedPoint,
    p2: ProjectedPoint,
)
    requires
        p1.x == p2.x,
        p1.y == p2.y,
        0 <= p1.x < width,
        0 <= p1.y < height,
        depth.len() == width * height,
        glyph.len() == width * height,
        p1.depth < p2.depth,
        (p2.depth as int) < depth[p1.y * width + p1.x],
    ensures
        rastered(width, height, depth, glyph, seq![p1, p2]) == rastered(
            width,
            height,
            depth,
            glyph,
            seq![p2, p1],
        ),
        rastered(width, height, depth, glyph, seq![p1, p2]).0[p1.y * width + p1.x]
            == p1.depth,
        rastered(width, height, depth, glyph, seq![p1, p2]).1[p1.y * width + p1.x]
            == MARKER_GLYPH,
{
    reveal_with_fuel(rastered, 3);
    let idx = p1.y * width + p1.x;
    lemma_cell_index_in_range(width, height, p1.x as int, p1.y as int);
    let a = seq![p1, p2];
    let b = seq![p2, p1];
    assert(a.drop_last() =~= seq![p1]);
    assert(b.drop_last() =~= seq![p2]);
    assert(seq![p1].drop_last() =~= Seq::<ProjectedPoint>::empty());
    assert(seq![p2].drop_last() =~= Seq::<ProjectedPoint>::empty());
    let s1 = plotted(width, height, depth, glyph, p1);
    assert(s1.0 == depth.update(idx, p1.depth));
    assert(s1.1 == glyph.update(idx, MARKER_GLYPH));
    let r1 = rastered(width, height, depth, glyph, a);
    assert(rastered(width, height, depth, glyph, seq![p1]) == s1);
    assert(s1.0[idx] == p1.depth);
    assert(r1 == plotted(width, height, s1.0, s1.1, p2));
    assert(r1 == s1);
    let s2 = plotted(width, height, depth, glyph, p2);
    assert(s2.0 == depth.update(idx, p2.depth));
    let r2 = rastered(width, height, depth, glyph, b);
    assert(rastered(width, height, depth, glyph, seq![p2]) == s2);
    assert(s2.0[idx] == p2.depth);
    assert(r2 == plotted(width, height, s2.0, s2.1, p1));
    assert(r2.0 == s2.0.update(idx, p1.depth));
    assert(r2.1 == s2.1.update(idx, MARKER_GLYPH));
    assert(r1.0 =~= r2.0);
    assert(r1.1 =~= r2.1);
}

impl FrameBuffer {
    /// Both buffers hold exactly one entry per cell.
    pub open spec fn well_formed(self) -> bool {
        &&& self.depth@.len() == self.width * self.height
        &&& self.glyph@.len() == self.width * self.height
    }

    /// Every cell is at the far depth with a blank glyph.
    pub open spec fn cleared(self) -> bool {
        &&& forall|k: int| 0 <= k < self.depth@.len() ==> #[trigger] self.depth@[k] == DEPTH_FAR
        &&& forall|k: int| 0 <= k < self.glyph@.len() ==> #[trigger] self.glyph@[k]
            == BLANK_GLYPH
    }

    /// Allocate a cleared frame buffer of the given dimensions.
    pub fn new(width: usize, height: usize) -> (fb: FrameBuffer)
        requires
            width * height <= usize::MAX,
        ensures
            fb.well_formed(),
            fb.cleared(),
            fb.width == width,
            fb.height == height,
    {
        let cells: usize = width * height;
        let mut depth: Vec<i64> = Vec::new();
        let mut glyph: Vec<u8> = Vec::new();
        let mut k: usize = 0;
        while k < cells
            invariant
                k <= cells,
                depth@.len() == k,
                glyph@.len() == k,
                forall|j: int| 0 <= j < k ==> #[trigger] depth@[j] == DEPTH_FAR,
                forall|j: int| 0 <= j < k ==> #[trigger] glyph@[j] == BLANK_GLYPH,
            decreases cells - k,
        {
            depth.push(DEPTH_FAR);
            glyph.push(BLANK_GLYPH);
            k = k + 1;
        }
        FrameBuffer { width, height, depth, glyph }
    }

    /// Reset every cell to the far depth and the blank glyph, keeping
    /// the dimensions.
    pub fn clear(&mut self)
        requires
            old(self).well_formed(),
        ensures
            final(self).well_formed(),
            final(self).cleared(),
            final(self).width == old(self).width,
            final(self).height == old(self).height,
    {
        let cells: usize = self.depth.len();
        let mut k: usize = 0;
        while k < cells
            invariant
                k <= cells,
                self.depth@.len() == cells,
                self.glyph@.len() == self.depth@.len(),
                self.width == old(self).width,
                self.height == old(self).height,
                self.well_formed(),
                forall|j: int| 0 <= j < k ==> #[trigger] self.depth@[j] == DEPTH_FAR,
                forall|j: int| 0 <= j < k ==> #[trigger] self.glyph@[j] == BLANK_GLYPH,
            decreases cells - k,
        {
            self.depth.set(k, DEPTH_FAR);
            self.glyph.set(k, BLANK_GLYPH);
            k = k + 1;
        }
    }

    /// Write one projected point: overwrite depth and glyph at its
    /// cell exactly when it lands in bounds strictly nearer than the
    /// depth recorded there.
    pub fn plot(&mut self, p: ProjectedPoint)
        requires
            old(self).well_formed(),
        ensures
            final(self).well_formed(),
            final(self).width == old(self).width,
            final(self).height == old(self).height,
            (final(self).depth@, final(self).glyph@) == plotted(
                old(self).width as int,
                old(self).height as int,
                old(self).depth@,
                old(self).glyph@,
                p,
            ),
    {
        if p.x < 0 || p.y < 0 {
            return ;
        }
        if (p.x as u64) >= (self.width as u64) || (p.y as u64) >= (self.height as u64) {
            return ;
        }
        let x = p.x as usize;
        let y = p.y as usize;
        let cells: usize = self.depth.len();
        proof {
            lemma_cell_index_in_range(
                self.width as int,
                self.height as int,
                x as int,
                y as int,
            );
        }
        let idx: usize = y * self.width + x;
        if p.depth < self.depth[idx] {
            self.depth.set(idx, p.depth);
            self.glyph.set(idx, MARKER_GLYPH);
        }
    }

    /// Write a sequence of projected points in order.
    pub fn render_points(&mut self, pts: &Vec<ProjectedPoint>)
        requires
            old(self).well_formed(),
        ensures
            final(self).well_formed(),
            final(self).width == old(self).width,
            final(self).height == old(self).height,
            (final(self).depth@, final(self).glyph@) == rastered(
                old(self).width as int,
                old(self).height as int,
                old(self).depth@,
                old(self).glyph@,
                pts@,
            ),
    {
        let n = pts.len();
        let mut i: usize = 0;
        while i < n
            invariant
                n == pts@.len(),
                i <= n,
                self.well_formed(),
                self.width == old(self).width,
                self.height == old(self).height,
                (self.depth@, self.glyph@) == rastered(
                    old(self).width as int,
                    old(self).height as int,
                    old(self).depth@,
                    old(self).glyph@,
                    pts@.take(i as int),
                ),
            decreases n - i,
        {
            self.plot(pts[i]);
            proof {
                assert(pts@.take(i + 1).drop_last() =~= pts@.take(i as int));
                assert(pts@.take(i + 1).last() == pts@[i as int]);
            }
            i = i + 1;
        }
        proof {
            assert(pts@.take(n as int) =~= pts@);
        }
    }

    /// The glyph recorded at a cell.
    pub fn glyph_at(&self, x: usize, y: usize) -> (g: u8)
        requires
            self.well_formed(),
            x < self.width,
            y < self.height,
        ensures
            g == self.glyph@[y * self.width + x],
    {
        let cells: usize = self.glyph.len();
        proof {
            lemma_cell_index_in_range(self.width as int, self.height as int, x as int, y as int);
        }
        self.glyph[y * self.width + x]
    }

    /// The depth recorded at a cell.
    pub fn depth_at(&self, x: usize, y: usize) -> (d: i64)
        requires
            self.well_formed(),
            x < self.width,
            y < self.height,
        ensures
            d == self.depth@[y * self.width + x],
    {
        let cells: usize = self.depth.len();
        proof {
            lemma_cell_index_in_range(self.width as int, self.height as int, x as int, y as int);
        }
        self.depth[y * self.width + x]
    }

    /// One row of glyphs, for flushing the frame to the output device.
    pub fn glyph_row(&self, y: usize) -> (row: Vec<u8>)
        requires
            self.well_formed(),
            y < self.height,
        ensures
            row@.len() == self.width,
            forall|x: int| 0 <= x < self.width ==> #[trigger] row@[x] == self.glyph@[y
                * self.width + x],
    {
        let mut row: Vec<u8> = Vec::new();
        let mut x: usize = 0;
        while x < self.width
            invariant
                x <= self.width,
                self.well_formed(),
                y < self.height,
                row@.len() == x,
                forall|j: int| 0 <= j < x ==> #[trigger] row@[j] == self.glyph@[y * self.width
                    + j],
            decreases self.width - x,
        {
            let cells: usize = self.glyph.len();
            proof {
                lemma_cell_index_in_range(
                    self.width as int,
                    self.height as int,
                    x as int,
                    y as int,
                );
            }
            row.push(self.glyph[y * self.width + x]);
            x = x + 1;
        }
        row
    }
}

} // verus!
