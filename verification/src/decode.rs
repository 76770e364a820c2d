//! Confidence-thresholded decoding of the inference output grid.
//!
//! The network returns a 4-dimensional activation grid of shape
//! [N, C, Gh, Gw]; only batch 0, channel 0 is consulted.  The decoder
//! scans that plane in row-major order for the maximum value; the
//! first maximum wins.  Below the confidence threshold the result is
//! "not found"; otherwise the winning cell is mapped to image
//! coordinates by the cell-center convention, truncated to integers.
//!
//! Confidence values are fixed-point: `CONFIDENCE_ONE` stands for 1.0.
//! The surrounding process converts the engine's activations to this
//! scale before handing the grid over.

use vstd::prelude::*;
use vstd::arithmetic::div_mod::lemma_fundamental_div_mod;
use vstd::arithmetic::mul::lemma_mul_inequality;

verus! {

/// The fixed-point confidence value standing for 1.0.
pub const CONFIDENCE_ONE: i64 = 65536;

/// The fixed confidence threshold, 0.5.
pub const CONFIDENCE_THRESHOLD: i64 = 32768;

/// An activation grid of shape [batch, channels, gh, gw], row-major,
/// confidences in fixed-point units of 1/65536.
pub struct ActivationGrid {
    /// Batch size of the returned tensor.
    pub batch: usize,
    /// Channel count of the returned tensor.
    pub channels: usize,
    /// Height of the decode grid.
    pub gh: usize,
    /// Width of the decode grid.
    pub gw: usize,
    /// The values, row-major over all four dimensions.
    pub vals: Vec<i64>,
}

/// A decoded pose: image-space coordinates of the winning cell.
#[derive(Clone, Copy, Debug, PartialEq, Eq, Structural)]
pub struct PoseEstimate {
    /// Horizontal image coordinate.
    pub x: usize,
    /// Vertical image coordinate.
    pub y: usize,
}

impl ActivationGrid {
    /// The grid holds exactly one value per cell of every batch and
    /// channel, and has at least one batch and one channel, so the
    /// consulted plane exists.
    pub open spec fn well_formed(self) -> bool {
        &&& self.vals@.len() == self.batch * self.channels * (self.gh * self.gw)
        &&& self.batch >= 1
        &&& self.channels >= 1
    }

    /// Number of cells of the decode plane.
    pub open spec fn plane_len(self) -> int {
        self.gh * self.gw
    }

    /// Value of flat cell `k` of the batch-0, channel-0 plane, which
    /// occupies the first `gh * gw` entries.
    pub open spec fn plane_at(self, k: int) -> int {
        self.vals@[k] as int
    }
}

/// Cell `k` is the decode winner: no cell holds a larger value, and
/// every earlier cell holds a strictly smaller one (the first maximum
/// of the row-major scan).
pub open spec fn is_winner(g: ActivationGrid, k: int) -> bool {
    &&& 0 <= k < g.plane_len()
    &&& forall|j: int| 0 <= j < g.plane_len() ==> g.plane_at(j) <= g.plane_at(k)
    &&& forall|j: int| 0 <= j < k ==> g.plane_at(j) < g.plane_at(k)
}

/// Image coordinate of the center of grid column `c`, truncated:
/// (c + 1/2) / gw scaled to the image width.
pub open spec fn cell_center(c: int, cells: int, image_extent: int) -> int {
    (2 * c + 1) * image_extent / (2 * cells)
}

/// What the decoder returns: the cell-center image coordinates of the
/// winning cell if its confidence reaches the threshold, else `None`.
pub open spec fn decode_spec(
    g: ActivationGrid,
    threshold: int,
    image_width: int,
    image_height: int,
) -> Option<PoseEstimate> {
    if exists|k: int| is_winner(g, k) && g.plane_at(k) >= threshold {
        let k = choose|k: int| is_winner(g, k) && g.plane_at(k) >= threshold;
        Some(
            PoseEstimate {
                x: cell_center(k % (g.gw as int), g.gw as int, image_width) as usize,
                y: cell_center(k / (g.gw as int), g.gh as int, image_height) as usize,
            },
        )
    } else {
        None
    }
}

/// The winner of a grid is unique.
pub proof fn lemma_winner_unique(g: ActivationGrid, k1: int, k2: int)
    requires
        is_winner(g, k1),
        is_winner(g, k2),
    ensures
        k1 == k2,
{
    if k1 < k2 {
        assert(g.plane_at(k1) < g.plane_at(k2));
    }
    if k2 < k1 {
        assert(g.plane_at(k2) < g.plane_at(k1));
    }
}

/// A grid that is zero everywhere except one cell at or above the
/// threshold decodes to exactly the cell-center image coordinates of
/// that cell.
pub proof fn lemma_one_hot_decodes(
    g: ActivationGrid,
    k0: int,
    threshold: int,
    image_width: int,
    image_height: int,
)
    requires
        0 <= k0 < g.plane_len(),
        forall|j: int| 0 <= j < g.plane_len() && j != k0 ==> #[trigger] g.plane_at(j) == 0,
        g.plane_at(k0) >= threshold,
        g.plane_at(k0) > 0,
    ensures
        decode_spec(g, threshold, image_width, image_height) == Some(
            PoseEstimate {
                x: cell_center(k0 % (g.gw as int), g.gw as int, image_width) as usize,
                y: cell_center(k0 / (g.gw as int), g.gh as int, image_height) as usize,
            },
        ),
{
    assert(is_winner(g, k0));
    let k = choose|k: int| is_winner(g, k) && g.plane_at(k) >= threshold;
    lemma_winner_unique(g, k, k0);
}

/// An all-zero grid decodes to "not found" for any positive
/// threshold.
pub proof fn lemma_all_zero_not_found(
    g: ActivationGrid,
    threshold: int,
    image_width: int,
    image_height: int,
)
    requires
        forall|j: int| 0 <= j < g.plane_len() ==> #[trigger] g.plane_at(j) == 0,
        threshold > 0,
    ensures
        decode_spec(g, threshold, image_width, image_height) is None,
{
    if exists|k: int| is_winner(g, k) && g.plane_at(k) >= threshold {
        let k = choose|k: int| is_winner(g, k) && g.plane_at(k) >= threshold;
        assert(g.plane_at(k) == 0);
    }
}

/// Decode an activation grid to an image coordinate, or "not found".
///
/// The image dimensions are those negotiated with the capture device;
/// the bounds on them and on the grid are machine limits of the
/// coordinate arithmetic.
pub fn decode_pose(
    grid: &ActivationGrid,
    threshold: i64,
    image_width: usize,
    image_height: usize,
) -> (pose: Option<PoseEstimate>)
    requires
        grid.well_formed(),
        grid.gw <= 0xffff_ffff,
        grid.gh <= 0xffff_ffff,
        image_width <= 0xffff_ffff,
        image_height <= 0xffff_ffff,
    ensures
        pose == decode_spec(*grid, threshold as int, image_width as int, image_height as int),
{
    proof {
        assert(grid.gh as int * grid.gw as int <= grid.vals@.len()) by (nonlinear_arith)
            requires
                grid.batch >= 1,
                grid.channels >= 1,
                grid.gh >= 0,
                grid.gw >= 0,
                grid.vals@.len() == grid.batch * grid.channels * (grid.gh * grid.gw),
        ;
    }
    if grid.gh == 0 || grid.gw == 0 {
        proof {
            assert(grid.gh as int * grid.gw as int == 0) by (nonlinear_arith)
                requires
                    grid.gh == 0 || grid.gw == 0,
            ;
        }
        return None;
    }
    proof {
        assert(grid.gh as int * grid.gw as int >= 1) by (nonlinear_arith)
            requires
                grid.gh >= 1,
                grid.gw >= 1,
        ;
    }
    let total: usize = grid.vals.len();
    proof {
        assert(grid.gh as int * grid.gw as int <= total as int);
    }
    let plane: usize = grid.gh * grid.gw;
    let mut best_k: usize = 0;
    let mut best_v: i64 = grid.vals[0];
    let mut k: usize = 1;
    while k < plane
        invariant
            grid.well_formed(),
            plane == grid.plane_len(),
            plane <= grid.vals@.len(),
            1 <= k <= plane,
            best_k < k,
            best_v == grid.plane_at(best_k as int),
            forall|j: int| 0 <= j < k ==> grid.plane_at(j) <= best_v,
            forall|j: int| 0 <= j < best_k ==> grid.plane_at(j) < best_v,
        decreases plane - k,
    {
        let v = grid.vals[k];
        if v > best_v {
            best_k = k;
            best_v = v;
        }
        k = k + 1;
    }
    if best_v < threshold {
        proof {
            if exists|j: int| is_winner(*grid, j) && grid.plane_at(j) >= threshold {
                let j = choose|j: int| is_winner(*grid, j) && grid.plane_at(j) >= threshold;
                assert(grid.plane_at(j) <= best_v);
            }
        }
        return None;
    }
    proof {
        assert(is_winner(*grid, best_k as int));
        let j = choose|j: int| is_winner(*grid, j) && grid.plane_at(j) >= threshold;
        lemma_winner_unique(*grid, j, best_k as int);
    }
    let col: usize = best_k % grid.gw;
    let row: usize = best_k / grid.gw;
    proof {
        vstd::arithmetic::div_mod::lemma_mod_division_less_than_divisor(
            best_k as int,
            grid.gw as int,
        );
        lemma_fundamental_div_mod(best_k as int, grid.gw as int);
        assert(row < grid.gh) by (nonlinear_arith)
            requires
                best_k < grid.gh as int * grid.gw as int,
                grid.gw >= 1,
                row == best_k as int / grid.gw as int,
                best_k as int == grid.gw as int * (row as int) + best_k as int % grid.gw as int,
                best_k as int % grid.gw as int >= 0,
        ;
    }
    let x = cell_coordinate(col, grid.gw, image_width);
    let y = cell_coordinate(row, grid.gh, image_height);
    Some(PoseEstimate { x, y })
}

/// Map a winning cell index to an image coordinate by the cell-center
/// convention.
fn cell_coordinate(c: usize, cells: usize, image_extent: usize) -> (r: usize)
    requires
        c < cells,
        cells <= 0xffff_ffff,
        image_extent <= 0xffff_ffff,
    ensures
        r == cell_center(c as int, cells as int, image_extent as int),
        r <= image_extent,
{
    proof {
        assert((2 * (c as int) + 1) * (image_extent as int) <= 0x1_ffff_ffff_ffff_fffeint
            * 0xffff_ffff) by (nonlinear_arith)
            requires
                0 <= c < cells,
                cells <= 0xffff_ffff,
                0 <= image_extent <= 0xffff_ffff,
        ;
    }
    let num: u128 = (2 * (c as u128) + 1) * (image_extent as u128);
    let den: u128 = 2 * (cells as u128);
    proof {
        lemma_mul_inequality(
            2 * (c as int) + 1,
            2 * (cells as int),
            image_extent as int,
        );
        vstd::arithmetic::mul::lemma_mul_is_commutative(2 * (c as int) + 1, image_extent as int);
        vstd::arithmetic::mul::lemma_mul_is_commutative(2 * (cells as int), image_extent as int);
        vstd::arithmetic::div_mod::lemma_div_is_ordered(
            num as int,
            2 * (cells as int) * (image_extent as int),
            den as int,
        );
        vstd::arithmetic::div_mod::lemma_div_by_multiple(image_extent as int, den as int);
        vstd::arithmetic::mul::lemma_mul_is_commutative(image_extent as int, den as int);
    }
    (num / den) as usize
}

} // verus!
