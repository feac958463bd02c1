//! The quadratic B-spline transfer kernel: the 3×3 stencil of nodes that a
//! particle exchanges mass and momentum with, and the weight of each.
//!
//! Fractional offsets are fixed-point numbers `n / FRAC_ONE`; the weights come
//! out exactly, as integers over `WEIGHT_ONE` per axis.
use vstd::prelude::*;

use crate::grid::Grid;

verus! {

/// The fixed-point unit of a fractional offset: `n` stands for `n / FRAC_ONE`.
pub const FRAC_ONE: u64 = 16777216;

/// The unit of a one-axis weight: `8 · FRAC_ONE²`.
pub const WEIGHT_ONE: u64 = 2251799813685248;

/// One-axis weight of stencil offset `g` for fractional offset `f = n /
/// FRAC_ONE`, scaled by `WEIGHT_ONE`: `½(1.5 − f)²`, `¾ − (f − 1)²` and
/// `½(f − 0.5)²` for `g = 0, 1, 2`.
pub open spec fn axis_weight(n: int, g: int) -> int {
    let d = FRAC_ONE as int;
    if g == 0 {
        (3 * d - 2 * n) * (3 * d - 2 * n)
    } else if g == 1 {
        6 * d * d - 8 * (n - d) * (n - d)
    } else {
        (2 * n - d) * (2 * n - d)
    }
}

/// A fractional offset in `[0.5, 1.5)`, the range the stencil's lower corner
/// is chosen for.
pub open spec fn frac_in_range(n: int) -> bool {
    FRAC_ONE / 2 <= n < 3 * FRAC_ONE / 2
}

/// A fixed-point grid coordinate whose stencil corner fits an `i32`.
pub open spec fn grid_pos_in_range(g: int) -> bool {
    -POS_LIMIT <= g <= POS_LIMIT
}

/// The largest magnitude of a fixed-point grid coordinate: `2^54`, that is
/// `2^30` cells.
pub const POS_LIMIT: i64 = 18014398509481984;

/// Splits the fixed-point grid coordinate `g` (in units of `1 / FRAC_ONE`
/// cell) into the stencil corner `floor(g / FRAC_ONE − 0.5)` and the offset
/// of `g` from it, which falls in `[0.5, 1.5)` cells.
pub fn split_grid_pos(g: i64) -> (r: (i32, u64))
    requires
        grid_pos_in_range(g as int),
    ensures
        r.0 as int * FRAC_ONE + r.1 == g,
        frac_in_range(r.1 as int),
        r.0 <= i32::MAX - 2,
{
    let d: i64 = FRAC_ONE as i64;
    let lift: i64 = 2147483648;
    // Shift by a whole number of cells so that the division is on a
    // non-negative number.
    let shifted: i64 = g - d / 2 + lift * d;
    assert(shifted >= 0);
    let cells: i64 = shifted / d;
    let rest: i64 = shifted % d;
    assert(cells * d + rest == shifted && 0 <= rest < d) by {
        vstd::arithmetic::div_mod::lemma_fundamental_div_mod(shifted as int, d as int);
    }
    assert(0 <= cells <= 3221225472) by (nonlinear_arith)
        requires
            cells * d + rest == shifted,
            0 <= rest < d,
            0 <= shifted <= POS_LIMIT + lift * d,
            d == FRAC_ONE,
            lift == 2147483648;
    let base: i64 = cells - lift;
    let frac: i64 = rest + d / 2;
    assert(base * d + frac == g) by (nonlinear_arith)
        requires
            base == cells - lift,
            frac == rest + d / 2,
            cells * d + rest == shifted,
            shifted == g - d / 2 + lift * d;
    (base as i32, frac as u64)
}

/// The three one-axis weights of fractional offset `frac`.
pub fn axis_weights(frac: u64) -> (w: [u64; 3])
    requires
        frac_in_range(frac as int),
    ensures
        w@.len() == 3,
        forall|g: int| 0 <= g < 3 ==> w@[g] == axis_weight(frac as int, g),
{
    let d: u64 = FRAC_ONE;
    let a: u64 = 3 * d - 2 * frac;
    let b: u64 = if frac >= d { frac - d } else { d - frac };
    let c: u64 = 2 * frac - d;
    assert(a * a <= 4 * d * d) by (nonlinear_arith)
        requires a <= 2 * d, d == FRAC_ONE;
    assert(b * b <= d * d / 4) by (nonlinear_arith)
        requires b <= d / 2, d == FRAC_ONE;
    assert(c * c <= 4 * d * d) by (nonlinear_arith)
        requires c <= 2 * d, d == FRAC_ONE;
    assert(b * b == (frac - d) * (frac - d)) by (nonlinear_arith)
        requires b == frac - d || b == d - frac;
    let w = [a * a, 6 * d * d - 8 * (b * b), c * c];
    assert(w@[0] == axis_weight(frac as int, 0));
    assert(6 * d * d - 8 * (b * b) == 6 * d * d - 8 * (frac - d) * (frac - d)) by (nonlinear_arith)
        requires b * b == (frac - d) * (frac - d);
    assert(w@[1] == axis_weight(frac as int, 1));
    assert(w@[2] == axis_weight(frac as int, 2));
    w
}

/// The one-axis weights add up to one, whatever the fractional offset.
pub proof fn lemma_axis_partition_of_unity(n: int)
    ensures
        axis_weight(n, 0) + axis_weight(n, 1) + axis_weight(n, 2) == WEIGHT_ONE,
{
    let d = FRAC_ONE as int;
    assert((3 * d - 2 * n) * (3 * d - 2 * n) + (6 * d * d - 8 * (n - d) * (n - d)) + (2 * n - d) * (
    2 * n - d) == 8 * d * d) by (nonlinear_arith);
}

/// One node of a particle's stencil: its offset `(gx, gy)` from the stencil's
/// lower corner, its lattice coordinates and its weight, scaled by
/// `WEIGHT_ONE²`.
#[derive(Clone, Copy)]
pub struct StencilEntry {
    pub gx: usize,
    pub gy: usize,
    pub index_x: i32,
    pub index_y: i32,
    pub weight: u128,
}

/// A particle's position relative to the lattice: the stencil's lower corner
/// `(base_x, base_y)` and the fractional offsets of the particle from it, in
/// units of `1 / FRAC_ONE` of a cell.
pub struct TransferKernel {
    pub base_x: i32,
    pub base_y: i32,
    pub frac_x: u64,
    pub frac_y: u64,
}

/// The sum of the weights of `entries`.
pub open spec fn total_weight(entries: Seq<StencilEntry>) -> int
    decreases entries.len(),
{
    if entries.len() == 0 {
        0
    } else {
        total_weight(entries.drop_last()) + entries.last().weight
    }
}

impl TransferKernel {
    /// Offsets in `[0.5, 1.5)`, and a stencil whose coordinates fit an `i32`.
    pub open spec fn wf(&self) -> bool {
        &&& frac_in_range(self.frac_x as int)
        &&& frac_in_range(self.frac_y as int)
        &&& self.base_x <= i32::MAX - 2
        &&& self.base_y <= i32::MAX - 2
    }

    /// The weight of stencil node `(gx, gy)`, scaled by `WEIGHT_ONE²`.
    pub open spec fn weight(&self, gx: int, gy: int) -> int {
        axis_weight(self.frac_x as int, gx) * axis_weight(self.frac_y as int, gy)
    }

    /// The `k`-th node of the stencil, `k = 3·gx + gy`.
    pub open spec fn candidate(&self, k: int) -> StencilEntry {
        StencilEntry {
            gx: (k / 3) as usize,
            gy: (k % 3) as usize,
            index_x: (self.base_x + k / 3) as i32,
            index_y: (self.base_y + k % 3) as i32,
            weight: self.weight(k / 3, k % 3) as u128,
        }
    }

    /// Whether the `k`-th node of the stencil lies in a lattice of `width`
    /// cells per side.
    pub open spec fn covers(&self, width: int, k: int) -> bool {
        &&& 0 <= self.base_x + k / 3 <= width
        &&& 0 <= self.base_y + k % 3 <= width
    }

    /// The nodes among the first `k` of the stencil that lie in the lattice,
    /// in order.
    pub open spec fn stencil_prefix(&self, width: int, k: nat) -> Seq<StencilEntry>
        decreases k,
    {
        if k == 0 {
            Seq::empty()
        } else if self.covers(width, k - 1) {
            self.stencil_prefix(width, (k - 1) as nat).push(self.candidate(k - 1))
        } else {
            self.stencil_prefix(width, (k - 1) as nat)
        }
    }

    /// The stencil nodes that lie in a lattice of `width` cells per side, in
    /// the order `(0, 0), (0, 1), ..., (2, 2)`; nodes outside are left out.
    pub open spec fn stencil(&self, width: int) -> Seq<StencilEntry> {
        self.stencil_prefix(width, 9)
    }

    /// A kernel with lower corner `(base_x, base_y)` and fractional offsets
    /// `(frac_x, frac_y)`.
    pub fn new(base_x: i32, base_y: i32, frac_x: u64, frac_y: u64) -> (r: TransferKernel)
        requires
            frac_in_range(frac_x as int),
            frac_in_range(frac_y as int),
            base_x <= i32::MAX - 2,
            base_y <= i32::MAX - 2,
        ensures
            r.wf(),
            r == (TransferKernel { base_x, base_y, frac_x, frac_y }),
    {
        TransferKernel { base_x, base_y, frac_x, frac_y }
    }

    /// The kernel of a particle at fixed-point grid coordinates
    /// `(grid_x, grid_y)`, in units of `1 / FRAC_ONE` cell: the stencil's
    /// lower corner is `floor(grid_pos − 0.5)` on each axis, and the offsets
    /// are what is left of the position.
    pub fn at(grid_x: i64, grid_y: i64) -> (r: TransferKernel)
        requires
            grid_pos_in_range(grid_x as int),
            grid_pos_in_range(grid_y as int),
        ensures
            r.wf(),
            r.base_x as int * FRAC_ONE + r.frac_x == grid_x,
            r.base_y as int * FRAC_ONE + r.frac_y == grid_y,
    {
        let (base_x, frac_x) = split_grid_pos(grid_x);
        let (base_y, frac_y) = split_grid_pos(grid_y);
        TransferKernel::new(base_x, base_y, frac_x, frac_y)
    }

    /// The stencil nodes that lie in `grid`, with their weights.
    pub fn entries<S>(&self, grid: &Grid<S>) -> (r: Vec<StencilEntry>)
        requires
            self.wf(),
            grid.wf(),
        ensures
            r@ == self.stencil(grid.width() as int),
    {
        let ghost width = grid.width() as int;
        let wx = axis_weights(self.frac_x);
        let wy = axis_weights(self.frac_y);
        let mut out: Vec<StencilEntry> = Vec::new();
        let mut gx: usize = 0;
        while gx < 3
            invariant
                self.wf(),
                grid.wf(),
                width == grid.width(),
                gx <= 3,
                forall|g: int| 0 <= g < 3 ==> wx@[g] == axis_weight(self.frac_x as int, g),
                forall|g: int| 0 <= g < 3 ==> wy@[g] == axis_weight(self.frac_y as int, g),
                out@ == self.stencil_prefix(width, (3 * gx) as nat),
            decreases 3 - gx,
        {
            let mut gy: usize = 0;
            while gy < 3
                invariant
                    self.wf(),
                    grid.wf(),
                    width == grid.width(),
                    gx < 3,
                    gy <= 3,
                    forall|g: int| 0 <= g < 3 ==> wx@[g] == axis_weight(self.frac_x as int, g),
                    forall|g: int| 0 <= g < 3 ==> wy@[g] == axis_weight(self.frac_y as int, g),
                    out@ == self.stencil_prefix(width, (3 * gx + gy) as nat),
                decreases 3 - gy,
            {
                let ghost k = 3 * gx + gy;
                assert(k / 3 == gx && k % 3 == gy);
                let index_x: i32 = self.base_x + gx as i32;
                let index_y: i32 = self.base_y + gy as i32;
                if grid.inside_grid(index_x, index_y) {
                    let a: u128 = wx[gx] as u128;
                    let b: u128 = wy[gy] as u128;
                    assert(a * b <= u128::MAX) by (nonlinear_arith)
                        requires a <= u64::MAX, b <= u64::MAX;
                    let weight: u128 = a * b;
                    out.push(StencilEntry { gx, gy, index_x, index_y, weight });
                    assert(out@.last() == self.candidate(k));
                }
                gy = gy + 1;
            }
            gx = gx + 1;
        }
        out
    }
}

/// A stencil that lies wholly inside the lattice keeps all nine nodes, and
/// their weights add up to one: no mass is lost in a transfer.
pub proof fn lemma_interior_partition_of_unity(kernel: TransferKernel, width: int)
    requires
        kernel.wf(),
        0 <= kernel.base_x,
        kernel.base_x + 2 <= width,
        0 <= kernel.base_y,
        kernel.base_y + 2 <= width,
    ensures
        kernel.stencil(width).len() == 9,
        total_weight(kernel.stencil(width)) == WEIGHT_ONE as int * WEIGHT_ONE as int,
{
    let s = kernel.stencil(width);
    let ax = |g: int| axis_weight(kernel.frac_x as int, g);
    let ay = |g: int| axis_weight(kernel.frac_y as int, g);
    lemma_axis_partition_of_unity(kernel.frac_x as int);
    lemma_axis_partition_of_unity(kernel.frac_y as int);
    assert forall|g: int| 0 <= g < 3 implies 0 <= #[trigger] ax(g) <= u64::MAX by {
        let n = kernel.frac_x as int;
        let d = FRAC_ONE as int;
        assert(0 <= (n - d) * (n - d) <= d * d / 4) by (nonlinear_arith)
            requires d / 2 <= n < 3 * d / 2, d == FRAC_ONE;
        assert(0 <= (3 * d - 2 * n) * (3 * d - 2 * n) <= 4 * d * d) by (nonlinear_arith)
            requires d / 2 <= n < 3 * d / 2, d == FRAC_ONE;
        assert(0 <= (2 * n - d) * (2 * n - d) <= 4 * d * d) by (nonlinear_arith)
            requires d / 2 <= n < 3 * d / 2, d == FRAC_ONE;
    }
    assert forall|g: int| 0 <= g < 3 implies 0 <= #[trigger] ay(g) <= u64::MAX by {
        let n = kernel.frac_y as int;
        let d = FRAC_ONE as int;
        assert(0 <= (n - d) * (n - d) <= d * d / 4) by (nonlinear_arith)
            requires d / 2 <= n < 3 * d / 2, d == FRAC_ONE;
        assert(0 <= (3 * d - 2 * n) * (3 * d - 2 * n) <= 4 * d * d) by (nonlinear_arith)
            requires d / 2 <= n < 3 * d / 2, d == FRAC_ONE;
        assert(0 <= (2 * n - d) * (2 * n - d) <= 4 * d * d) by (nonlinear_arith)
            requires d / 2 <= n < 3 * d / 2, d == FRAC_ONE;
    }
    assert forall|gx: int, gy: int| 0 <= gx < 3 && 0 <= gy < 3 implies 0 <= #[trigger] kernel.weight(gx, gy)
        <= u128::MAX by {
        let a = ax(gx);
        let b = ay(gy);
        assert(0 <= a * b <= u128::MAX) by (nonlinear_arith)
            requires 0 <= a <= u64::MAX, 0 <= b <= u64::MAX;
    }
    reveal_with_fuel(TransferKernel::stencil_prefix, 10);
    reveal_with_fuel(total_weight, 10);
    assert(s.len() == 9);
    let (x0, x1, x2) = (ax(0), ax(1), ax(2));
    let (y0, y1, y2) = (ay(0), ay(1), ay(2));
    assert(total_weight(s) == x0 * y0 + x0 * y1 + x0 * y2 + x1 * y0 + x1 * y1 + x1 * y2 + x2 * y0 + x2
        * y1 + x2 * y2);
    assert(x0 * y0 + x0 * y1 + x0 * y2 + x1 * y0 + x1 * y1 + x1 * y2 + x2 * y0 + x2 * y1 + x2 * y2 == (x0
        + x1 + x2) * (y0 + y1 + y2)) by (nonlinear_arith);
}

/// The entries of `stencil_prefix(width, k)` stand at their offsets from the
/// corner, in strictly increasing order of `3·gx + gy < k`, and lie in the
/// lattice.
proof fn lemma_stencil_prefix_ordered(kernel: TransferKernel, width: int, k: nat)
    requires
        kernel.wf(),
        k <= 9,
    ensures
        ({
            let s = kernel.stencil_prefix(width, k);
            &&& forall|i: int|
                #![trigger s[i]]
                0 <= i < s.len() ==> {
                    &&& s[i].gx < 3 && s[i].gy < 3
                    &&& 3 * s[i].gx + s[i].gy < k
                    &&& s[i].index_x == kernel.base_x + s[i].gx
                    &&& s[i].index_y == kernel.base_y + s[i].gy
                    &&& 0 <= s[i].index_x <= width
                    &&& 0 <= s[i].index_y <= width
                }
            &&& forall|i: int, j: int|
                #![trigger s[i], s[j]]
                0 <= i < j < s.len() ==> 3 * s[i].gx + s[i].gy < 3 * s[j].gx + s[j].gy
        }),
    decreases k,
{
    if k > 0 {
        lemma_stencil_prefix_ordered(kernel, width, (k - 1) as nat);
        let c = kernel.candidate(k - 1);
        let p = kernel.stencil_prefix(width, (k - 1) as nat);
        assert(3 * ((k - 1) / 3) + (k - 1) % 3 == k - 1);
        if kernel.covers(width, k - 1) {
            let s = p.push(c);
            assert(c.gx == (k - 1) / 3 && c.gy == (k - 1) % 3);
            assert(c.index_x == kernel.base_x + c.gx);
            assert(c.index_y == kernel.base_y + c.gy);
            assert forall|i: int| 0 <= i < s.len() - 1 implies #[trigger] s[i] == p[i] by {}
        }
    }
}

/// Applies a particle's contribution to the nodes of its stencil: each node
/// of `kernel.stencil(width)` gets state `f(state, entry)`, once; the nodes
/// outside the stencil's 3×3 block are left as they were. Stencil nodes that
/// fall off the lattice contribute nothing.
pub fn deposit<S: Copy, F: Fn(S, StencilEntry) -> S>(grid: &mut Grid<S>, kernel: &TransferKernel, f: F)
    requires
        old(grid).wf(),
        kernel.wf(),
        forall|s: S, e: StencilEntry| f.requires((s, e)),
    ensures
        final(grid).wf(),
        final(grid).width() == old(grid).width(),
        forall|i: int|
            #![trigger kernel.stencil(old(grid).width() as int)[i]]
            0 <= i < kernel.stencil(old(grid).width() as int).len() ==> {
                let e = kernel.stencil(old(grid).width() as int)[i];
                f.ensures(
                    (old(grid).node(e.index_x as int, e.index_y as int).state, e),
                    final(grid).node(e.index_x as int, e.index_y as int).state,
                )
            },
        forall|x: int, y: int|
            #![trigger final(grid).node(x, y)]
            final(grid).contains(x, y) && !(kernel.base_x <= x <= kernel.base_x + 2
                && kernel.base_y <= y <= kernel.base_y + 2) ==> final(grid).node(x, y)
                == old(grid).node(x, y),
{
    let ghost before = *grid;
    let ghost width = grid.width() as int;
    let entries = kernel.entries(grid);
    let ghost st = entries@;
    proof {
        lemma_stencil_prefix_ordered(*kernel, width, 9);
    }
    let mut i: usize = 0;
    while i < entries.len()
        invariant
            grid.wf(),
            grid.width() == width,
            before.wf(),
            before.width() == width,
            st == entries@,
            st == kernel.stencil(width),
            0 <= i <= st.len(),
            forall|s: S, e: StencilEntry| f.requires((s, e)),
            forall|j: int|
                #![trigger st[j]]
                0 <= j < st.len() ==> {
                    &&& st[j].gx < 3 && st[j].gy < 3
                    &&& st[j].index_x == kernel.base_x + st[j].gx
                    &&& st[j].index_y == kernel.base_y + st[j].gy
                    &&& 0 <= st[j].index_x <= width
                    &&& 0 <= st[j].index_y <= width
                },
            forall|j: int, l: int|
                #![trigger st[j], st[l]]
                0 <= j < l < st.len() ==> 3 * st[j].gx + st[j].gy < 3 * st[l].gx + st[l].gy,
            forall|j: int|
                #![trigger st[j]]
                0 <= j < i ==> f.ensures(
                    (before.node(st[j].index_x as int, st[j].index_y as int).state, st[j]),
                    grid.node(st[j].index_x as int, st[j].index_y as int).state,
                ),
            forall|j: int|
                #![trigger st[j]]
                i <= j < st.len() ==> grid.node(st[j].index_x as int, st[j].index_y as int)
                    == before.node(st[j].index_x as int, st[j].index_y as int),
            forall|x: int, y: int|
                #![trigger grid.node(x, y)]
                grid.contains(x, y) && !(kernel.base_x <= x <= kernel.base_x + 2 && kernel.base_y <= y
                    <= kernel.base_y + 2) ==> grid.node(x, y) == before.node(x, y),
        decreases st.len() - i,
    {
        let e = entries[i];
        let ghost prev = *grid;
        assert(st[i as int] == e);
        match grid.get_mut(e.index_x, e.index_y) {
            Some(state) => {
                *state = f(*state, e);
            },
            None => {},
        }
        proof {
            assert forall|j: int| 0 <= j < st.len() && j != i implies #[trigger] grid.node(
                st[j].index_x as int,
                st[j].index_y as int,
            ) == prev.node(st[j].index_x as int, st[j].index_y as int) by {
                if j < i {
                    assert(3 * st[j].gx + st[j].gy < 3 * st[i as int].gx + st[i as int].gy);
                } else {
                    assert(3 * st[i as int].gx + st[i as int].gy < 3 * st[j].gx + st[j].gy);
                }
            }
        }
        i = i + 1;
    }
}

/// `chain` steps through the nodes of `stencil` from `init`: each value comes
/// from the one before it by `f`, on the state of the next stencil node.
pub open spec fn folds<S, A, F: Fn(A, S, StencilEntry) -> A>(
    grid: Grid<S>,
    stencil: Seq<StencilEntry>,
    f: F,
    init: A,
    chain: Seq<A>,
) -> bool {
    &&& chain.len() == stencil.len() + 1
    &&& chain[0] == init
    &&& forall|i: int|
        #![trigger chain[i + 1]]
        0 <= i < stencil.len() ==> f.ensures(
            (chain[i], grid.node(stencil[i].index_x as int, stencil[i].index_y as int).state, stencil[i]),
            chain[i + 1],
        )
}

/// Folds `f` over the nodes of the particle's stencil that lie in the
/// lattice, in stencil order, starting from `init`: the read-back half of a
/// transfer.
pub fn gather<S: Copy, A, F: Fn(A, S, StencilEntry) -> A>(
    grid: &Grid<S>,
    kernel: &TransferKernel,
    init: A,
    f: F,
) -> (r: A)
    requires
        grid.wf(),
        kernel.wf(),
        forall|a: A, s: S, e: StencilEntry| f.requires((a, s, e)),
    ensures
        exists|chain: Seq<A>|
            folds(*grid, kernel.stencil(grid.width() as int), f, init, chain) && chain.last() == r,
{
    let ghost width = grid.width() as int;
    let entries = kernel.entries(grid);
    let ghost st = entries@;
    proof {
        lemma_stencil_prefix_ordered(*kernel, width, 9);
    }
    let mut acc = init;
    let ghost mut chain: Seq<A> = seq![init];
    let mut i: usize = 0;
    while i < entries.len()
        invariant
            grid.wf(),
            grid.width() == width,
            st == entries@,
            st == kernel.stencil(width),
            0 <= i <= st.len(),
            forall|a: A, s: S, e: StencilEntry| f.requires((a, s, e)),
            forall|j: int|
                #![trigger st[j]]
                0 <= j < st.len() ==> {
                    &&& 0 <= st[j].index_x <= width
                    &&& 0 <= st[j].index_y <= width
                },
            chain.len() == i + 1,
            chain[0] == init,
            chain.last() == acc,
            forall|j: int|
                #![trigger chain[j + 1]]
                0 <= j < i ==> f.ensures(
                    (chain[j], grid.node(st[j].index_x as int, st[j].index_y as int).state, st[j]),
                    chain[j + 1],
                ),
        decreases st.len() - i,
    {
        let e = entries[i];
        assert(st[i as int] == e);
        match grid.get(e.index_x, e.index_y) {
            Some(node) => {
                let next = f(acc, node.state, e);
                proof {
                    let old_chain = chain;
                    chain = chain.push(next);
                    assert forall|j: int| 0 <= j < i + 1 implies #[trigger] f.ensures(
                        (chain[j], grid.node(st[j].index_x as int, st[j].index_y as int).state, st[j]),
                        chain[j + 1],
                    ) by {
                        if j < i {
                            assert(chain[j] == old_chain[j] && chain[j + 1] == old_chain[j + 1]);
                        }
                    }
                }
                acc = next;
            },
            None => {},
        }
        i = i + 1;
    }
    assert(folds(*grid, st, f, init, chain));
    acc
}

} // verus!
