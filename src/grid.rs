//! The background lattice of nodes and its bounds-checked addressing.
use vstd::prelude::*;

verus! {

/// A lattice point of the grid: the per-step accumulator state `S` and the
/// node's lattice coordinates, which are fixed at creation.
pub struct Node<S> {
    pub state: S,
    pub index_x: usize,
    pub index_y: usize,
}

impl<S> Node<S> {
    /// A node at lattice coordinates `(index_x, index_y)` holding `state`.
    pub fn new(index_x: usize, index_y: usize, state: S) -> (r: Node<S>)
        ensures
            r.state == state,
            r.index_x == index_x,
            r.index_y == index_y,
    {
        Node { state, index_x, index_y }
    }

    /// Replaces the accumulator state, keeping the lattice coordinates.
    pub fn reset(&mut self, state: S)
        ensures
            final(self).state == state,
            final(self).index_x == old(self).index_x,
            final(self).index_y == old(self).index_y,
    {
        self.state = state;
    }
}

/// Whether lattice coordinate `index` lies within two nodes of either edge of
/// a grid of `grid_width` cells: the velocity component along that axis is
/// held at zero there.
pub open spec fn sticky(index: int, grid_width: int) -> bool {
    index < 2 || index > grid_width - 2
}

/// Executable form of `sticky`.
pub fn is_sticky(index: usize, grid_width: usize) -> (r: bool)
    ensures
        r == sticky(index as int, grid_width as int),
{
    index < 2 || grid_width < 2 || index > grid_width - 2
}

impl<S> Node<S> {
    /// Whether the node's x velocity component is held at zero.
    pub fn sticks_x(&self, grid_width: usize) -> (r: bool)
        ensures
            r == sticky(self.index_x as int, grid_width as int),
    {
        is_sticky(self.index_x, grid_width)
    }

    /// Whether the node's y velocity component is held at zero.
    pub fn sticks_y(&self, grid_width: usize) -> (r: bool)
        ensures
            r == sticky(self.index_y as int, grid_width as int),
    {
        is_sticky(self.index_y, grid_width)
    }
}

/// The square lattice of `(grid_width + 1)²` nodes, stored column by column:
/// `nodes[x][y]` is the node at lattice coordinates `(x, y)`.
pub struct Grid<S> {
    nodes: Vec<Vec<Node<S>>>,
    grid_width: usize,
}

impl<S> Grid<S> {
    /// The number of cells per side.
    pub closed spec fn width(&self) -> nat {
        self.grid_width as nat
    }

    /// The node at lattice coordinates `(x, y)`.
    pub closed spec fn node(&self, x: int, y: int) -> Node<S> {
        self.nodes@[x]@[y]
    }

    /// Whether `(x, y)` lies in the lattice index space `[0, width]²`.
    pub open spec fn contains(&self, x: int, y: int) -> bool {
        0 <= x <= self.width() && 0 <= y <= self.width()
    }

    /// Every column holds `width + 1` nodes, and each node carries its own
    /// lattice coordinates.
    pub closed spec fn wf(&self) -> bool {
        &&& self.grid_width < usize::MAX
        &&& self.nodes@.len() == self.grid_width + 1
        &&& forall|x: int|
            #![trigger self.nodes@[x]]
            0 <= x <= self.grid_width ==> self.nodes@[x]@.len() == self.grid_width + 1
        &&& forall|x: int, y: int|
            #![trigger self.nodes@[x]@[y]]
            0 <= x <= self.grid_width && 0 <= y <= self.grid_width ==> {
                &&& self.nodes@[x]@[y].index_x == x
                &&& self.nodes@[x]@[y].index_y == y
            }
    }


    /// `self` is `before` with the state of the node at `(x, y)` replaced by
    /// `state`.
    pub open spec fn updated_at(&self, before: Self, x: int, y: int, state: S) -> bool {
        &&& self.width() == before.width()
        &&& self.node(x, y) == (Node { state, ..before.node(x, y) })
        &&& forall|i: int, j: int|
            #![trigger self.node(i, j)]
            self.contains(i, j) && (i != x || j != y) ==> self.node(i, j) == before.node(i, j)
    }

    /// The number of cells per side.
    pub fn grid_width(&self) -> (r: usize)
        ensures
            r == self.width(),
    {
        self.grid_width
    }

    /// Whether `(index_x, index_y)` addresses a node of the lattice.
    pub fn inside_grid(&self, index_x: i32, index_y: i32) -> (r: bool)
        ensures
            r == self.contains(index_x as int, index_y as int),
    {
        0 <= index_x && (index_x as usize) <= self.grid_width && 0 <= index_y && (index_y as usize)
            <= self.grid_width
    }

    /// The node at `(index_x, index_y)`, or `None` outside the lattice.
    pub fn get(&self, index_x: i32, index_y: i32) -> (r: Option<&Node<S>>)
        requires
            self.wf(),
        ensures
            r is Some <==> self.contains(index_x as int, index_y as int),
            r is Some ==> *r->0 == self.node(index_x as int, index_y as int),
            r is Some ==> r->0.index_x == index_x && r->0.index_y == index_y,
    {
        if self.inside_grid(index_x, index_y) {
            Some(&self.nodes[index_x as usize][index_y as usize])
        } else {
            None
        }
    }

    /// Mutable access to the state of the node at `(x, y)`, which lies in the
    /// lattice.
    fn state_mut(&mut self, x: usize, y: usize) -> (r: &mut S)
        requires
            old(self).wf(),
            old(self).contains(x as int, y as int),
        ensures
            *r == old(self).node(x as int, y as int).state,
            final(self).wf(),
            final(self).updated_at(*old(self), x as int, y as int, *final(r)),
    {
        let column = &mut self.nodes[x];
        let node = &mut column[y];
        &mut node.state
    }

    /// Mutable access to the state of the node at `(index_x, index_y)`, or
    /// `None` outside the lattice. The lattice coordinates stay as they are.
    pub fn get_mut(&mut self, index_x: i32, index_y: i32) -> (r: Option<&mut S>)
        requires
            old(self).wf(),
        ensures
            r is Some <==> old(self).contains(index_x as int, index_y as int),
            match r {
                Some(s) => {
                    &&& *s == old(self).node(index_x as int, index_y as int).state
                    &&& final(self).wf()
                    &&& final(self).updated_at(*old(self), index_x as int, index_y as int, *final(s))
                },
                None => *final(self) == *old(self),
            },
    {
        if self.inside_grid(index_x, index_y) {
            Some(self.state_mut(index_x as usize, index_y as usize))
        } else {
            None
        }
    }
}

impl<S: Copy> Grid<S> {
    /// A lattice of `grid_width` cells per side whose nodes all hold `state`.
    pub fn new(grid_width: usize, state: S) -> (r: Grid<S>)
        requires
            grid_width < usize::MAX,
        ensures
            r.wf(),
            r.width() == grid_width,
            forall|x: int, y: int| #[trigger] r.node(x, y).state == state <== r.contains(x, y),
    {
        let mut nodes: Vec<Vec<Node<S>>> = Vec::new();
        let mut x: usize = 0;
        while x <= grid_width
            invariant
                grid_width < usize::MAX,
                x <= grid_width + 1,
                nodes@.len() == x,
                forall|i: int|
                    #![trigger nodes@[i]]
                    0 <= i < x ==> nodes@[i]@.len() == grid_width + 1,
                forall|i: int, j: int|
                    #![trigger nodes@[i]@[j]]
                    0 <= i < x && 0 <= j <= grid_width ==> {
                        &&& nodes@[i]@[j].state == state
                        &&& nodes@[i]@[j].index_x == i
                        &&& nodes@[i]@[j].index_y == j
                    },
            decreases grid_width + 1 - x,
        {
            let mut column: Vec<Node<S>> = Vec::new();
            let mut y: usize = 0;
            while y <= grid_width
                invariant
                    grid_width < usize::MAX,
                    x <= grid_width,
                    y <= grid_width + 1,
                    column@.len() == y,
                    forall|j: int|
                        #![trigger column@[j]]
                        0 <= j < y ==> {
                            &&& column@[j].state == state
                            &&& column@[j].index_x == x
                            &&& column@[j].index_y == j
                        },
                decreases grid_width + 1 - y,
            {
                column.push(Node::new(x, y, state));
                y = y + 1;
            }
            nodes.push(column);
            x = x + 1;
        }
        Grid { nodes, grid_width }
    }
}

/// A cursor over the lattice in column order: `(0, 0), (0, 1), ..., (0, w),
/// (1, 0), ..., (w, w)` for a grid of width `w`.
pub struct GridMutIterator {
    x_index: usize,
    y_index: usize,
    grid_width: usize,
}

impl GridMutIterator {
    /// The width of the grid the cursor walks.
    pub closed spec fn width(&self) -> nat {
        self.grid_width as nat
    }

    /// The column of the next node; `width + 1` once every node was visited.
    pub closed spec fn x(&self) -> int {
        self.x_index as int
    }

    /// The row of the next node.
    pub closed spec fn y(&self) -> int {
        self.y_index as int
    }

    /// The cursor stands on a node, or just past the last column.
    pub closed spec fn wf(&self) -> bool {
        &&& self.grid_width < usize::MAX
        &&& self.x_index <= self.grid_width + 1
        &&& self.y_index <= self.grid_width
        &&& self.x_index == self.grid_width + 1 ==> self.y_index == 0
    }

    /// Every node has been handed out.
    pub open spec fn done(&self) -> bool {
        self.x() > self.width()
    }

    /// Hands out the lattice coordinates and the state of the node under the
    /// cursor and moves to the next node in column order; `None` once the walk
    /// is over.
    pub fn next<'a, S>(&mut self, grid: &'a mut Grid<S>) -> (r: Option<(usize, usize, &'a mut S)>)
        requires
            old(self).wf(),
            old(grid).wf(),
            old(grid).width() == old(self).width(),
        ensures
            final(self).wf(),
            final(self).width() == old(self).width(),
            r is Some <==> !old(self).done(),
            match r {
                Some((x, y, s)) => {
                    &&& x == old(self).x() && y == old(self).y()
                    &&& *s == old(grid).node(old(self).x(), old(self).y()).state
                    &&& final(grid).wf()
                    &&& final(grid).updated_at(*old(grid), old(self).x(), old(self).y(), *final(s))
                    &&& if old(self).y() < old(self).width() {
                        final(self).x() == old(self).x() && final(self).y() == old(self).y() + 1
                    } else {
                        final(self).x() == old(self).x() + 1 && final(self).y() == 0
                    }
                },
                None => *final(self) == *old(self) && *final(grid) == *old(grid),
            },
    {
        let current_x = self.x_index;
        let current_y = self.y_index;
        if self.x_index > self.grid_width {
            None
        } else {
            if self.y_index < self.grid_width {
                self.y_index = self.y_index + 1;
            } else {
                self.y_index = 0;
                self.x_index = self.x_index + 1;
            }
            Some((current_x, current_y, grid.state_mut(current_x, current_y)))
        }
    }
}

impl<S> Grid<S> {
    /// A cursor on the first node of the lattice.
    pub fn iter_mut(&self) -> (r: GridMutIterator)
        requires
            self.wf(),
        ensures
            r.wf(),
            r.width() == self.width(),
            r.x() == 0,
            r.y() == 0,
    {
        GridMutIterator { x_index: 0, y_index: 0, grid_width: self.grid_width }
    }
}

/// Clears every node of `grid` to `zero`, walking the lattice with its
/// cursor. The lattice coordinates are untouched.
pub fn clear_grid<S: Copy>(grid: &mut Grid<S>, zero: S)
    requires
        old(grid).wf(),
    ensures
        final(grid).wf(),
        final(grid).width() == old(grid).width(),
        forall|x: int, y: int|
            #[trigger] final(grid).node(x, y).state == zero <== final(grid).contains(x, y),
{
    let ghost w = grid.width() as int;
    let mut cursor = grid.iter_mut();
    loop
        invariant
            grid.wf(),
            grid.width() == w,
            cursor.wf(),
            cursor.width() == w,
            forall|x: int, y: int|
                #![trigger grid.node(x, y)]
                grid.contains(x, y) && (x < cursor.x() || (x == cursor.x() && y < cursor.y()))
                    ==> grid.node(x, y).state == zero,
        ensures
            grid.wf(),
            grid.width() == w,
            forall|x: int, y: int| #[trigger] grid.node(x, y).state == zero <== grid.contains(x, y),
        decreases (w + 1 - cursor.x()) * (w + 1) + (w + 1 - cursor.y()),
    {
        let ghost before = *grid;
        let ghost (cx, cy) = (cursor.x(), cursor.y());
        match cursor.next(grid) {
            Some((_, _, state)) => {
                *state = zero;
                proof {
                    assert(grid.node(cx, cy).state == zero);
                    if cy < w {
                        assert((w + 1 - cx) * (w + 1) + (w + 1 - (cy + 1)) < (w + 1 - cx) * (w + 1) + (w + 1 - cy));
                    } else {
                        assert((w + 1 - (cx + 1)) * (w + 1) + (w + 1) < (w + 1 - cx) * (w + 1) + (w + 1 - cy)) by (nonlinear_arith)
                            requires cy == w, cx <= w;
                    }
                }
            },
            None => {
                break;
            },
        }
    }
}

/// Replaces the state of every node by `f(state, sticks_x, sticks_y)`, where
/// the flags tell whether the node lies in the sticky band along x and along
/// y. Each node is visited once, in column order.
pub fn update_nodes<S: Copy, F: Fn(S, bool, bool) -> S>(grid: &mut Grid<S>, f: F)
    requires
        old(grid).wf(),
        forall|s: S, sx: bool, sy: bool| f.requires((s, sx, sy)),
    ensures
        final(grid).wf(),
        final(grid).width() == old(grid).width(),
        forall|x: int, y: int|
            final(grid).contains(x, y) ==> f.ensures(
                (
                    old(grid).node(x, y).state,
                    sticky(x, old(grid).width() as int),
                    sticky(y, old(grid).width() as int),
                ),
                #[trigger] final(grid).node(x, y).state,
            ),
{
    let ghost before = *grid;
    let ghost w = grid.width() as int;
    let width = grid.grid_width();
    let mut cursor = grid.iter_mut();
    loop
        invariant
            grid.wf(),
            grid.width() == w,
            w == before.width(),
            width == w,
            cursor.wf(),
            cursor.width() == w,
            forall|s: S, sx: bool, sy: bool| f.requires((s, sx, sy)),
            forall|x: int, y: int|
                #![trigger grid.node(x, y)]
                grid.contains(x, y) ==> if x < cursor.x() || (x == cursor.x() && y < cursor.y()) {
                    f.ensures((before.node(x, y).state, sticky(x, w), sticky(y, w)), grid.node(x, y).state)
                } else {
                    grid.node(x, y).state == before.node(x, y).state
                },
        ensures
            grid.wf(),
            grid.width() == w,
            forall|x: int, y: int|
                grid.contains(x, y) ==> f.ensures(
                    (before.node(x, y).state, sticky(x, w), sticky(y, w)),
                    #[trigger] grid.node(x, y).state,
                ),
        decreases (w + 1 - cursor.x()) * (w + 1) + (w + 1 - cursor.y()),
    {
        let ghost (cx, cy) = (cursor.x(), cursor.y());
        match cursor.next(grid) {
            Some((x, y, state)) => {
                let sticks_x = is_sticky(x, width);
                let sticks_y = is_sticky(y, width);
                *state = f(*state, sticks_x, sticks_y);
                proof {
                    if cy < w {
                        assert((w + 1 - cx) * (w + 1) + (w + 1 - (cy + 1)) < (w + 1 - cx) * (w + 1) + (w
                            + 1 - cy));
                    } else {
                        assert((w + 1 - (cx + 1)) * (w + 1) + (w + 1) < (w + 1 - cx) * (w + 1) + (w + 1
                            - cy)) by (nonlinear_arith)
                            requires
                                cy == w,
                                cx <= w,
                        ;
                    }
                }
            },
            None => {
                break;
            },
        }
    }
}

/// The nodes on the first and the last column of a grid are sticky along x,
/// and those on the first and the last row sticky along y, whatever the
/// width of the grid.
pub proof fn lemma_edges_stick<S>(grid: Grid<S>, i: int)
    requires
        grid.wf(),
        0 <= i <= grid.width(),
    ensures
        sticky(grid.node(0, i).index_x as int, grid.width() as int),
        sticky(grid.node(grid.width() as int, i).index_x as int, grid.width() as int),
        sticky(grid.node(i, 0).index_y as int, grid.width() as int),
        sticky(grid.node(i, grid.width() as int).index_y as int, grid.width() as int),
{
}

} // verus!
