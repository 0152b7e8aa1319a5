//! The grid itself: a fixed-size rectangular array of cells stored in
//! row-major order, with bounds-checked position-to-index mapping.

use vstd::prelude::*;

verus! {

/// A coordinate pair `(x, y)` identifying one cell of a grid.
#[derive(Clone, Copy, Debug, PartialEq, Eq, Hash, Structural)]
pub struct CellPos(pub i32, pub i32);

/// The passability state of one grid slot.
#[derive(Clone, Copy, Debug, PartialEq, Eq, Structural)]
pub struct Cell {
    pub is_wall: bool,
}

/// The error returned by every accessor when a position lies outside the
/// grid's valid rectangle; it carries the offending position.
#[derive(Clone, Copy, Debug, PartialEq, Eq, Structural)]
pub struct OutOfBounds {
    pub cell_pos: CellPos,
}

/// A rectangular board of `width * height` cells, indexed row-major by
/// `width * y + x`. The dimensions are fixed at construction.
#[derive(Debug)]
pub struct Grid {
    width: u32,
    height: u32,
    cells: Vec<Cell>,
}

impl Grid {
    /// The grid's width, as seen by specifications.
    pub closed spec fn spec_width(self) -> u32 {
        self.width
    }

    /// The grid's height, as seen by specifications.
    pub closed spec fn spec_height(self) -> u32 {
        self.height
    }

    /// The mathematical model of the storage: the wall state of every slot,
    /// in row-major order.
    pub closed spec fn walls(self) -> Seq<bool> {
        self.cells@.map(|_k: int, c: Cell| c.is_wall)
    }

    /// Well-formedness: exactly one slot per valid position.
    pub open spec fn wf(self) -> bool {
        self.walls().len() == self.spec_width() as int * self.spec_height() as int
    }

    /// Whether `p` lies inside the valid rectangle.
    pub open spec fn contains_spec(self, p: CellPos) -> bool {
        0 <= p.0 < self.spec_width() as int && 0 <= p.1 < self.spec_height() as int
    }

    /// The row-major slot index of a position.
    pub open spec fn index_of(self, p: CellPos) -> int {
        self.spec_width() as int * p.1 as int + p.0 as int
    }

    /// The wall state stored at a position.
    pub open spec fn wall_at(self, p: CellPos) -> bool {
        self.walls()[self.index_of(p)]
    }
}

/// The relation between a grid before and after one cell write: the
/// dimensions are kept and exactly the slot of `p` now holds `b`.
pub open spec fn sets_wall(pre: Grid, post: Grid, p: CellPos, b: bool) -> bool {
    &&& post.spec_width() == pre.spec_width()
    &&& post.spec_height() == pre.spec_height()
    &&& post.walls() == pre.walls().update(pre.index_of(p), b)
}

/// Every valid position maps to a slot index inside the storage:
/// `0 <= width * y + x < width * height`.
pub proof fn lemma_index_in_range(g: Grid, p: CellPos)
    requires
        g.contains_spec(p),
    ensures
        0 <= g.index_of(p) < g.spec_width() as int * g.spec_height() as int,
{
    let w: int = g.spec_width() as int;
    let h: int = g.spec_height() as int;
    let x: int = p.0 as int;
    let y: int = p.1 as int;
    assert(0 <= w * y + x < w * h) by (nonlinear_arith)
        requires
            0 <= x && x < w,
            0 <= y && y < h,
    ;
}

/// The position-to-index mapping is injective over the valid rectangle: two
/// valid positions with the same index are the same position.
pub proof fn lemma_index_injective(g: Grid, p: CellPos, q: CellPos)
    requires
        g.contains_spec(p),
        g.contains_spec(q),
        g.index_of(p) == g.index_of(q),
    ensures
        p == q,
{
    let w: int = g.spec_width() as int;
    let px: int = p.0 as int;
    let py: int = p.1 as int;
    let qx: int = q.0 as int;
    let qy: int = q.1 as int;
    assert(px == qx && py == qy) by (nonlinear_arith)
        requires
            0 <= px && px < w,
            0 <= qx && qx < w,
            w * py + px == w * qy + qx,
    ;
}

impl Grid {
    /// Builds a `width * height` grid with every cell passable. A zero
    /// dimension yields a valid empty grid. The product must fit the
    /// machine's word so the storage can be allocated.
    pub fn new(width: u32, height: u32) -> (g: Grid)
        requires
            width as int * height as int <= usize::MAX as int,
        ensures
            g.wf(),
            g.spec_width() == width,
            g.spec_height() == height,
            g.walls() == Seq::new((width as nat) * (height as nat), |k: int| false),
            forall|p: CellPos| g.contains_spec(p) ==> !(#[trigger] g.wall_at(p)),
    {
        proof {
            assert(0 <= width as int * height as int) by (nonlinear_arith);
        }
        let count: usize = (width as usize) * (height as usize);
        let mut cells: Vec<Cell> = Vec::new();
        let mut k: usize = 0;
        while k < count
            invariant
                k <= count,
                cells@.len() == k as int,
                forall|i: int| 0 <= i < k as int ==> !(#[trigger] cells@[i].is_wall),
            decreases count - k,
        {
            cells.push(Cell { is_wall: false });
            k = k + 1;
        }
        let g = Grid { width, height, cells };
        proof {
            assert(g.walls() =~= Seq::new((width as nat) * (height as nat), |k: int| false));
            assert forall|p: CellPos| g.contains_spec(p) implies !(#[trigger] g.wall_at(p)) by {
                lemma_index_in_range(g, p);
            }
        }
        g
    }

    /// The grid's width.
    pub fn width(&self) -> (w: u32)
        ensures
            w == self.spec_width(),
    {
        self.width
    }

    /// The grid's height.
    pub fn height(&self) -> (h: u32)
        ensures
            h == self.spec_height(),
    {
        self.height
    }

    /// True exactly when `0 <= x < width` and `0 <= y < height`.
    pub fn contains_pos(&self, cell_pos: CellPos) -> (r: bool)
        ensures
            r == self.contains_spec(cell_pos),
    {
        let CellPos(x, y) = cell_pos;
        x >= 0 && (x as u32) < self.width && y >= 0 && (y as u32) < self.height
    }

    /// Maps a position to its row-major slot index, or reports it out of
    /// bounds.
    pub fn cell_pos_to_index(&self, cell_pos: CellPos) -> (r: Result<usize, OutOfBounds>)
        requires
            self.wf(),
        ensures
            r is Ok <==> self.contains_spec(cell_pos),
            r is Ok ==> r->Ok_0 == self.index_of(cell_pos) && r->Ok_0 < self.walls().len(),
            r is Err ==> r->Err_0 == (OutOfBounds { cell_pos }),
    {
        if !self.contains_pos(cell_pos) {
            return Err(OutOfBounds { cell_pos });
        }
        proof {
            lemma_index_in_range(*self, cell_pos);
            vstd::std_specs::vec::axiom_spec_len(&self.cells);
            assert(self.walls().len() == self.cells@.len());
            assert(self.cells@.len() <= usize::MAX as int);
        }
        let CellPos(x, y) = cell_pos;
        Ok((self.width as usize) * (y as usize) + (x as usize))
    }

    /// Returns a copy of the cell at `cell_pos`, or reports it out of
    /// bounds.
    pub fn cell(&self, cell_pos: CellPos) -> (r: Result<Cell, OutOfBounds>)
        requires
            self.wf(),
        ensures
            r is Ok <==> self.contains_spec(cell_pos),
            r is Ok ==> r->Ok_0 == (Cell { is_wall: self.wall_at(cell_pos) }),
            r is Err ==> r->Err_0 == (OutOfBounds { cell_pos }),
    {
        let index = match self.cell_pos_to_index(cell_pos) {
            Ok(i) => i,
            Err(e) => {
                return Err(e);
            },
        };
        Ok(self.cells[index])
    }

    /// Replaces the cell at `cell_pos` with `cell`, or reports the position
    /// out of bounds without changing anything.
    pub fn set_cell(&mut self, cell_pos: CellPos, cell: Cell) -> (r: Result<(), OutOfBounds>)
        requires
            old(self).wf(),
        ensures
            final(self).wf(),
            r is Ok <==> old(self).contains_spec(cell_pos),
            r is Ok ==> sets_wall(*old(self), *final(self), cell_pos, cell.is_wall),
            r is Err ==> r->Err_0 == (OutOfBounds { cell_pos }) && *final(self) == *old(self),
    {
        let index = match self.cell_pos_to_index(cell_pos) {
            Ok(i) => i,
            Err(e) => {
                return Err(e);
            },
        };
        self.cells[index] = cell;
        proof {
            assert(self.walls() =~= old(self).walls().update(
                old(self).index_of(cell_pos),
                cell.is_wall,
            ));
        }
        Ok(())
    }

    /// The pair that the position scan yields at step `k`: the position
    /// `(k / height, k % height)` and its current cell.
    pub open spec fn scan_entry(self, k: int) -> (CellPos, Cell) {
        let h: int = self.spec_height() as int;
        let p = CellPos((k / h) as i32, (k % h) as i32);
        (p, Cell { is_wall: self.wall_at(p) })
    }

    /// Lists every valid position paired with its current cell, with the
    /// outer loop over `x` and the inner loop over `y`: step `x * height + y`
    /// yields position `(x, y)`. The coordinate bounds are forced by the
    /// positions' machine representation.
    pub fn iter_cell_pos(&self) -> (r: Vec<(CellPos, Cell)>)
        requires
            self.wf(),
            self.spec_width() as int <= i32::MAX as int,
            self.spec_height() as int <= i32::MAX as int,
        ensures
            r@.len() == self.spec_width() as int * self.spec_height() as int,
            forall|k: int| 0 <= k < r@.len() ==> #[trigger] r@[k] == self.scan_entry(k),
            forall|k: int| 0 <= k < r@.len() ==> self.contains_spec(#[trigger] r@[k].0),
            forall|k1: int, k2: int|
                0 <= k1 < r@.len() && 0 <= k2 < r@.len() && k1 != k2 ==> (#[trigger] r@[k1].0)
                    != (#[trigger] r@[k2].0),
    {
        let ghost w: int = self.spec_width() as int;
        let ghost h: int = self.spec_height() as int;
        let mut out: Vec<(CellPos, Cell)> = Vec::new();
        let mut x: u32 = 0;
        while x < self.width
            invariant
                self.wf(),
                w == self.spec_width() as int,
                h == self.spec_height() as int,
                w <= i32::MAX as int,
                h <= i32::MAX as int,
                x as int <= w,
                out@.len() == x as int * h,
                forall|k: int| 0 <= k < out@.len() ==> #[trigger] out@[k] == self.scan_entry(k),
            decreases w - x as int,
        {
            let mut y: u32 = 0;
            proof {
                assert(x as int * h + h == (x as int + 1) * h) by (nonlinear_arith);
                assert(x as int * h + h <= w * h) by (nonlinear_arith)
                    requires
                        x as int + 1 <= w,
                        h >= 0,
                ;
            }
            while y < self.height
                invariant
                    self.wf(),
                    w == self.spec_width() as int,
                    h == self.spec_height() as int,
                    w <= i32::MAX as int,
                    h <= i32::MAX as int,
                    (x as int) < w,
                    y as int <= h,
                    out@.len() == x as int * h + y as int,
                    forall|k: int| 0 <= k < out@.len() ==> #[trigger] out@[k] == self.scan_entry(k),
                decreases h - y as int,
            {
                let cell_pos = CellPos(x as i32, y as i32);
                proof {
                    vstd::arithmetic::div_mod::lemma_fundamental_div_mod_converse(
                        x as int * h + y as int,
                        h,
                        x as int,
                        y as int,
                    );
                    assert(self.scan_entry(out@.len() as int) == (
                        cell_pos,
                        Cell { is_wall: self.wall_at(cell_pos) },
                    ));
                }
                let c = match self.cell(cell_pos) {
                    Ok(c) => c,
                    Err(_) => unreached(),
                };
                out.push((cell_pos, c));
                y = y + 1;
            }
            x = x + 1;
        }
        proof {
            assert forall|k: int| 0 <= k < out@.len() implies self.contains_spec(out@[k].0) by {
                lemma_scan_step_decodes(*self, k);
            }
            assert forall|k1: int, k2: int|
                0 <= k1 < out@.len() && 0 <= k2 < out@.len() && k1 != k2 implies (out@[k1].0)
                != (out@[k2].0) by {
                lemma_scan_step_decodes(*self, k1);
                lemma_scan_step_decodes(*self, k2);
                if out@[k1].0 == out@[k2].0 {
                    vstd::arithmetic::div_mod::lemma_fundamental_div_mod(k1, h);
                    vstd::arithmetic::div_mod::lemma_fundamental_div_mod(k2, h);
                }
            }
        }
        out
    }
}

/// Law: writing a cell and then reading the same position yields exactly the
/// value written, while every other valid position keeps its previous state.
pub proof fn lemma_set_cell_round_trip(pre: Grid, post: Grid, p: CellPos, b: bool)
    requires
        pre.wf(),
        pre.contains_spec(p),
        sets_wall(pre, post, p, b),
    ensures
        post.wf(),
        post.wall_at(p) == b,
        forall|q: CellPos|
            post.contains_spec(q) && q != p ==> #[trigger] post.wall_at(q) == pre.wall_at(q),
{
    lemma_index_in_range(pre, p);
    assert forall|q: CellPos| post.contains_spec(q) && q != p implies #[trigger] post.wall_at(q)
        == pre.wall_at(q) by {
        lemma_index_in_range(pre, q);
        if pre.index_of(q) == pre.index_of(p) {
            lemma_index_injective(pre, p, q);
        }
    }
}

/// Law: writing the same value to the same cell twice in a row leaves the
/// grid observably identical to writing it once.
pub proof fn lemma_set_cell_idempotent(pre: Grid, once: Grid, twice: Grid, p: CellPos, b: bool)
    requires
        pre.wf(),
        pre.contains_spec(p),
        sets_wall(pre, once, p, b),
        sets_wall(once, twice, p, b),
    ensures
        twice.spec_width() == once.spec_width(),
        twice.spec_height() == once.spec_height(),
        twice.walls() == once.walls(),
{
    lemma_index_in_range(pre, p);
    assert(twice.walls() =~= once.walls());
}

/// Each step number of the position scan decodes to a valid position:
/// for `0 <= k < width * height`, `k / height` is a valid column and
/// `k % height` a valid row.
pub proof fn lemma_scan_step_decodes(g: Grid, k: int)
    requires
        0 <= k < g.spec_width() as int * g.spec_height() as int,
        g.spec_width() as int <= i32::MAX as int,
        g.spec_height() as int <= i32::MAX as int,
    ensures
        0 < g.spec_height() as int,
        0 <= k / (g.spec_height() as int) < g.spec_width() as int,
        0 <= k % (g.spec_height() as int) < g.spec_height() as int,
        g.contains_spec(g.scan_entry(k).0),
{
    let w: int = g.spec_width() as int;
    let h: int = g.spec_height() as int;
    assert(h > 0) by (nonlinear_arith)
        requires
            0 <= k < w * h,
            h >= 0,
    ;
    vstd::arithmetic::div_mod::lemma_fundamental_div_mod(k, h);
    vstd::arithmetic::div_mod::lemma_mod_pos_bound(k, h);
    let q: int = k / h;
    let r: int = k % h;
    assert(0 <= q < w) by (nonlinear_arith)
        requires
            k == q * h + r,
            0 <= r < h,
            0 <= k < w * h,
    ;
}

} // verus!
