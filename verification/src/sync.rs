//! The synchronizer: projects grid state onto presentation entities, one
//! of two visual states per cell, either by a full rescan or incrementally
//! from drained change notifications. It mutates presentation state only,
//! never the grid.

use vstd::prelude::*;

use crate::editor::ChangeRecord;
use crate::grid::{Cell, CellPos, Grid, OutOfBounds};

verus! {

/// The two presentation states a cell can map to.
#[derive(Clone, Copy, Debug, PartialEq, Eq, Structural)]
pub enum CellAppearance {
    Floor,
    Wall,
}

/// The presentation state a wall state maps to.
pub open spec fn appearance_of(is_wall: bool) -> CellAppearance {
    if is_wall {
        CellAppearance::Wall
    } else {
        CellAppearance::Floor
    }
}

/// Maps a cell's wall state to its presentation state.
pub fn appearance_for(cell: Cell) -> (r: CellAppearance)
    ensures
        r == appearance_of(cell.is_wall),
{
    if cell.is_wall {
        CellAppearance::Wall
    } else {
        CellAppearance::Floor
    }
}

/// One presentation entity: the grid position it stands for and the
/// visual state it currently shows.
#[derive(Clone, Copy, Debug, PartialEq, Eq, Structural)]
pub struct PresentationCell {
    pub cell_pos: CellPos,
    pub appearance: CellAppearance,
}

/// A read-only handle on a grid for presentation logic: it can query the
/// grid but never mutate it.
pub struct GridView<'a> {
    grid: &'a Grid,
}

impl<'a> GridView<'a> {
    /// The observed grid, as seen by specifications.
    pub closed spec fn spec_grid(self) -> Grid {
        *self.grid
    }

    /// Observes a grid by shared reference.
    pub fn new(grid: &'a Grid) -> (v: GridView<'a>)
        ensures
            v.spec_grid() == *grid,
    {
        GridView { grid }
    }

    /// Whether the observed grid contains `cell_pos`.
    pub fn contains_pos(&self, cell_pos: CellPos) -> (r: bool)
        ensures
            r == self.spec_grid().contains_spec(cell_pos),
    {
        self.grid.contains_pos(cell_pos)
    }

    /// Reads the cell at `cell_pos` from the observed grid.
    pub fn cell(&self, cell_pos: CellPos) -> (r: Result<Cell, OutOfBounds>)
        requires
            self.spec_grid().wf(),
        ensures
            r is Ok <==> self.spec_grid().contains_spec(cell_pos),
            r is Ok ==> r->Ok_0 == (Cell { is_wall: self.spec_grid().wall_at(cell_pos) }),
            r is Err ==> r->Err_0 == (OutOfBounds { cell_pos }),
    {
        self.grid.cell(cell_pos)
    }
}

/// Full rescan: gives every presentation cell the appearance of the grid
/// cell at its position. The association is produced by scanning a known
/// grid, so a position outside the bounds is a programming error and is
/// ruled out up front.
pub fn refresh_cells(grid: &Grid, cells: &mut Vec<PresentationCell>)
    requires
        grid.wf(),
        forall|k: int|
            0 <= k < old(cells)@.len() ==> grid.contains_spec(
                #[trigger] old(cells)@[k].cell_pos,
            ),
    ensures
        final(cells)@.len() == old(cells)@.len(),
        forall|k: int|
            0 <= k < old(cells)@.len() ==> #[trigger] final(cells)@[k] == (PresentationCell {
                cell_pos: old(cells)@[k].cell_pos,
                appearance: appearance_of(grid.wall_at(old(cells)@[k].cell_pos)),
            }),
{
    let n: usize = cells.len();
    let mut i: usize = 0;
    while i < n
        invariant
            grid.wf(),
            i <= n,
            n == cells@.len(),
            cells@.len() == old(cells)@.len(),
            forall|k: int|
                0 <= k < old(cells)@.len() ==> grid.contains_spec(
                    #[trigger] old(cells)@[k].cell_pos,
                ),
            forall|k: int| i as int <= k < cells@.len() ==> #[trigger] cells@[k] == old(cells)@[k],
            forall|k: int|
                0 <= k < i as int ==> #[trigger] cells@[k] == (PresentationCell {
                    cell_pos: old(cells)@[k].cell_pos,
                    appearance: appearance_of(grid.wall_at(old(cells)@[k].cell_pos)),
                }),
        decreases n - i,
    {
        let cell_pos = cells[i].cell_pos;
        let c = match grid.cell(cell_pos) {
            Ok(c) => c,
            Err(_) => unreached(),
        };
        let a = appearance_for(c);
        cells[i] = PresentationCell { cell_pos, appearance: a };
        i = i + 1;
    }
}

/// Incremental update: applies one drained change notification, giving
/// every presentation cell that stands for the changed position its new
/// appearance and touching no other.
pub fn apply_change(change: ChangeRecord, cells: &mut Vec<PresentationCell>)
    ensures
        final(cells)@.len() == old(cells)@.len(),
        forall|k: int|
            0 <= k < old(cells)@.len() ==> #[trigger] final(cells)@[k] == (if old(
                cells,
            )@[k].cell_pos == change.cell_pos {
                PresentationCell {
                    cell_pos: change.cell_pos,
                    appearance: appearance_of(change.is_wall),
                }
            } else {
                old(cells)@[k]
            }),
{
    let n: usize = cells.len();
    let mut i: usize = 0;
    while i < n
        invariant
            i <= n,
            n == cells@.len(),
            cells@.len() == old(cells)@.len(),
            forall|k: int| i as int <= k < cells@.len() ==> #[trigger] cells@[k] == old(cells)@[k],
            forall|k: int|
                0 <= k < i as int ==> #[trigger] cells@[k] == (if old(cells)@[k].cell_pos
                    == change.cell_pos {
                    PresentationCell {
                        cell_pos: change.cell_pos,
                        appearance: appearance_of(change.is_wall),
                    }
                } else {
                    old(cells)@[k]
                }),
        decreases n - i,
    {
        if cells[i].cell_pos == change.cell_pos {
            let a = if change.is_wall {
                CellAppearance::Wall
            } else {
                CellAppearance::Floor
            };
            cells[i] = PresentationCell { cell_pos: change.cell_pos, appearance: a };
        }
        i = i + 1;
    }
}

} // verus!
