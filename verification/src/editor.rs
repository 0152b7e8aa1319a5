//! The single sanctioned mutation path for a grid. Every successful write
//! goes through the editor and enqueues a change notification that
//! observers drain once per update cycle.

use vstd::prelude::*;

use crate::grid::{sets_wall, Cell, CellPos, Grid, OutOfBounds};

verus! {

/// One change notification: a completed write set the cell at `cell_pos`
/// to the wall state `is_wall`.
#[derive(Clone, Copy, Debug, PartialEq, Eq, Structural)]
pub struct ChangeRecord {
    pub cell_pos: CellPos,
    pub is_wall: bool,
}

/// The exclusive owner of a grid and the only sanctioned path for mutating
/// it. Reads go through the shared reference that [`GridEditor::grid`]
/// hands out; writes go through [`GridEditor::mutate`], complete before
/// any reader can look again, and are recorded in a queue of pending
/// change notifications.
pub struct GridEditor {
    grid: Grid,
    pending: Vec<ChangeRecord>,
}

impl GridEditor {
    /// The grid the editor owns, as seen by specifications.
    pub closed spec fn spec_grid(self) -> Grid {
        self.grid
    }

    /// The queue of change notifications not yet drained, oldest first.
    pub closed spec fn pending_changes(self) -> Seq<ChangeRecord> {
        self.pending@
    }

    /// Well-formedness: the owned grid is well formed.
    pub open spec fn wf(self) -> bool {
        self.spec_grid().wf()
    }

    /// Takes ownership of a freshly built grid. The change queue starts
    /// empty.
    pub fn new(grid: Grid) -> (e: GridEditor)
        requires
            grid.wf(),
        ensures
            e.wf(),
            e.spec_grid() == grid,
            e.pending_changes().len() == 0,
    {
        GridEditor { grid, pending: Vec::new() }
    }

    /// Shared read access to the owned grid for views and synchronizers.
    pub fn grid(&self) -> (g: &Grid)
        ensures
            *g == self.spec_grid(),
    {
        &self.grid
    }

    /// Sets the wall state of the cell at `cell_pos` and enqueues a change
    /// notification; reports the position out of bounds leaving the grid
    /// and the queue untouched.
    pub fn mutate(&mut self, cell_pos: CellPos, is_wall: bool) -> (r: Result<(), OutOfBounds>)
        requires
            old(self).wf(),
        ensures
            final(self).wf(),
            r is Ok <==> old(self).spec_grid().contains_spec(cell_pos),
            r is Ok ==> sets_wall(
                old(self).spec_grid(),
                final(self).spec_grid(),
                cell_pos,
                is_wall,
            ),
            r is Ok ==> final(self).pending_changes() == old(self).pending_changes().push(
                ChangeRecord { cell_pos, is_wall },
            ),
            r is Err ==> r->Err_0 == (OutOfBounds { cell_pos }) && *final(self) == *old(self),
    {
        match self.grid.set_cell(cell_pos, Cell { is_wall }) {
            Ok(_) => {
                self.pending.push(ChangeRecord { cell_pos, is_wall });
                Ok(())
            },
            Err(e) => Err(e),
        }
    }

    /// Reads the wall state at `cell_pos` and writes the opposite state
    /// back, enqueueing the change notification; reports the position out
    /// of bounds without mutating anything.
    pub fn flip_cell(&mut self, cell_pos: CellPos) -> (r: Result<bool, OutOfBounds>)
        requires
            old(self).wf(),
        ensures
            final(self).wf(),
            r is Ok <==> old(self).spec_grid().contains_spec(cell_pos),
            r is Ok ==> r->Ok_0 == !old(self).spec_grid().wall_at(cell_pos),
            r is Ok ==> sets_wall(
                old(self).spec_grid(),
                final(self).spec_grid(),
                cell_pos,
                !old(self).spec_grid().wall_at(cell_pos),
            ),
            r is Ok ==> final(self).pending_changes() == old(self).pending_changes().push(
                ChangeRecord { cell_pos, is_wall: !old(self).spec_grid().wall_at(cell_pos) },
            ),
            r is Err ==> r->Err_0 == (OutOfBounds { cell_pos }) && *final(self) == *old(self),
    {
        let current = match self.grid.cell(cell_pos) {
            Ok(c) => c,
            Err(e) => {
                return Err(e);
            },
        };
        let flipped = !current.is_wall;
        match self.mutate(cell_pos, flipped) {
            Ok(_) => Ok(flipped),
            Err(_) => unreached(),
        }
    }

    /// Hands out the queued change notifications in the order the writes
    /// happened and leaves the queue empty; the grid is untouched.
    pub fn drain_changes(&mut self) -> (r: Vec<ChangeRecord>)
        ensures
            r@ == old(self).pending_changes(),
            final(self).pending_changes().len() == 0,
            final(self).spec_grid() == old(self).spec_grid(),
    {
        let mut out: Vec<ChangeRecord> = Vec::new();
        std::mem::swap(&mut out, &mut self.pending);
        out
    }
}

} // verus!
