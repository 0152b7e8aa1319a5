//! The randomized mutator: each tick picks one uniformly random position
//! inside the grid and flips that cell's wall state through the editor.
//! The tick schedule itself belongs to the host application.

use vstd::prelude::*;

use rand::Rng;

use crate::editor::{ChangeRecord, GridEditor};
use crate::grid::{sets_wall, CellPos};

verus! {

/// Relies on rand::Rng::gen_range over `0..bound`, through
/// rand::thread_rng, for a value drawn uniformly from `[0, bound)`; the
/// range must not be empty.
#[verifier::external_body]
fn random_below(bound: u32) -> (r: u32)
    requires
        bound > 0,
    ensures
        r < bound,
{
    rand::thread_rng().gen_range(0..bound)
}

/// One tick of the randomized mutator: flips one randomly chosen cell of
/// the editor's grid and returns the change notification that the flip
/// enqueued. The grid must have at least one cell, and its dimensions must
/// fit the positions' machine representation.
pub fn randomize_cell(editor: &mut GridEditor) -> (r: ChangeRecord)
    requires
        old(editor).wf(),
        old(editor).spec_grid().spec_width() > 0,
        old(editor).spec_grid().spec_height() > 0,
        old(editor).spec_grid().spec_width() as int <= i32::MAX as int,
        old(editor).spec_grid().spec_height() as int <= i32::MAX as int,
    ensures
        final(editor).wf(),
        old(editor).spec_grid().contains_spec(r.cell_pos),
        r.is_wall == !old(editor).spec_grid().wall_at(r.cell_pos),
        sets_wall(old(editor).spec_grid(), final(editor).spec_grid(), r.cell_pos, r.is_wall),
        final(editor).pending_changes() == old(editor).pending_changes().push(r),
{
    let x: u32 = random_below(editor.grid().width());
    let y: u32 = random_below(editor.grid().height());
    let cell_pos = CellPos(x as i32, y as i32);
    let flipped = match editor.flip_cell(cell_pos) {
        Ok(b) => b,
        Err(_) => unreached(),
    };
    ChangeRecord { cell_pos, is_wall: flipped }
}

} // verus!
