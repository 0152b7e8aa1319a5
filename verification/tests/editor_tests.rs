use occupancy_grid::editor::{ChangeRecord, GridEditor};
use occupancy_grid::grid::{Cell, CellPos, Grid, OutOfBounds};
use occupancy_grid::mutator::randomize_cell;

#[test]
fn mutate_writes_and_enqueues_notification() {
    let mut editor = GridEditor::new(Grid::new(3, 2));
    assert_eq!(editor.mutate(CellPos(2, 0), true), Ok(()));
    assert_eq!(editor.mutate(CellPos(0, 1), true), Ok(()));
    assert_eq!(editor.mutate(CellPos(2, 0), false), Ok(()));
    assert_eq!(editor.grid().cell(CellPos(2, 0)), Ok(Cell { is_wall: false }));
    assert_eq!(editor.grid().cell(CellPos(0, 1)), Ok(Cell { is_wall: true }));
    let drained = editor.drain_changes();
    assert_eq!(
        drained,
        vec![
            ChangeRecord {
                cell_pos: CellPos(2, 0),
                is_wall: true,
            },
            ChangeRecord {
                cell_pos: CellPos(0, 1),
                is_wall: true,
            },
            ChangeRecord {
                cell_pos: CellPos(2, 0),
                is_wall: false,
            },
        ]
    );
    assert!(editor.drain_changes().is_empty(), "draining empties the queue");
}

#[test]
fn mutate_out_of_bounds_changes_nothing() {
    let mut editor = GridEditor::new(Grid::new(3, 2));
    let before = editor.grid().iter_cell_pos();
    let cell_pos = CellPos(5, 5);
    assert_eq!(editor.mutate(cell_pos, true), Err(OutOfBounds { cell_pos }));
    assert_eq!(editor.grid().iter_cell_pos(), before);
    assert!(editor.drain_changes().is_empty(), "no notification for a failed write");
}

#[test]
fn mutator_flips_exactly_the_chosen_cell() {
    // The deterministic random source that yields (1, 1) is modelled by
    // handing the editor that position directly.
    let mut editor = GridEditor::new(Grid::new(5, 5));
    assert_eq!(editor.flip_cell(CellPos(1, 1)), Ok(true));
    for (cell_pos, cell) in editor.grid().iter_cell_pos() {
        assert_eq!(cell.is_wall, cell_pos == CellPos(1, 1));
    }
    assert_eq!(
        editor.drain_changes(),
        vec![ChangeRecord {
            cell_pos: CellPos(1, 1),
            is_wall: true,
        }]
    );
}

#[test]
fn flip_twice_restores_the_cell() {
    let mut editor = GridEditor::new(Grid::new(2, 2));
    assert_eq!(editor.flip_cell(CellPos(0, 1)), Ok(true));
    assert_eq!(editor.flip_cell(CellPos(0, 1)), Ok(false));
    assert_eq!(editor.grid().cell(CellPos(0, 1)), Ok(Cell { is_wall: false }));
}

#[test]
fn randomize_flips_one_cell_within_bounds() {
    let mut editor = GridEditor::new(Grid::new(3, 3));
    let record = randomize_cell(&mut editor);
    assert!(editor.grid().contains_pos(record.cell_pos));
    assert!(record.is_wall, "the first flip of a fresh cell raises a wall");
    let mut walls = 0;
    for (cell_pos, cell) in editor.grid().iter_cell_pos() {
        if cell.is_wall {
            walls += 1;
            assert_eq!(cell_pos, record.cell_pos);
        }
    }
    assert_eq!(walls, 1, "exactly one cell changed");
    assert_eq!(editor.drain_changes(), vec![record]);
}

#[test]
fn randomize_on_single_cell_grid_hits_the_only_cell() {
    let mut editor = GridEditor::new(Grid::new(1, 1));
    let record = randomize_cell(&mut editor);
    assert_eq!(record.cell_pos, CellPos(0, 0));
    assert!(record.is_wall);
    assert_eq!(editor.grid().cell(CellPos(0, 0)), Ok(Cell { is_wall: true }));
}
