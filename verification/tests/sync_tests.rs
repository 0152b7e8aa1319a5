use occupancy_grid::editor::{ChangeRecord, GridEditor};
use occupancy_grid::grid::{Cell, CellPos, Grid, OutOfBounds};
use occupancy_grid::sync::{
    apply_change, appearance_for, refresh_cells, CellAppearance, GridView, PresentationCell,
};

fn entities_for(grid: &Grid) -> Vec<PresentationCell> {
    grid.iter_cell_pos()
        .iter()
        .map(|&(cell_pos, cell)| PresentationCell {
            cell_pos,
            appearance: appearance_for(cell),
        })
        .collect()
}

#[test]
fn appearance_mapping_is_two_valued() {
    assert_eq!(appearance_for(Cell { is_wall: true }), CellAppearance::Wall);
    assert_eq!(appearance_for(Cell { is_wall: false }), CellAppearance::Floor);
}

#[test]
fn refresh_projects_the_authoritative_state() {
    let mut editor = GridEditor::new(Grid::new(3, 3));
    let mut entities = entities_for(editor.grid());
    assert_eq!(editor.mutate(CellPos(2, 2), true), Ok(()));
    assert_eq!(editor.mutate(CellPos(0, 1), true), Ok(()));
    refresh_cells(editor.grid(), &mut entities);
    assert_eq!(entities.len(), 9);
    for entity in entities.iter() {
        let expected = if entity.cell_pos == CellPos(2, 2) || entity.cell_pos == CellPos(0, 1) {
            CellAppearance::Wall
        } else {
            CellAppearance::Floor
        };
        assert_eq!(entity.appearance, expected);
    }
}

#[test]
fn apply_change_touches_only_the_named_position() {
    let grid = Grid::new(2, 2);
    let mut entities = entities_for(&grid);
    let change = ChangeRecord {
        cell_pos: CellPos(1, 0),
        is_wall: true,
    };
    apply_change(change, &mut entities);
    for entity in entities.iter() {
        let expected = if entity.cell_pos == CellPos(1, 0) {
            CellAppearance::Wall
        } else {
            CellAppearance::Floor
        };
        assert_eq!(entity.appearance, expected);
    }
}

#[test]
fn view_reads_without_mutating() {
    let mut grid = Grid::new(3, 2);
    assert_eq!(grid.set_cell(CellPos(1, 0), Cell { is_wall: true }), Ok(()));
    let view = GridView::new(&grid);
    assert!(view.contains_pos(CellPos(1, 0)));
    assert!(!view.contains_pos(CellPos(3, 0)));
    assert_eq!(view.cell(CellPos(1, 0)), Ok(Cell { is_wall: true }));
    assert_eq!(
        view.cell(CellPos(-1, 0)),
        Err(OutOfBounds {
            cell_pos: CellPos(-1, 0)
        })
    );
}
