use visualizer::store::{
    EnvironmentalSnapshot, GridSnapshot, PositionSnapshot, PublishError, SnapshotStore,
    WeatherType,
};
use visualizer::tile::{Content, Tile, TileType};

fn cell(tile_type: TileType) -> Option<Tile> {
    Some(Tile { tile_type, content: Content::Empty, elevation: 0 })
}

fn square(side: usize) -> GridSnapshot {
    GridSnapshot::new(vec![vec![cell(TileType::Grass); side]; side]).unwrap()
}

fn noon() -> EnvironmentalSnapshot {
    EnvironmentalSnapshot { time_of_day: String::from("12:00"), weather: WeatherType::Sunny }
}

#[test]
fn nothing_is_read_before_the_first_publish() {
    let store = SnapshotStore::new();
    assert!(store.read_grid().is_none());
    assert!(store.read_position().is_none());
    assert!(store.read_environment().is_none());
    assert!(store.read_energy().is_none());
}

#[test]
fn ragged_rows_are_no_grid() {
    let rows = vec![vec![cell(TileType::Grass); 2], vec![cell(TileType::Sand); 3]];
    assert!(GridSnapshot::new(rows).is_none());
    let rows = vec![vec![], vec![cell(TileType::Sand)]];
    assert!(GridSnapshot::new(rows).is_none());
}

#[test]
fn rectangular_rows_are_a_grid() {
    let rows = vec![vec![cell(TileType::Grass), None, None], vec![None, cell(TileType::Lava), None]];
    let grid = GridSnapshot::new(rows).unwrap();
    assert_eq!(grid.height(), 2);
    assert_eq!(grid.width(), 3);
    assert_eq!(grid.cell(0, 0), Some(cell(TileType::Grass)));
    assert_eq!(grid.cell(1, 1), Some(cell(TileType::Lava)));
    assert_eq!(grid.cell(1, 2), Some(None));
    assert_eq!(grid.cell(2, 0), None);
    assert_eq!(grid.cell(0, 3), None);
}

#[test]
fn grid_without_rows_is_a_grid() {
    let grid = GridSnapshot::new(vec![]).unwrap();
    assert_eq!(grid.height(), 0);
    assert_eq!(grid.width(), 0);
    assert_eq!(grid.cell(0, 0), None);
    assert!(grid.flatten().is_empty());
}

#[test]
fn cells_are_flattened_row_by_row() {
    let rows = vec![
        vec![cell(TileType::Grass), cell(TileType::Sand)],
        vec![cell(TileType::Snow), None],
        vec![cell(TileType::Lava), cell(TileType::Wall)],
    ];
    let grid = GridSnapshot::new(rows).unwrap();
    let cells = grid.flatten();
    assert_eq!(
        cells,
        vec![
            cell(TileType::Grass),
            cell(TileType::Sand),
            cell(TileType::Snow),
            None,
            cell(TileType::Lava),
            cell(TileType::Wall),
        ]
    );
    for row in 0..3 {
        for col in 0..2 {
            assert_eq!(Some(cells[row * 2 + col]), grid.cell(row, col));
        }
    }
}

#[test]
fn published_grid_is_read_back_rectangular() {
    let mut store = SnapshotStore::new();
    assert_eq!(store.publish_grid(square(3)), Ok(()));
    let grid = store.read_grid().unwrap();
    assert_eq!(grid.height(), 3);
    for row in 0..grid.height() {
        for col in 0..grid.width() {
            assert!(grid.cell(row, col).is_some());
        }
    }
}

#[test]
fn grid_of_other_dimensions_is_turned_down() {
    let mut store = SnapshotStore::new();
    assert_eq!(store.publish_grid(square(3)), Ok(()));
    assert_eq!(store.publish_grid(square(4)), Err(PublishError::DimensionsChanged));
    assert_eq!(store.read_grid().unwrap().height(), 3);
    let wide = GridSnapshot::new(vec![vec![None; 4]; 3]).unwrap();
    assert_eq!(store.publish_grid(wide), Err(PublishError::DimensionsChanged));
    assert_eq!(store.read_grid().unwrap().width(), 3);
}

#[test]
fn grid_of_the_same_dimensions_replaces_the_old() {
    let mut store = SnapshotStore::new();
    assert_eq!(store.publish_grid(square(2)), Ok(()));
    let next = GridSnapshot::new(vec![vec![cell(TileType::Lava); 2]; 2]).unwrap();
    assert_eq!(store.publish_grid(next), Ok(()));
    assert_eq!(store.read_grid().unwrap().cell(1, 1), Some(cell(TileType::Lava)));
}

#[test]
fn position_outside_the_grid_is_turned_down() {
    let mut store = SnapshotStore::new();
    assert_eq!(store.publish_grid(square(3)), Ok(()));
    assert_eq!(store.publish_position(PositionSnapshot { row: 2, col: 2 }), Ok(()));
    assert_eq!(
        store.publish_position(PositionSnapshot { row: 3, col: 0 }),
        Err(PublishError::PositionOutsideGrid)
    );
    assert_eq!(
        store.publish_position(PositionSnapshot { row: 0, col: 3 }),
        Err(PublishError::PositionOutsideGrid)
    );
    assert_eq!(store.read_position(), Some(PositionSnapshot { row: 2, col: 2 }));
}

#[test]
fn position_is_free_while_the_grid_has_no_cells() {
    let mut store = SnapshotStore::new();
    assert_eq!(store.publish_position(PositionSnapshot { row: 9, col: 9 }), Ok(()));
    assert_eq!(store.publish_grid(GridSnapshot::new(vec![]).unwrap()), Ok(()));
    assert_eq!(store.publish_position(PositionSnapshot { row: 50, col: 1 }), Ok(()));
    assert_eq!(store.read_position(), Some(PositionSnapshot { row: 50, col: 1 }));
}

#[test]
fn grid_that_leaves_the_position_outside_is_turned_down() {
    let mut store = SnapshotStore::new();
    assert_eq!(store.publish_position(PositionSnapshot { row: 5, col: 5 }), Ok(()));
    assert_eq!(store.publish_grid(square(3)), Err(PublishError::PositionOutsideGrid));
    assert!(store.read_grid().is_none());
    assert_eq!(store.publish_grid(square(6)), Ok(()));
    assert_eq!(store.read_grid().unwrap().height(), 6);
}

#[test]
fn fields_are_published_one_by_one() {
    let mut store = SnapshotStore::new();
    store.publish_energy(730);
    assert_eq!(store.read_energy(), Some(730));
    assert!(store.read_environment().is_none());
    assert!(store.read_grid().is_none());
    store.publish_environment(noon());
    assert_eq!(store.read_environment().unwrap().time_of_day, "12:00");
    assert_eq!(store.read_environment().unwrap().weather, WeatherType::Sunny);
    assert_eq!(store.read_energy(), Some(730));
    store.publish_energy(0);
    assert_eq!(store.read_energy(), Some(0));
}

#[test]
fn copy_of_a_store_holds_the_same() {
    let mut store = SnapshotStore::new();
    assert_eq!(store.publish_grid(square(2)), Ok(()));
    assert_eq!(store.publish_position(PositionSnapshot { row: 1, col: 0 }), Ok(()));
    store.publish_environment(noon());
    store.publish_energy(12);
    let copy = store.clone();
    store.publish_energy(13);
    assert_eq!(copy.read_energy(), Some(12));
    assert_eq!(copy.read_position(), Some(PositionSnapshot { row: 1, col: 0 }));
    assert_eq!(copy.read_environment().unwrap().time_of_day, "12:00");
    assert_eq!(copy.read_grid().unwrap().flatten(), store.read_grid().unwrap().flatten());
    assert_eq!(copy.read_grid().unwrap().height(), 2);
}
