use roguelike::map::{MapError, TileMap, NUM_LAYERS, WINDOW_COLUMNS, WINDOW_ROWS};
use roguelike::tile::TilePosition;

fn window_map() -> TileMap {
    TileMap::new(80, 30, 40, 15)
}

#[test]
fn fresh_map_is_empty() {
    let m = window_map();
    assert_eq!(m.width, 80);
    assert_eq!(m.height, 30);
    assert_eq!(m.num_layers, NUM_LAYERS);
    assert_eq!(m.num_layers, 5);
    assert_eq!(m.zero_pos, TilePosition::new(40, 15, 0));
    assert_eq!(m.forward.len(), 80);
    for column in &m.forward {
        assert_eq!(column.len(), 30);
        for stack in column {
            assert_eq!(stack.len(), 5);
            assert!(stack.iter().all(|c| c.is_none()));
        }
    }
    assert!(m.backward.is_empty());
}

#[test]
fn empty_grid_has_no_cells() {
    let mut m = TileMap::new(0, 0, 0, 0);
    assert!(m.forward.is_empty());
    assert_eq!(
        m.spawn_wall_at(1, TilePosition::new(0, 0, 0)),
        Err(MapError::IndexOutOfBounds)
    );
}

#[test]
fn wall_is_indexed_both_ways() {
    let mut m = window_map();
    assert_eq!(m.spawn_wall_at(7, TilePosition::new(-1, 2, 0)), Ok(()));
    assert_eq!(m.forward[39][17][0], Some(7));
    assert_eq!(m.backward.get(&7), Some(&TilePosition::new(-1, 2, 0)));
    assert_eq!(m.backward.len(), 1);
    assert_eq!(m.forward[40][17][0], None);
}

#[test]
fn wall_outside_grid_is_refused() {
    let mut m = window_map();
    let outside = [
        TilePosition::new(-41, 0, 0),
        TilePosition::new(40, 0, 0),
        TilePosition::new(0, -16, 0),
        TilePosition::new(0, 15, 0),
        TilePosition::new(0, 0, -1),
        TilePosition::new(0, 0, 5),
        TilePosition::new(i32::MAX, i32::MAX, i32::MAX),
        TilePosition::new(i32::MIN, 0, 0),
    ];
    for p in outside {
        assert_eq!(m.spawn_wall_at(3, p), Err(MapError::IndexOutOfBounds));
    }
    assert!(m.backward.is_empty());
}

#[test]
fn wall_at_grid_corners_is_placed() {
    let mut m = window_map();
    assert_eq!(m.spawn_wall_at(1, TilePosition::new(-40, -15, 0)), Ok(()));
    assert_eq!(m.spawn_wall_at(2, TilePosition::new(39, 14, 4)), Ok(()));
    assert_eq!(m.forward[0][0][0], Some(1));
    assert_eq!(m.forward[79][29][4], Some(2));
}

#[test]
fn entity_placed_twice_is_refused() {
    let mut m = window_map();
    assert_eq!(m.spawn_wall_at(9, TilePosition::new(0, 0, 0)), Ok(()));
    assert_eq!(
        m.spawn_wall_at(9, TilePosition::new(1, 0, 0)),
        Err(MapError::EntityAlreadyPlaced)
    );
    assert_eq!(m.forward[41][15][0], None);
    assert_eq!(m.backward.get(&9), Some(&TilePosition::new(0, 0, 0)));
}

#[test]
fn second_wall_in_a_cell_replaces_the_first() {
    let mut m = window_map();
    assert_eq!(m.spawn_wall_at(1, TilePosition::new(2, 2, 1)), Ok(()));
    assert_eq!(m.spawn_wall_at(2, TilePosition::new(2, 2, 1)), Ok(()));
    assert_eq!(m.forward[42][17][1], Some(2));
    assert_eq!(m.backward.get(&2), Some(&TilePosition::new(2, 2, 1)));
}

#[test]
fn default_walls_are_placed() {
    let mut m = window_map();
    assert_eq!(m.spawn_walls(10, 11, 12), Ok(()));
    assert_eq!(m.backward.len(), 3);
    assert_eq!(m.backward.get(&10), Some(&TilePosition::new(-1, 2, 0)));
    assert_eq!(m.backward.get(&11), Some(&TilePosition::new(0, 2, 0)));
    assert_eq!(m.backward.get(&12), Some(&TilePosition::new(1, 2, 0)));
    assert_eq!(m.forward[39][17][0], Some(10));
    assert_eq!(m.forward[40][17][0], Some(11));
    assert_eq!(m.forward[41][17][0], Some(12));
}

#[test]
fn default_walls_need_room() {
    let mut m = TileMap::new(2, 3, 1, 1);
    assert_eq!(m.spawn_walls(1, 2, 3), Err(MapError::IndexOutOfBounds));
    assert!(m.backward.is_empty());
    assert!(m.forward.iter().flatten().flatten().all(|c| c.is_none()));
}

#[test]
fn default_walls_need_distinct_entities() {
    let mut m = window_map();
    assert_eq!(m.spawn_walls(1, 2, 1), Err(MapError::EntityAlreadyPlaced));
    assert!(m.backward.is_empty());
    assert_eq!(m.spawn_wall_at(5, TilePosition::new(0, 0, 0)), Ok(()));
    assert_eq!(m.spawn_walls(4, 5, 6), Err(MapError::EntityAlreadyPlaced));
    assert_eq!(m.backward.len(), 1);
    assert_eq!(m.forward[39][17][0], None);
}

#[test]
fn window_map_is_centred() {
    let m = TileMap::for_window(WINDOW_COLUMNS, WINDOW_ROWS).unwrap();
    assert_eq!(m.width, 80);
    assert_eq!(m.height, 30);
    assert_eq!(m.zero_pos, TilePosition::new(40, 15, 0));
    let odd = TileMap::for_window(5, 3).unwrap();
    assert_eq!(odd.zero_pos, TilePosition::new(2, 1, 0));
}

#[test]
fn negative_window_is_refused() {
    assert!(matches!(
        TileMap::for_window(-1, 30),
        Err(MapError::InvalidDimensions)
    ));
    assert!(matches!(
        TileMap::for_window(80, -30),
        Err(MapError::InvalidDimensions)
    ));
}

#[test]
fn corrected_index_shifts_by_origin() {
    let m = window_map();
    assert_eq!(m.corrected_index(TilePosition::new(-1, 2, 0)), Some((39, 17, 0)));
    assert_eq!(m.corrected_index(TilePosition::new(40, 0, 0)), None);
}

#[test]
fn default_wall_positions_left_to_right() {
    assert_eq!(
        roguelike::map::default_wall_positions(),
        vec![
            TilePosition::new(-1, 2, 0),
            TilePosition::new(0, 2, 0),
            TilePosition::new(1, 2, 0)
        ]
    );
}
