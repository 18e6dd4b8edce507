use fast_tilemap::{MapError, MapSize, TileMap};

fn map(x: u32, y: u32) -> TileMap {
    TileMap::new(MapSize::new(x, y), false).expect("a grid with both dimensions positive")
}

#[test]
fn new_map_holds_zero_everywhere() {
    let m = map(4, 3);
    assert_eq!(m.size(), MapSize { x: 4, y: 3 });
    assert_eq!(m.tiles().cells().len(), 12);
    assert!(m.tiles().cells().iter().all(|&index| index == 0));
    for y in 0..3 {
        for x in 0..4 {
            assert_eq!(m.tiles().get(x, y), Ok(0));
        }
    }
    assert!(!m.is_dirty());
}

#[test]
fn zero_width_is_a_configuration_error() {
    let r = TileMap::new(MapSize::new(0, 5), false);
    assert_eq!(r.err(), Some(MapError::Configuration));
}

#[test]
fn zero_height_is_a_configuration_error() {
    let r = TileMap::new(MapSize::new(5, 0), true);
    assert_eq!(r.err(), Some(MapError::Configuration));
}

#[test]
fn single_cell_map_is_accepted() {
    let mut m = map(1, 1);
    assert_eq!(m.indexer().set(0, 0, 42), Ok(()));
    assert_eq!(m.tiles().get(0, 0), Ok(42));
    assert_eq!(m.tiles().get(1, 0), Err(MapError::OutOfBoundsAccess));
    assert_eq!(m.tiles().get(0, 1), Err(MapError::OutOfBoundsAccess));
}

#[test]
fn set_then_get_gives_the_index_back() {
    let mut m = map(5, 4);
    let indexer = m.indexer();
    assert_eq!(indexer.set(2, 3, 7), Ok(()));
    assert_eq!(indexer.get(2, 3), Ok(7));
    assert_eq!(indexer.set(2, 3, 8), Ok(()));
    assert_eq!(indexer.get(2, 3), Ok(8));
}

#[test]
fn set_changes_no_other_cell() {
    let mut m = map(3, 3);
    let indexer = m.indexer();
    assert_eq!(indexer.set(1, 1, 500), Ok(()));
    for y in 0..3 {
        for x in 0..3 {
            let expected = if (x, y) == (1, 1) { 500 } else { 0 };
            assert_eq!(indexer.get(x, y), Ok(expected));
        }
    }
}

#[test]
fn cells_are_stored_row_by_row() {
    let mut m = map(3, 2);
    let indexer = m.indexer();
    assert_eq!(indexer.set(0, 0, 10), Ok(()));
    assert_eq!(indexer.set(2, 0, 12), Ok(()));
    assert_eq!(indexer.set(0, 1, 20), Ok(()));
    assert_eq!(indexer.set(1, 1, 21), Ok(()));
    assert_eq!(m.tiles().cells(), &vec![10, 0, 12, 20, 21, 0]);
}

#[test]
fn swapped_coordinates_name_different_cells() {
    let mut m = map(4, 4);
    let indexer = m.indexer();
    assert_eq!(indexer.set(1, 2, 5), Ok(()));
    assert_eq!(indexer.get(2, 1), Ok(0));
    assert_eq!(indexer.get(1, 2), Ok(5));
    assert_eq!(m.tiles().cells()[2 * 4 + 1], 5);
    assert_eq!(m.tiles().cells()[1 * 4 + 2], 0);
}

#[test]
fn largest_tile_index_is_stored() {
    let mut m = map(2, 2);
    assert_eq!(m.indexer().set(1, 0, 65535), Ok(()));
    assert_eq!(m.tiles().get(1, 0), Ok(65535));
}

#[test]
fn indexer_reports_the_map_size() {
    let mut m = map(7, 2);
    let indexer = m.indexer();
    assert_eq!(indexer.size(), MapSize { x: 7, y: 2 });
    assert_eq!(indexer.size().x, 7);
    assert_eq!(indexer.size().y, 2);
}

#[test]
fn get_one_past_the_width_is_out_of_bounds() {
    let m = map(4, 3);
    assert_eq!(m.tiles().get(4, 0), Err(MapError::OutOfBoundsAccess));
    assert_eq!(m.tiles().get(4, 2), Err(MapError::OutOfBoundsAccess));
    assert_eq!(m.tiles().get(3, 2), Ok(0));
}

#[test]
fn get_one_past_the_height_is_out_of_bounds() {
    let m = map(4, 3);
    assert_eq!(m.tiles().get(0, 3), Err(MapError::OutOfBoundsAccess));
    assert_eq!(m.tiles().get(3, 3), Err(MapError::OutOfBoundsAccess));
}

#[test]
fn get_far_outside_is_out_of_bounds() {
    let m = map(4, 3);
    assert_eq!(m.tiles().get(u32::MAX, 0), Err(MapError::OutOfBoundsAccess));
    assert_eq!(m.tiles().get(0, u32::MAX), Err(MapError::OutOfBoundsAccess));
    assert_eq!(m.tiles().get(u32::MAX, u32::MAX), Err(MapError::OutOfBoundsAccess));
}

#[test]
fn set_one_past_the_width_is_out_of_bounds_and_writes_nothing() {
    let mut m = map(4, 3);
    assert_eq!(m.indexer().set(4, 1, 9), Err(MapError::OutOfBoundsAccess));
    assert!(m.tiles().cells().iter().all(|&index| index == 0));
    assert!(!m.is_dirty());
}

#[test]
fn set_one_past_the_height_is_out_of_bounds_and_writes_nothing() {
    let mut m = map(4, 3);
    assert_eq!(m.indexer().set(1, 3, 9), Err(MapError::OutOfBoundsAccess));
    assert!(m.tiles().cells().iter().all(|&index| index == 0));
    assert!(!m.is_dirty());
}

#[test]
fn set_past_the_width_does_not_wrap_into_the_next_row() {
    let mut m = map(4, 3);
    assert_eq!(m.indexer().set(4, 0, 9), Err(MapError::OutOfBoundsAccess));
    assert_eq!(m.tiles().get(0, 1), Ok(0));
}

#[test]
fn a_failed_set_leaves_earlier_edits_in_place() {
    let mut m = map(2, 2);
    let indexer = m.indexer();
    assert_eq!(indexer.set(0, 0, 1), Ok(()));
    assert_eq!(indexer.set(2, 0, 2), Err(MapError::OutOfBoundsAccess));
    assert_eq!(indexer.set(1, 1, 3), Ok(()));
    assert_eq!(m.tiles().cells(), &vec![1, 0, 0, 3]);
    assert!(m.is_dirty());
}

#[test]
fn many_sets_in_one_session_ask_for_one_upload() {
    let mut m = map(10, 10);
    {
        let indexer = m.indexer();
        for y in 0..indexer.size().y {
            for x in 0..indexer.size().x {
                assert_eq!(indexer.set(x, y, (y * 10 + x) as u16), Ok(()));
            }
        }
    }
    let mut uploads = 0;
    for _frame in 0..5 {
        if m.is_dirty() {
            uploads += 1;
            m.clear_dirty();
        }
    }
    assert_eq!(uploads, 1);
    assert_eq!(m.tiles().get(9, 9), Ok(99));
}

#[test]
fn a_session_without_edits_asks_for_no_upload() {
    let mut m = map(3, 3);
    {
        let indexer = m.indexer();
        assert_eq!(indexer.get(1, 1), Ok(0));
        assert_eq!(indexer.size(), MapSize { x: 3, y: 3 });
    }
    assert!(!m.is_dirty());
}

#[test]
fn clear_dirty_keeps_the_tiles() {
    let mut m = map(2, 1);
    assert_eq!(m.indexer().set(1, 0, 77), Ok(()));
    assert!(m.is_dirty());
    m.clear_dirty();
    assert!(!m.is_dirty());
    assert_eq!(m.tiles().cells(), &vec![0, 77]);
    m.clear_dirty();
    assert!(!m.is_dirty());
}

#[test]
fn each_later_session_asks_for_its_own_upload() {
    let mut m = map(2, 2);
    assert_eq!(m.indexer().set(0, 0, 1), Ok(()));
    assert!(m.is_dirty());
    m.clear_dirty();
    {
        let indexer = m.indexer();
        assert_eq!(indexer.set(1, 0, 2), Ok(()));
        assert_eq!(indexer.set(1, 1, 3), Ok(()));
    }
    assert!(m.is_dirty());
    assert_eq!(m.tiles().cells(), &vec![1, 2, 0, 3]);
}

#[test]
fn writing_the_value_already_there_still_counts_as_an_edit() {
    let mut m = map(2, 2);
    assert_eq!(m.indexer().set(0, 0, 0), Ok(()));
    assert!(m.is_dirty());
}

#[test]
fn sessions_on_one_map_follow_each_other() {
    let mut m = map(2, 2);
    {
        let first = m.indexer();
        assert_eq!(first.set(0, 0, 4), Ok(()));
    }
    {
        let second = m.indexer();
        assert_eq!(second.get(0, 0), Ok(4));
        assert_eq!(second.set(0, 0, 5), Ok(()));
    }
    assert_eq!(m.tiles().get(0, 0), Ok(5));
}

fn fill_with_pattern(indexer: &mut fast_tilemap::MapIndexer) {
    for y in 0..indexer.size().y {
        for x in 0..indexer.size().x {
            indexer.set(x, y, 1 + ((x + y) % 3) as u16).expect("inside the grid");
        }
    }
}

#[test]
fn an_initializer_function_fills_the_grid_through_the_indexer() {
    let mut m = map(100, 100);
    fill_with_pattern(m.indexer());
    assert_eq!(m.tiles().cells().len(), 10_000);
    assert!(m.tiles().cells().iter().all(|&index| (1..4).contains(&index)));
    assert_eq!(m.tiles().get(0, 0), Ok(1));
    assert_eq!(m.tiles().get(99, 99), Ok(1));
    assert_eq!(m.tiles().get(1, 0), Ok(2));
    assert!(m.is_dirty());
}

#[test]
fn a_clone_has_tiles_of_its_own() {
    let mut m = map(2, 2);
    assert_eq!(m.indexer().set(1, 1, 6), Ok(()));
    let mut copy = m.clone();
    assert_eq!(copy.tiles().get(1, 1), Ok(6));
    assert!(copy.is_dirty());
    assert_eq!(copy.indexer().set(0, 0, 9), Ok(()));
    assert_eq!(m.tiles().get(0, 0), Ok(0));
    assert_eq!(copy.size(), m.size());
}

#[test]
fn grid_corners_come_in_mesh_order() {
    let size = MapSize::new(100, 50);
    assert_eq!(size.corners(), [(0, 0), (100, 0), (0, 50), (100, 50)]);
}
