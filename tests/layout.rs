use tic_tac_toe::layout::{map_pixel_to_cell, BoardLayout};

fn layout() -> BoardLayout {
    BoardLayout { origin_x: 200, origin_y: 100, cell_size: 133 }
}

#[test]
fn cell_origins_map_to_their_cells() {
    let l = layout();
    for row in 0..3usize {
        for col in 0..3usize {
            let x = l.origin_x + col as i64 * l.cell_size;
            let y = l.origin_y + row as i64 * l.cell_size;
            assert_eq!(map_pixel_to_cell(x, y, &l), Some((row, col)));
        }
    }
}

#[test]
fn pixel_beyond_the_board_is_off() {
    let l = layout();
    let width = 3 * l.cell_size;
    assert_eq!(map_pixel_to_cell(l.origin_x + width, l.origin_y, &l), None);
    assert_eq!(map_pixel_to_cell(l.origin_x + width + 1, l.origin_y, &l), None);
    assert_eq!(map_pixel_to_cell(l.origin_x, l.origin_y + width, &l), None);
    assert_eq!(map_pixel_to_cell(l.origin_x + width - 1, l.origin_y + width - 1, &l), Some((2, 2)));
    assert_eq!(map_pixel_to_cell(l.origin_x - 1, l.origin_y, &l), None);
    assert_eq!(map_pixel_to_cell(l.origin_x, l.origin_y - 1, &l), None);
}

#[test]
fn division_rounds_down() {
    let l = layout();
    assert_eq!(map_pixel_to_cell(200 + 132, 100 + 133, &l), Some((1, 0)));
    assert_eq!(map_pixel_to_cell(200 + 266, 100 + 265, &l), Some((1, 2)));
}

#[test]
fn non_positive_cell_size_has_no_cells() {
    let l = BoardLayout { origin_x: 0, origin_y: 0, cell_size: 0 };
    assert_eq!(map_pixel_to_cell(0, 0, &l), None);
    let l = BoardLayout { origin_x: 0, origin_y: 0, cell_size: -5 };
    assert_eq!(map_pixel_to_cell(-1, -1, &l), None);
}

#[test]
fn extreme_coordinates_do_not_overflow() {
    let l = BoardLayout { origin_x: i64::MIN, origin_y: i64::MIN, cell_size: i64::MAX };
    assert_eq!(map_pixel_to_cell(i64::MAX, i64::MIN, &l), Some((0, 2)));
    assert_eq!(map_pixel_to_cell(i64::MIN, i64::MAX, &l), Some((2, 0)));
    let l = BoardLayout { origin_x: i64::MAX, origin_y: 0, cell_size: 1 };
    assert_eq!(map_pixel_to_cell(i64::MIN, 0, &l), None);
}
