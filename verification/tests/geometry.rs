use simple_chess_dragging::geometry::{cell_at, cell_index, cell_size_for, BOARD_SPAN};

#[test]
fn cell_size_is_half_of_the_smaller_dimension() {
    assert_eq!(cell_size_for(400, 300), 150);
    assert_eq!(cell_size_for(300, 400), 150);
    assert_eq!(cell_size_for(401, 401), 200);
}

#[test]
fn cell_size_of_a_tiny_or_degenerate_area_is_zero() {
    assert_eq!(cell_size_for(1, 1), 0);
    assert_eq!(cell_size_for(0, 500), 0);
    assert_eq!(cell_size_for(-10, 500), 0);
    assert_eq!(cell_size_for(500, i32::MIN), 0);
}

#[test]
fn cell_size_of_the_largest_area() {
    assert_eq!(cell_size_for(i32::MAX, i32::MAX), 1_073_741_823);
    assert_eq!(cell_size_for(2, 3), 1);
}

#[test]
fn cell_size_does_not_depend_on_the_order_of_the_dimensions() {
    let sides = [-5, 0, 1, 2, 3, 90, 401, 1000];
    for w in sides {
        for h in sides {
            assert_eq!(cell_size_for(w, h), cell_size_for(h, w));
        }
    }
}

#[test]
fn board_has_two_cells_each_way() {
    assert_eq!(BOARD_SPAN, 2);
}

#[test]
fn index_is_the_quotient_rounded_down() {
    assert_eq!(cell_index(0, 200), Some(0));
    assert_eq!(cell_index(199, 200), Some(0));
    assert_eq!(cell_index(200, 200), Some(1));
    assert_eq!(cell_index(399, 200), Some(1));
}

#[test]
fn index_beyond_the_board_is_refused() {
    assert_eq!(cell_index(400, 200), None);
    assert_eq!(cell_index(i32::MAX, 200), None);
    assert_eq!(cell_index(2, 1), None);
}

#[test]
fn negative_coordinate_is_refused() {
    assert_eq!(cell_index(-1, 200), None);
    assert_eq!(cell_index(i32::MIN, 1), None);
}

#[test]
fn no_index_while_cells_have_no_extent() {
    assert_eq!(cell_index(0, 0), None);
    assert_eq!(cell_index(10, 0), None);
}

#[test]
fn index_with_a_huge_cell_size() {
    assert_eq!(cell_index(i32::MAX, u32::MAX), Some(0));
    assert_eq!(cell_index(i32::MAX, 1 << 30), Some(1));
}

#[test]
fn cell_is_row_from_y_and_column_from_x() {
    assert_eq!(cell_at(10, 10, 200), Some((0, 0)));
    assert_eq!(cell_at(250, 10, 200), Some((0, 1)));
    assert_eq!(cell_at(10, 250, 200), Some((1, 0)));
    assert_eq!(cell_at(399, 399, 200), Some((1, 1)));
}

#[test]
fn cell_off_the_board_is_refused() {
    assert_eq!(cell_at(400, 10, 200), None);
    assert_eq!(cell_at(10, 400, 200), None);
    assert_eq!(cell_at(-1, 10, 200), None);
    assert_eq!(cell_at(10, -1, 200), None);
    assert_eq!(cell_at(10, 10, 0), None);
}

#[test]
fn every_pixel_of_the_board_has_a_cell_inside_which_it_lies() {
    let cell_size: u32 = 7;
    for y in -3..20 {
        for x in -3..20 {
            let on_board = (0..14).contains(&x) && (0..14).contains(&y);
            match cell_at(x, y, cell_size) {
                Some((row, col)) => {
                    assert!(on_board);
                    assert!(row < 2 && col < 2);
                    assert!(col as i32 * 7 <= x && x < (col as i32 + 1) * 7);
                    assert!(row as i32 * 7 <= y && y < (row as i32 + 1) * 7);
                }
                None => assert!(!on_board),
            }
        }
    }
}
