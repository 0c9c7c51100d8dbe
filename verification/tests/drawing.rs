use simple_chess_dragging::board::Board;
use simple_chess_dragging::drawing::{
    cell_color, default_size_request, draw_cells, draw_content, draw_piece, draw_single_cell,
    CellColor, CellFill, DEFAULT_PIECE_SIZE,
};
use simple_chess_dragging::image_manager::ImageManager;

fn png_of(width: u32, height: u32, rgba: Vec<u8>) -> Vec<u8> {
    let picture = image::RgbaImage::from_raw(width, height, rgba).unwrap();
    let mut encoded = std::io::Cursor::new(Vec::new());
    picture.write_to(&mut encoded, image::ImageFormat::Png).unwrap();
    encoded.into_inner()
}

fn cache() -> ImageManager {
    let mut rgba = Vec::new();
    for i in 0..(45 * 45 * 4) {
        rgba.push((i % 251) as u8);
    }
    ImageManager::new(&png_of(45, 45, rgba)).unwrap()
}

#[test]
fn default_request_is_two_default_cells_each_way() {
    assert_eq!(DEFAULT_PIECE_SIZE, 200);
    assert_eq!(default_size_request(), (400, 400));
}

#[test]
fn colour_channels_in_hundredths() {
    assert_eq!(CellColor::NavajoWhite.rgba_percent(), (100, 96, 86, 100));
    assert_eq!(CellColor::Peru.rgba_percent(), (80, 52, 25, 100));
    assert_eq!(CellColor::Red.rgba_percent(), (100, 0, 0, 45));
    assert_eq!(CellColor::Green.rgba_percent(), (0, 100, 0, 45));
}

#[test]
fn checkerboard_is_light_where_row_plus_column_is_even() {
    assert_eq!(cell_color(0, 0, None, None), CellColor::NavajoWhite);
    assert_eq!(cell_color(0, 1, None, None), CellColor::Peru);
    assert_eq!(cell_color(1, 0, None, None), CellColor::Peru);
    assert_eq!(cell_color(1, 1, None, None), CellColor::NavajoWhite);
    assert_eq!(cell_color(255, 255, None, None), CellColor::NavajoWhite);
    assert_eq!(cell_color(255, 0, None, None), CellColor::Peru);
}

#[test]
fn drag_start_and_hover_override_the_checkerboard() {
    assert_eq!(cell_color(0, 0, Some((0, 0)), None), CellColor::Red);
    assert_eq!(cell_color(0, 1, Some((0, 0)), None), CellColor::Peru);
    assert_eq!(cell_color(1, 1, None, Some((1, 1))), CellColor::Green);
    assert_eq!(cell_color(1, 0, Some((0, 1)), Some((1, 1))), CellColor::Peru);
}

#[test]
fn hover_wins_over_drag_start_on_the_same_cell() {
    assert_eq!(cell_color(1, 0, Some((1, 0)), Some((1, 0))), CellColor::Green);
}

#[test]
fn single_cell_is_described_as_given() {
    assert_eq!(
        draw_single_cell(3, 4, 5, CellColor::Peru),
        CellFill { x: 3, y: 4, size: 5, color: CellColor::Peru }
    );
}

#[test]
fn cells_come_row_by_row() {
    let fills = draw_cells(150, None, None);
    assert_eq!(
        fills,
        vec![
            CellFill { x: 0, y: 0, size: 150, color: CellColor::NavajoWhite },
            CellFill { x: 150, y: 0, size: 150, color: CellColor::Peru },
            CellFill { x: 0, y: 150, size: 150, color: CellColor::Peru },
            CellFill { x: 150, y: 150, size: 150, color: CellColor::NavajoWhite },
        ]
    );
}

#[test]
fn both_highlights_show_on_different_cells() {
    let fills = draw_cells(10, Some((0, 1)), Some((1, 0)));
    let colors: Vec<CellColor> = fills.iter().map(|f| f.color).collect();
    assert_eq!(
        colors,
        vec![CellColor::NavajoWhite, CellColor::Red, CellColor::Green, CellColor::NavajoWhite]
    );
}

#[test]
fn cells_of_the_largest_size_do_not_wrap() {
    let fills = draw_cells(u32::MAX, None, None);
    assert_eq!(fills[3].x, u32::MAX as u64);
    assert_eq!(fills[3].y, u32::MAX as u64);
    assert_eq!(fills[0].size, u32::MAX);
}

#[test]
fn cells_without_extent() {
    let fills = draw_cells(0, Some((7, 7)), None);
    assert_eq!(fills.len(), 4);
    for fill in fills {
        assert_eq!((fill.x, fill.y, fill.size), (0, 0, 0));
        assert_ne!(fill.color, CellColor::Red);
    }
}

#[test]
fn piece_goes_to_the_corner_of_its_cell() {
    let cache = cache();
    let blit = draw_piece(&cache, (1, 0), 150);
    assert_eq!((blit.x, blit.y), (0, 150));
    assert_eq!(blit.image, cache.get_image_clone());
    let blit = draw_piece(&cache, (0, 1), 150);
    assert_eq!((blit.x, blit.y), (150, 0));
    let far = draw_piece(&cache, (255, 255), u32::MAX);
    assert_eq!(far.x, 255 * (u32::MAX as u64));
    assert_eq!(far.y, 255 * (u32::MAX as u64));
}

#[test]
fn frame_uses_half_of_the_smaller_dimension() {
    let cache = cache();
    let frame = draw_content(401, 300, &cache, Some((1, 1)), None, None);
    assert_eq!(frame.fills, draw_cells(150, None, None));
    let piece = frame.piece.unwrap();
    assert_eq!((piece.x, piece.y), (150, 150));
    assert_eq!(piece.image, cache.get_image_clone());
}

#[test]
fn frame_without_a_piece_location_has_no_piece() {
    let frame = draw_content(400, 400, &cache(), None, Some((0, 0)), Some((0, 1)));
    assert_eq!(frame.piece, None);
    assert_eq!(frame.fills, draw_cells(200, Some((0, 0)), Some((0, 1))));
}

#[test]
fn frame_of_a_degenerate_area() {
    let frame = draw_content(-3, 400, &cache(), Some((0, 1)), None, None);
    assert_eq!(frame.fills, draw_cells(0, None, None));
    let piece = frame.piece.unwrap();
    assert_eq!((piece.x, piece.y), (0, 0));
}

#[test]
fn board_is_painted_with_its_piece_at_rest() {
    let mut board = Board::new(cache());
    board.on_resize(400, 400);
    let frame = board.on_paint(300, 200);
    assert_eq!(frame.fills, draw_cells(100, None, None));
    let piece = frame.piece.unwrap();
    assert_eq!((piece.x, piece.y), (0, 0));
    assert_eq!(piece.image, board.image_manager().get_image_clone());
}

#[test]
fn board_is_painted_without_its_piece_during_a_drag() {
    let mut board = Board::new(cache());
    board.on_resize(400, 400);
    let payload = board.on_drag_prepare(10, 10).unwrap();
    board.on_drag_motion(250, 250);
    let frame = board.on_paint(400, 400);
    assert_eq!(frame.piece, None);
    assert_eq!(frame.fills, draw_cells(200, Some((0, 0)), Some((1, 1))));
    assert_eq!(frame.fills[0].color, CellColor::Red);
    assert_eq!(frame.fills[3].color, CellColor::Green);
    board.on_drop(250, 250, &payload);
    let frame = board.on_paint(400, 400);
    assert_eq!(frame.fills, draw_cells(200, None, None));
    let piece = frame.piece.unwrap();
    assert_eq!((piece.x, piece.y), (200, 200));
}

#[test]
fn painting_does_not_change_the_board() {
    let mut board = Board::new(cache());
    board.on_resize(400, 400);
    board.on_drag_prepare(10, 10);
    let before = board.clone();
    board.on_paint(123, 456);
    assert_eq!(board, before);
    assert_eq!(board.get_cell_size(), 200);
}
