use simple_chess_dragging::board::Board;
use simple_chess_dragging::image_manager::{ImageManager, START_SIZE};

const DRAWING: &[u8] = b"<svg xmlns=\"http://www.w3.org/2000/svg\" width=\"45\" height=\"45\">\
<rect x=\"0\" y=\"0\" width=\"45\" height=\"45\" fill=\"#ff0000\"/>\
</svg>";

fn rasterize(size: u32) -> Vec<u8> {
    let mut options = resvg::usvg::Options::default();
    options.resources_dir = None;
    let tree = resvg::usvg::Tree::from_data(DRAWING, &options).unwrap();
    let drawn = tree.size();
    let target = resvg::usvg::Size::from_wh(size as f32, size as f32).unwrap();
    let scale_x = target.width() / drawn.width();
    let scale_y = target.height() / drawn.height();
    let mut pixmap = resvg::tiny_skia::Pixmap::new(size, size).unwrap();
    let transform = resvg::usvg::Transform::from_scale(scale_x, scale_y);
    resvg::render(&tree, transform, &mut pixmap.as_mut());
    pixmap.encode_png().unwrap()
}

#[test]
fn rasterized_drawing_fills_the_cache() {
    let cache = ImageManager::new(&rasterize(START_SIZE)).unwrap();
    assert_eq!(cache.size(), 45);
    let image = cache.get_image_clone();
    assert_eq!((image.width(), image.height()), (45, 45));
    assert_eq!(image.rowstride(), 180);
    let pixels = image.pixels();
    assert_eq!(pixels.len(), 45 * 45 * 4);
    let middle = (22 * 45 + 22) * 4;
    assert_eq!(&pixels[middle..middle + 4], &[255, 0, 0, 255]);
}

#[test]
fn resize_then_rasterize_then_update() {
    let mut board = Board::new(ImageManager::new(&rasterize(START_SIZE)).unwrap());
    let wanted = board.on_resize(260, 130).unwrap();
    assert_eq!(wanted, 65);
    assert_eq!(board.update_image_size(wanted, &rasterize(wanted)), Ok(()));
    assert_eq!(board.image_manager().size(), 65);
    assert_eq!(board.drag_icon().image.width(), 65);
    assert_eq!(board.on_resize(130, 260), None);
    let piece = board.on_paint(130, 260).piece.unwrap();
    assert_eq!(piece.image.pixels().len(), 65 * 65 * 4);
}
