use simple_chess_dragging::image_manager::{CacheError, ImageManager};

const PNG_SIGNATURE: &[u8] = &[0x89, b'P', b'N', b'G', 0x0d, 0x0a, 0x1a, 0x0a];

fn png_of(width: u32, height: u32, rgba: Vec<u8>) -> Vec<u8> {
    let picture = image::RgbaImage::from_raw(width, height, rgba).unwrap();
    let mut encoded = std::io::Cursor::new(Vec::new());
    picture.write_to(&mut encoded, image::ImageFormat::Png).unwrap();
    encoded.into_inner()
}

fn refusal() -> image::ImageError {
    image::ImageError::IoError(std::io::Error::new(std::io::ErrorKind::Other, "foreign decoder"))
}

#[test]
fn decoder_registered_for_the_png_signature_is_not_asked() {
    image::hooks::register_decoding_hook("foreign".into(), Box::new(|_| Err(refusal())));
    image::hooks::register_decoding_hook("png".into(), Box::new(|_| Err(refusal())));
    image::hooks::register_format_detection_hook("foreign".into(), PNG_SIGNATURE, None);

    let pixels = vec![1, 2, 3, 4, 5, 6, 7, 8, 9, 10, 11, 12, 13, 14, 15, 16];
    let encoded = png_of(2, 2, pixels.clone());
    assert!(image::load_from_memory(&encoded).is_err());

    let cache = ImageManager::from_encoded(2, &encoded).unwrap();
    assert_eq!(cache.get_image_clone().into_raw(), pixels);
}

#[test]
fn decoder_registered_for_other_bytes_is_not_asked() {
    image::hooks::register_decoding_hook("plain".into(), Box::new(|_| Err(refusal())));
    image::hooks::register_format_detection_hook("plain".into(), b"PLAIN", None);
    assert_eq!(
        ImageManager::from_encoded(2, b"PLAIN bytes that are no image").err(),
        Some(CacheError::Undecodable)
    );
}
