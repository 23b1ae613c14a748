use file_preview::thumbnail::{generate_thumbnail, thumbnail_size, DecodeError, MAX_SOURCE_BYTES};

fn png(w: u32, h: u32) -> Vec<u8> {
    let img = image::DynamicImage::ImageRgba8(image::RgbaImage::new(w, h));
    let mut bytes: Vec<u8> = Vec::new();
    img.write_to(&mut std::io::Cursor::new(&mut bytes), image::ImageFormat::Png).unwrap();
    bytes
}

fn jpeg(w: u32, h: u32) -> Vec<u8> {
    let img = image::DynamicImage::ImageRgb8(image::RgbImage::new(w, h));
    let mut bytes: Vec<u8> = Vec::new();
    img.write_to(&mut std::io::Cursor::new(&mut bytes), image::ImageFormat::Jpeg).unwrap();
    bytes
}

#[test]
fn thumbnail_size_scales_long_edge_to_400() {
    assert_eq!(thumbnail_size(2000, 1000), (400, 200));
    assert_eq!(thumbnail_size(1000, 2000), (200, 400));
    assert_eq!(thumbnail_size(401, 401), (400, 400));
    assert_eq!(thumbnail_size(1200, 900), (400, 300));
}

#[test]
fn thumbnail_size_keeps_small_images() {
    assert_eq!(thumbnail_size(300, 200), (300, 200));
    assert_eq!(thumbnail_size(400, 400), (400, 400));
    assert_eq!(thumbnail_size(0, 0), (0, 0));
}

#[test]
fn thumbnail_size_never_below_one_pixel() {
    assert_eq!(thumbnail_size(1, 1000), (1, 400));
    assert_eq!(thumbnail_size(5000, 2), (400, 1));
}

#[test]
fn generate_thumbnail_downscales_large_jpeg() {
    let t = generate_thumbnail(&jpeg(2000, 1000)).ok().expect("decodes");
    assert_eq!((t.width, t.height), (400, 200));
    assert_eq!(t.rgba.len(), 400 * 200 * 4);
}

#[test]
fn generate_thumbnail_keeps_small_png() {
    let t = generate_thumbnail(&png(30, 20)).ok().expect("decodes");
    assert_eq!((t.width, t.height), (30, 20));
    assert_eq!(t.rgba.len(), 30 * 20 * 4);
}

#[test]
fn generate_thumbnail_reports_corrupt_bytes() {
    let mut truncated = png(50, 50);
    truncated.truncate(40);
    match generate_thumbnail(&truncated) {
        Err(DecodeError::Corrupt(m)) => assert!(!m.is_empty()),
        Err(DecodeError::LimitExceeded(m)) => assert!(!m.is_empty()),
        _ => panic!("expected a decode error"),
    }
    match generate_thumbnail(b"not an image at all") {
        Err(DecodeError::Corrupt(m)) => assert!(!m.is_empty()),
        _ => panic!("expected a decode error"),
    }
}

#[test]
fn generate_thumbnail_refuses_oversized_source() {
    let big = vec![0u8; MAX_SOURCE_BYTES + 1];
    match generate_thumbnail(&big) {
        Err(DecodeError::TooLarge { size }) => assert_eq!(size, MAX_SOURCE_BYTES + 1),
        _ => panic!("expected TooLarge"),
    }
}
