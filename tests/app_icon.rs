use file_preview::app_icon::{decode_app_icon, icon_file_exists};

#[test]
fn test_icon_file_exists() {
    let exists = icon_file_exists();
    println!("Icon file exists: {}", exists);
}

#[test]
fn decode_app_icon_keeps_size() {
    let img = image::DynamicImage::ImageRgba8(image::RgbaImage::new(16, 24));
    let mut bytes: Vec<u8> = Vec::new();
    img.write_to(&mut std::io::Cursor::new(&mut bytes), image::ImageFormat::Png).unwrap();
    let icon = decode_app_icon(&bytes).expect("decodes");
    assert_eq!((icon.width, icon.height), (16, 24));
    assert_eq!(icon.rgba.len(), 16 * 24 * 4);
}

#[test]
fn decode_app_icon_rejects_garbage() {
    assert!(decode_app_icon(&[1, 2, 3, 4]).is_none());
}
