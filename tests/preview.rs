use std::cell::Cell;

use file_preview::folder::select_preload_paths;
use file_preview::preload::PreloadCache;
use file_preview::preview::{image_summary_text, load_image_in_background, LoadStep, LoadingResult, Preview};
use file_preview::thumbnail::{generate_thumbnail, PixelBuffer};

fn pixels(w: u32, h: u32) -> PixelBuffer {
    PixelBuffer { width: w, height: h, rgba: vec![0u8; (w * h * 4) as usize] }
}

fn decoded(path: &str, w: u32, h: u32, size: u64) -> LoadingResult {
    LoadingResult { file_path: path.to_string(), pixels: Some(pixels(w, h)), error: None, file_size: Some(size), last_modified: Some(1) }
}

fn png(w: u32, h: u32) -> Vec<u8> {
    let img = image::DynamicImage::ImageRgba8(image::RgbaImage::new(w, h));
    let mut bytes: Vec<u8> = Vec::new();
    img.write_to(&mut std::io::Cursor::new(&mut bytes), image::ImageFormat::Png).unwrap();
    bytes
}

fn jpeg(w: u32, h: u32) -> Vec<u8> {
    let img = image::DynamicImage::ImageRgb8(image::RgbImage::new(w, h));
    let mut bytes: Vec<u8> = Vec::new();
    img.write_to(&mut std::io::Cursor::new(&mut bytes), image::ImageFormat::Jpeg).unwrap();
    bytes
}

#[test]
fn repeated_request_starts_one_decode() {
    let uploads = Cell::new(0u64);
    let upload = |_: &PixelBuffer| {
        uploads.set(uploads.get() + 1);
        uploads.get()
    };
    let preload = PreloadCache::new(50);
    let mut p: Preview<u64> = Preview::with_main_cache_size(100);
    let mut decodes = 0;
    for _ in 0..2 {
        if p.load_preview("/d/p.png".to_string(), false, Some(10), &preload, &upload) == LoadStep::Decode {
            decodes += 1;
        }
    }
    assert_eq!(decodes, 1);
    assert!(p.is_loading());
    assert_eq!(p.preview_content(), "正在加载图片...");
    // the result arrives; the repeated request is then already satisfied
    assert_eq!(p.update(Some(decoded("/d/p.png", 40, 30, 10)), false, Some(10), &preload, &upload), LoadStep::Unchanged);
    assert!(!p.is_loading());
    assert!(p.image().is_some());
    assert_eq!(p.update(None, false, None, &preload, &upload), LoadStep::Unchanged);
    assert_eq!(uploads.get(), 1);
}

#[test]
fn later_request_supersedes_earlier() {
    let upload = |b: &PixelBuffer| b.width as u64;
    let preload = PreloadCache::new(50);
    let mut p: Preview<u64> = Preview::with_main_cache_size(100);
    assert_eq!(p.load_preview("/d/a.png".to_string(), false, Some(1), &preload, &upload), LoadStep::Decode);
    assert_eq!(p.load_preview("/d/b.png".to_string(), false, Some(2), &preload, &upload), LoadStep::Deferred);
    assert_eq!(p.pending_file().map(|s| s.as_str()), Some("/d/b.png"));
    // a resolves; b is requested at once and needs its own decode
    let step = p.update(Some(decoded("/d/a.png", 11, 11, 1)), false, Some(2), &preload, &upload);
    assert_eq!(step, LoadStep::Decode);
    assert_eq!(p.current_file().map(|s| s.as_str()), Some("/d/b.png"));
    assert!(p.image().is_none());
    assert_eq!(p.update(Some(decoded("/d/b.png", 22, 22, 2)), false, None, &preload, &upload), LoadStep::Unchanged);
    assert_eq!(p.current_file().map(|s| s.as_str()), Some("/d/b.png"));
    assert_eq!(p.image().unwrap().handle, 22);
}

#[test]
fn stale_result_is_discarded() {
    let upload = |b: &PixelBuffer| b.width as u64;
    let preload = PreloadCache::new(50);
    let mut p: Preview<u64> = Preview::with_main_cache_size(100);
    p.load_preview("/d/a.png".to_string(), false, Some(1), &preload, &upload);
    assert_eq!(p.update(Some(decoded("/d/other.png", 5, 5, 1)), false, None, &preload, &upload), LoadStep::Unchanged);
    assert!(!p.is_loading());
    assert!(p.image().is_none());
}

#[test]
fn cached_image_needs_no_second_decode() {
    let uploads = Cell::new(0u64);
    let upload = |_: &PixelBuffer| {
        uploads.set(uploads.get() + 1);
        uploads.get()
    };
    let preload = PreloadCache::new(50);
    let mut p: Preview<u64> = Preview::with_main_cache_size(100);
    assert_eq!(p.load_preview("/d/p.png".to_string(), false, Some(10), &preload, &upload), LoadStep::Decode);
    p.update(Some(decoded("/d/p.png", 40, 30, 10)), false, None, &preload, &upload);
    p.clear();
    assert!(p.current_file().is_none());
    assert_eq!(p.load_preview("/d/p.png".to_string(), false, Some(10), &preload, &upload), LoadStep::Shown);
    assert_eq!(p.image().unwrap().width, 40);
    assert_eq!(uploads.get(), 1);
    // a changed file size makes the entry stale
    p.clear();
    assert_eq!(p.load_preview("/d/p.png".to_string(), false, Some(20), &preload, &upload), LoadStep::Decode);
}

#[test]
fn preloaded_thumbnail_is_uploaded_once() {
    let uploads = Cell::new(0u64);
    let upload = |_: &PixelBuffer| {
        uploads.set(uploads.get() + 1);
        uploads.get()
    };
    let mut preload = PreloadCache::new(50);
    preload.insert("/d/t.jpg".to_string(), pixels(400, 200));
    let mut p: Preview<u64> = Preview::with_main_cache_size(100);
    assert_eq!(p.load_preview("/d/t.jpg".to_string(), false, None, &preload, &upload), LoadStep::Shown);
    assert_eq!(p.preview_content(), "图片预览\n\n尺寸: 400 x 200 像素\n格式: JPG");
    p.clear();
    assert_eq!(p.load_preview("/d/t.jpg".to_string(), false, None, &preload, &upload), LoadStep::Shown);
    assert_eq!(uploads.get(), 1);
}

#[test]
fn request_kinds() {
    let upload = |_: &PixelBuffer| 0u64;
    let preload = PreloadCache::new(50);
    let mut p: Preview<u64> = Preview::with_main_cache_size(100);
    assert_eq!(p.load_preview("/d".to_string(), true, None, &preload, &upload), LoadStep::Folder);
    assert_eq!(p.preview_content(), "正在加载文件夹内容...");
    assert_eq!(p.load_preview("/d/notes.txt".to_string(), false, None, &preload, &upload), LoadStep::Text);
    assert_eq!(p.load_preview("/d/a.bin".to_string(), false, None, &preload, &upload), LoadStep::Unsupported);
    assert_eq!(p.preview_content(), "此文件类型不支持预览");
    assert_eq!(p.load_preview("/d/a.bin".to_string(), false, None, &preload, &upload), LoadStep::Unchanged);
    // extensions are matched in any case
    assert_eq!(p.load_preview("/d/A.PNG".to_string(), false, None, &preload, &upload), LoadStep::Decode);
}

#[test]
fn failed_decode_shows_its_error() {
    let upload = |_: &PixelBuffer| 0u64;
    let preload = PreloadCache::new(50);
    let mut p: Preview<u64> = Preview::with_main_cache_size(100);
    p.load_preview("/d/c.png".to_string(), false, Some(3), &preload, &upload);
    let r = load_image_in_background("/d/c.png".to_string(), false, Ok(vec![1, 2, 3]), Some(3), Some(0));
    assert!(r.error.is_some());
    p.update(Some(r), false, None, &preload, &upload);
    assert!(p.image().is_none());
    assert!(p.preview_content().starts_with("无法加载图片: "));
    assert!(!p.is_loading());
}

#[test]
fn background_load_contains_errors() {
    let corrupt = load_image_in_background("/d/c.png".to_string(), false, Ok(b"\x89PNG broken".to_vec()), Some(11), Some(0));
    assert!(corrupt.pixels.is_none());
    assert!(corrupt.error.is_some());
    let good = load_image_in_background("/d/a.jpg".to_string(), false, Ok(jpeg(2000, 1000)), Some(9), Some(0));
    assert!(good.error.is_none());
    let b = good.pixels.unwrap();
    assert_eq!((b.width, b.height), (400, 200));
    let folder = load_image_in_background("/d".to_string(), true, Err(String::new()), Some(0), Some(0));
    assert_eq!(folder.error.as_deref(), Some("这是一个文件夹，不是图片文件"));
    let text = load_image_in_background("/d/a.txt".to_string(), false, Ok(vec![]), Some(0), Some(0));
    assert_eq!(text.error.as_deref(), Some("文件不是支持的图片格式"));
    let unread = load_image_in_background("/d/a.png".to_string(), false, Err("denied".to_string()), Some(0), Some(0));
    assert_eq!(unread.error.as_deref(), Some("无法读取文件: denied"));
}

#[test]
fn photos_folder_preload() {
    let listing = vec!["/photos/a.jpg".to_string(), "/photos/b.txt".to_string(), "/photos/c.png".to_string()];
    let sent = select_preload_paths(&listing);
    assert_eq!(sent, vec!["/photos/a.jpg".to_string(), "/photos/c.png".to_string()]);
    let mut cache = PreloadCache::new(50);
    for path in sent {
        let bytes = if path.ends_with("a.jpg") { jpeg(2000, 1000) } else { b"corrupt bytes".to_vec() };
        cache.store_result(path, generate_thumbnail(&bytes));
    }
    let a = cache.get("/photos/a.jpg").expect("a.jpg cached");
    assert_eq!((a.width, a.height), (400, 200));
    assert!(!cache.contains("/photos/b.txt"));
    assert!(!cache.contains("/photos/c.png"));
}

#[test]
fn image_summary_names_format() {
    assert_eq!(image_summary_text(12, 34, "/x/y.png"), "图片预览\n\n尺寸: 12 x 34 像素\n格式: PNG");
    assert_eq!(image_summary_text(1, 2, "/x/y"), "图片预览\n\n尺寸: 1 x 2 像素\n格式: 未知");
    let _ = png(1, 1);
}

#[test]
fn thumbnail_lookup_for_stream_and_grid() {
    let uploads = Cell::new(0u64);
    let upload = |_: &PixelBuffer| {
        uploads.set(uploads.get() + 1);
        uploads.get()
    };
    let mut preload = PreloadCache::new(10);
    let mut p: Preview<u64> = Preview::with_main_cache_size(10);
    assert!(p.should_request_thumbnail("/d/a.png", &preload));
    assert!(!p.should_request_thumbnail("/d/a.txt", &preload));
    preload.insert("/d/a.png".to_string(), pixels(8, 6));
    assert!(p.is_thumbnail_cached("/d/a.png", &preload));
    assert!(!p.should_request_thumbnail("/d/a.png", &preload));
    let t = p.get_cached_thumbnail(&"/d/a.png".to_string(), &preload, &upload).unwrap();
    assert_eq!((t.width, t.height), (8, 6));
    let again = p.get_cached_thumbnail(&"/d/a.png".to_string(), &preload, &upload).unwrap();
    assert_eq!(again.handle, t.handle);
    assert_eq!(uploads.get(), 1);
    assert!(p.get_cached_thumbnail(&"/d/b.png".to_string(), &preload, &upload).is_none());
    assert!(p.get_cached_image("/d/a.png", Some(1)).is_none());
}

#[test]
fn result_without_metadata_is_shown_but_not_cached() {
    let upload = |b: &PixelBuffer| b.width as u64;
    let preload = PreloadCache::new(10);
    let mut p: Preview<u64> = Preview::with_main_cache_size(10);
    p.load_preview("/d/p.png".to_string(), false, None, &preload, &upload);
    let mut r = decoded("/d/p.png", 7, 5, 0);
    r.file_size = None;
    p.update(Some(r), false, None, &preload, &upload);
    let t = p.image().unwrap();
    assert_eq!((t.width, t.height), (7, 5));
    p.clear();
    assert_eq!(p.load_preview("/d/p.png".to_string(), false, Some(0), &preload, &upload), LoadStep::Decode);
}

#[test]
fn cleanup_empties_every_cache() {
    let upload = |b: &PixelBuffer| b.width as u64;
    let mut preload = PreloadCache::new(10);
    preload.insert("/d/t.png".to_string(), pixels(3, 3));
    let mut p: Preview<u64> = Preview::with_main_cache_size(10);
    assert_eq!(p.load_preview("/d/t.png".to_string(), false, None, &preload, &upload), LoadStep::Shown);
    p.cleanup(&mut preload);
    assert_eq!(preload.len(), 0);
    assert_eq!(preload.capacity(), 10);
    assert!(!p.is_thumbnail_cached("/d/t.png", &preload));
}
