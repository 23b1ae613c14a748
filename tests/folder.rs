use file_preview::folder::{preload_pacing, select_preload_paths};
use file_preview::paths::{classify, is_image_file, is_preload_image, PreviewKind};

#[test]
fn folder_preload_sends_exactly_the_images() {
    let listing: Vec<String> = ["a.jpg", "b.JPEG", "c.Png", "d.gif", "e.bmp", "f.webp", "g.txt", "h", ".png", "i.tar.gz"]
        .iter()
        .map(|n| format!("/f/{}", n))
        .collect();
    let sent = select_preload_paths(&listing);
    assert_eq!(sent, vec!["/f/a.jpg", "/f/b.JPEG", "/f/c.Png", "/f/d.gif", "/f/e.bmp"]);
    assert!(select_preload_paths(&Vec::new()).is_empty());
}

#[test]
fn preload_image_test_ignores_case() {
    assert!(is_preload_image("/x/A.JPG"));
    assert!(!is_preload_image("/x/a.webp"));
    assert!(is_image_file("/x/a.WEBP"));
    assert!(!is_image_file("/x/a.txt"));
    assert!(!is_image_file("/x/jpg"));
}

#[test]
fn classify_matches_extensions_in_any_case() {
    assert_eq!(classify("/x/a.rs", false), PreviewKind::Text);
    assert_eq!(classify("/x/a.md", false), PreviewKind::Text);
    assert_eq!(classify("/x/a.jpeg", false), PreviewKind::Image);
    assert_eq!(classify("/x/a.JPEG", false), PreviewKind::Image);
    assert_eq!(classify("/x/README.MD", false), PreviewKind::Text);
    assert_eq!(classify("/x/a.jpeg", true), PreviewKind::Folder);
    assert_eq!(classify("/x/Makefile", false), PreviewKind::Unsupported);
}

#[test]
fn pacing_slows_down_for_large_folders() {
    assert_eq!(preload_pacing(0), (20, 1));
    assert_eq!(preload_pacing(100), (20, 1));
    assert_eq!(preload_pacing(101), (10, 5));
    assert_eq!(preload_pacing(500), (10, 5));
    assert_eq!(preload_pacing(501), (5, 10));
}
