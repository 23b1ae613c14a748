use file_preview::preview::{get_file_type, Preview};
use file_preview::summary::{summarize_folder, text_preview, FolderEntry};
use file_preview::preload::PreloadCache;
use file_preview::thumbnail::PixelBuffer;

fn entry(path: &str, is_dir: bool) -> FolderEntry {
    FolderEntry { path: path.to_string(), is_dir }
}

#[test]
fn text_preview_counts_lines() {
    assert_eq!(text_preview("a\nb\r\nc"), "文本预览 (3行):\n\na\nb\nc");
    assert_eq!(text_preview(""), "文本预览 (0行):\n\n");
}

#[test]
fn text_preview_shows_first_hundred_lines() {
    let content: Vec<String> = (0..150).map(|i| format!("l{}", i)).collect();
    let shown: Vec<String> = (0..100).map(|i| format!("l{}", i)).collect();
    assert_eq!(
        text_preview(&content.join("\n")),
        format!("文本预览 (前100行，共150行):\n\n{}", shown.join("\n"))
    );
}

#[test]
fn folder_summary_lists_folders_and_files() {
    let entries = vec![entry("/d/sub", true), entry("/d/a.jpg", false), entry("/d/b.txt", false), entry("/d/c.WEBP", false)];
    let p = summarize_folder(&entries);
    assert_eq!(p.content, "文件夹内容 (1 个文件夹, 3 个文件)\n\n📁 文件夹:\n  sub\n\n📄 文件:\n  a.jpg\n  b.txt\n  c.WEBP");
    assert_eq!(p.image_paths, vec!["/d/a.jpg".to_string(), "/d/c.WEBP".to_string()]);
}

#[test]
fn folder_summary_of_empty_folder() {
    assert_eq!(summarize_folder(&Vec::new()).content, "文件夹为空或无法读取");
}

#[test]
fn folder_summary_truncates_long_listings() {
    let entries: Vec<FolderEntry> = (0..130).map(|i| entry(&format!("/d/f{}.png", i), false)).collect();
    let p = summarize_folder(&entries);
    assert!(p.content.starts_with("文件夹内容 (0 个文件夹, 100 个文件)"));
    assert!(p.content.ends_with("  f19.png\n\n... 还有更多项目"));
    assert_eq!(p.image_paths.len(), 100);
}

#[test]
fn file_type_labels() {
    assert_eq!(get_file_type("/d", true), "文件夹");
    assert_eq!(get_file_type("/d/a.tar.gz", false), "GZ");
    assert_eq!(get_file_type("/d/README", false), "文件");
}

#[test]
fn text_and_folder_results_apply_to_current_file_only() {
    let upload = |_: &PixelBuffer| 0u64;
    let preload = PreloadCache::new(10);
    let mut p: Preview<u64> = Preview::with_main_cache_size(10);
    p.load_preview("/d/a.txt".to_string(), false, None, &preload, &upload);
    p.set_text_preview("/d/other.txt", Some("x".to_string()));
    assert_eq!(p.preview_content(), "");
    p.set_text_preview("/d/a.txt", Some("x".to_string()));
    assert_eq!(p.preview_content(), "文本预览 (1行):\n\nx");
    p.set_text_preview("/d/a.txt", None);
    assert_eq!(p.preview_content(), "无法读取文件内容");
    p.load_preview("/d".to_string(), true, None, &preload, &upload);
    p.set_folder_preview("/d", summarize_folder(&vec![entry("/d/a.png", false)]));
    assert_eq!(p.image_stream_paths(), &vec!["/d/a.png".to_string()]);
    let listing = vec!["/d/a.png".to_string(), "/d/b.txt".to_string(), "/d/C.JPG".to_string()];
    assert_eq!(p.preload_folder_images("/d".to_string(), &listing), vec!["/d/a.png".to_string(), "/d/C.JPG".to_string()]);
    p.request_delayed_preload("/e".to_string());
    assert_eq!(p.take_delayed_preload(), Some("/e".to_string()));
    assert_eq!(p.take_delayed_preload(), None);
}
