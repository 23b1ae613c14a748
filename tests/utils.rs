use file_preview::utils::{get_file_icon, get_file_size_str, is_hidden_file};

#[test]
fn file_size_in_bytes_below_one_kilobyte() {
    assert_eq!(get_file_size_str(0), "0 B");
    assert_eq!(get_file_size_str(512), "512 B");
    assert_eq!(get_file_size_str(1023), "1023 B");
}

#[test]
fn file_size_with_one_decimal() {
    assert_eq!(get_file_size_str(1024), "1.0 KB");
    assert_eq!(get_file_size_str(1536), "1.5 KB");
    assert_eq!(get_file_size_str(1048576), "1.0 MB");
    assert_eq!(get_file_size_str(5 * 1073741824), "5.0 GB");
    assert_eq!(get_file_size_str(1099511627776), "1.0 TB");
    assert_eq!(get_file_size_str(2048 * 1099511627776), "2048.0 TB");
    assert_eq!(get_file_size_str(10239), "10.0 KB");
}

#[test]
fn file_size_rounds_ties_to_even() {
    // 1.25 KB and 1.75 KB are exact ties
    assert_eq!(get_file_size_str(1280), format!("{:.1} KB", 1.25f64));
    assert_eq!(get_file_size_str(1792), format!("{:.1} KB", 1.75f64));
    assert_eq!(get_file_size_str(1126), format!("{:.1} KB", 1126f64 / 1024.0));
}

#[test]
fn file_icons_by_extension() {
    assert_eq!(get_file_icon("/x", true), "📁");
    assert_eq!(get_file_icon("/x/a.txt", false), "📄");
    assert_eq!(get_file_icon("/x/a.py", false), "📝");
    assert_eq!(get_file_icon("/x/a.png", false), "🖼️");
    assert_eq!(get_file_icon("/x/a.mkv", false), "🎬");
    assert_eq!(get_file_icon("/x/a.flac", false), "🎵");
    assert_eq!(get_file_icon("/x/a.pdf", false), "📕");
    assert_eq!(get_file_icon("/x/a.7z", false), "📦");
    assert_eq!(get_file_icon("/x/a.msi", false), "⚙️");
    assert_eq!(get_file_icon("/x/a.PNG", false), "📄");
    assert_eq!(get_file_icon("/x/a", false), "📄");
}

#[test]
fn hidden_files_start_with_a_dot() {
    assert!(is_hidden_file("/home/u/.bashrc"));
    assert!(is_hidden_file(".git"));
    assert!(!is_hidden_file("/home/.u/file"));
    assert!(!is_hidden_file("/"));
}
