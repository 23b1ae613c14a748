use file_preview::create_operations::{generate_default_folder_name, CreateOperationResult, CreateOperations};
use file_preview::file_operations::{FileOperationResult, FileOperations, OperationType};
use file_preview::help::HelpSystem;
use file_preview::view::{IconSize, MouseDoubleClickStrategy};

fn names(v: &[&str]) -> Vec<String> {
    v.iter().map(|s| s.to_string()).collect()
}

#[test]
fn folder_name_validation() {
    let ops = CreateOperations::new();
    assert_eq!(ops.validate_folder_name(""), Err("文件夹名称不能为空".to_string()));
    assert_eq!(ops.validate_folder_name(&"a".repeat(256)), Err("文件夹名称过长（最多255个字符）".to_string()));
    assert_eq!(ops.validate_folder_name(&"a".repeat(255)), Ok(()));
    assert_eq!(ops.validate_folder_name("a/b"), Err("文件夹名称包含非法字符".to_string()));
    assert_eq!(ops.validate_folder_name("photos"), Ok(()));
    assert!(ops.contains_invalid_chars("x/"));
    assert!(!ops.contains_invalid_chars("x\\y"));
    assert_eq!(ops.get_last_error(), None);
}

#[test]
fn default_folder_names() {
    assert_eq!(generate_default_folder_name(&names(&[])), "新建文件夹");
    assert_eq!(generate_default_folder_name(&names(&["新建文件夹"])), "新建文件夹 1");
    assert_eq!(generate_default_folder_name(&names(&["新建文件夹", "新建文件夹 1", "新建文件夹 3"])), "新建文件夹 2");
}

#[test]
fn unique_folder_names() {
    let ops = CreateOperations::new();
    assert_eq!(ops.generate_unique_folder_name(&names(&["a"]), "b"), "b");
    assert_eq!(ops.generate_unique_folder_name(&names(&["b", "b (1)"]), "b"), "b (2)");
}

#[test]
fn clipboard_copy_and_cut() {
    let mut ops = FileOperations::new();
    assert!(!ops.has_clipboard_content());
    assert_eq!(ops.get_clipboard_description(), None);
    match ops.paste_from_clipboard(None) {
        FileOperationResult::Error(m) => assert_eq!(m, "剪贴板为空"),
        _ => panic!("expected an error"),
    }
    ops.copy_to_clipboard(names(&["/a", "/b", "/c"]));
    assert_eq!(ops.get_clipboard_description(), Some("复制 3 个项目".to_string()));
    assert!(matches!(ops.paste_from_clipboard(None), FileOperationResult::Success));
    assert!(ops.has_clipboard_content());
    match ops.paste_from_clipboard(Some("disk full".to_string())) {
        FileOperationResult::Error(m) => assert_eq!(m, "复制失败: disk full"),
        _ => panic!("expected an error"),
    }
    ops.cut_to_clipboard(names(&["/a"]));
    assert_eq!(ops.clipboard().unwrap().operation, OperationType::Cut);
    assert_eq!(ops.get_clipboard_description(), Some("剪切 1 个项目".to_string()));
    match ops.paste_from_clipboard(Some("busy".to_string())) {
        FileOperationResult::Error(m) => assert_eq!(m, "移动失败: busy"),
        _ => panic!("expected an error"),
    }
    assert!(ops.has_clipboard_content());
    assert!(matches!(ops.paste_from_clipboard(None), FileOperationResult::Success));
    assert!(!ops.has_clipboard_content());
    assert_eq!(ops.get_last_error(), None);
}

#[test]
fn delete_asks_for_confirmation() {
    let ops = FileOperations::new();
    match ops.delete_files(&Vec::new()) {
        FileOperationResult::Error(m) => assert_eq!(m, "没有选择要删除的文件"),
        _ => panic!("expected an error"),
    }
    match ops.delete_files(&names(&["/home/u/notes.txt"])) {
        FileOperationResult::NeedsConfirmation(m) => assert_eq!(m, "确定要删除 \"notes.txt\" 吗？"),
        _ => panic!("expected a confirmation"),
    }
    match ops.delete_files(&names(&["/a", "/b"])) {
        FileOperationResult::NeedsConfirmation(m) => assert_eq!(m, "确定要删除这 2 个项目吗？"),
        _ => panic!("expected a confirmation"),
    }
    match ops.confirm_delete(Some("denied".to_string())) {
        FileOperationResult::Error(m) => assert_eq!(m, "删除失败: denied"),
        _ => panic!("expected an error"),
    }
    assert!(matches!(ops.confirm_delete(None), FileOperationResult::Success));
}

#[test]
fn about_dialog_toggles() {
    let mut help = HelpSystem::new();
    assert!(!help.is_about_dialog_showing());
    help.show_about();
    assert!(help.is_about_dialog_showing());
    help.close_about();
    assert!(!help.is_about_dialog_showing());
}

#[test]
fn double_click_opens_files_only() {
    let s = MouseDoubleClickStrategy::new();
    assert!(s.should_open(false));
    assert!(!s.should_open(true));
    assert_eq!(IconSize::Small.pixels(), 32);
    assert_eq!(IconSize::Large.pixels(), 64);
}

#[test]
fn unique_copy_names() {
    let ops = FileOperations::new();
    assert_eq!(ops.generate_unique_name(&names(&["b.txt"]), "a", Some("txt")), Some("a.txt".to_string()));
    assert_eq!(ops.generate_unique_name(&names(&["a.txt", "a_1.txt"]), "a", Some("txt")), Some("a_2.txt".to_string()));
    assert_eq!(ops.generate_unique_name(&names(&["a", "a_1"]), "a", None), Some("a_2".to_string()));
}

#[test]
fn create_folder_checks() {
    let ops = CreateOperations::new();
    let msg = |r: Option<CreateOperationResult>| match r {
        Some(CreateOperationResult::Error(m)) => Some(m),
        Some(_) => Some("other".to_string()),
        None => None,
    };
    assert_eq!(msg(ops.create_folder("", false)), Some("文件夹名称不能为空".to_string()));
    assert_eq!(msg(ops.create_folder("a/b", false)), Some("文件夹名称包含非法字符".to_string()));
    assert_eq!(msg(ops.create_folder("a", true)), Some("文件夹已存在".to_string()));
    assert_eq!(msg(ops.create_folder("a", false)), None);
    match ops.folder_created(Some("denied".to_string())) {
        CreateOperationResult::Error(m) => assert_eq!(m, "创建文件夹失败: denied"),
        _ => panic!("expected an error"),
    }
    assert!(matches!(ops.folder_created(None), CreateOperationResult::Success));
}

#[test]
fn rename_checks() {
    let ops = FileOperations::new();
    let msg = |r: Option<FileOperationResult>| match r {
        Some(FileOperationResult::Error(m)) => Some(m),
        Some(_) => Some("other".to_string()),
        None => None,
    };
    assert_eq!(msg(ops.rename_file("", false)), Some("文件名不能为空".to_string()));
    assert_eq!(msg(ops.rename_file("x/y", false)), Some("文件名包含非法字符".to_string()));
    assert_eq!(msg(ops.rename_file("y", true)), Some("目标文件已存在".to_string()));
    assert_eq!(msg(ops.rename_file("y", false)), None);
    match ops.renamed(Some("busy".to_string())) {
        FileOperationResult::Error(m) => assert_eq!(m, "重命名失败: busy"),
        _ => panic!("expected an error"),
    }
}
