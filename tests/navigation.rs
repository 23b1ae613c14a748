use file_preview::directory_tree::{build_tree_node, DirectoryTree};
use file_preview::drive_bar::{common_mount_drive, mount_point_drive, root_drive, Drive, DriveBar};
use file_preview::history::NavigationHistory;

fn drive(path: &str) -> Drive {
    Drive { path: path.to_string(), name: path.to_string(), is_mounted: true }
}

#[test]
fn expand_to_path_expands_every_ancestor() {
    let mut tree = DirectoryTree::new();
    tree.expand_to_path("/a/b/c");
    assert!(tree.is_expanded("/a/b"));
    assert!(tree.is_expanded("/a"));
    assert!(tree.is_expanded("/"));
    assert!(!tree.is_expanded("/a/b/c"));
    tree.ensure_path_loaded("/x/y");
    assert!(tree.is_expanded("/x"));
    assert!(tree.is_expanded("/a"));
}

#[test]
fn tree_node_lists_at_most_fifty_children() {
    let subdirs: Vec<(String, String)> = (0..60).map(|i| (format!("/r/{}", i), format!("{}", i))).collect();
    let node = build_tree_node("/r".to_string(), "r".to_string(), true, subdirs.clone());
    assert_eq!(node.children.len(), 50);
    assert_eq!(node.children[49].path, "/r/49");
    let file = build_tree_node("/r/f".to_string(), "f".to_string(), false, subdirs);
    assert!(file.children.is_empty());
    let mut tree = DirectoryTree::new();
    tree.refresh(node);
    assert_eq!(tree.roots_view().len(), 1);
}

#[test]
fn drive_root_is_first_matching_drive() {
    let bar = DriveBar::new(vec![drive("/"), drive("/home"), drive("/mnt/usb")]);
    assert_eq!(bar.find_drive_root("/home/u"), "/");
    let bar = DriveBar::new(vec![drive("/mnt/usb"), drive("/home")]);
    assert_eq!(bar.find_drive_root("/home/u/docs"), "/home");
    assert_eq!(bar.find_drive_root("/homework"), "/");
    assert_eq!(bar.find_drive_root("/mnt/usb/x"), "/mnt/usb");
}

#[test]
fn workspace_paths_are_saved_per_drive() {
    let mut bar = DriveBar::new(vec![drive("/home"), drive("/mnt/usb")]);
    let here = "/home/u/docs".to_string();
    bar.save_workspace_state(&here, &"/home/u".to_string(), &vec![here.clone()], 0);
    assert_eq!(bar.saved_path("/home").map(|s| s.as_str()), Some("/home/u/docs"));
    // switching to the usb drive saves where we were and opens its root
    let next = bar.switch_drive(&"/home/u/music".to_string(), 1);
    assert_eq!(next, "/mnt/usb");
    assert_eq!(bar.saved_path("/home").map(|s| s.as_str()), Some("/home/u/music"));
    // and back again restores it
    let back = bar.switch_drive(&"/mnt/usb/photos".to_string(), 0);
    assert_eq!(back, "/home/u/music");
    assert_eq!(bar.saved_path("/mnt/usb").map(|s| s.as_str()), Some("/mnt/usb/photos"));
}

#[test]
fn drive_constructors() {
    let root = root_drive();
    assert_eq!((root.path.as_str(), root.name.as_str()), ("/", "根目录 /"));
    assert_eq!(common_mount_drive("/home").name, "/home (用户目录)");
    assert_eq!(common_mount_drive("/srv").name, "/srv ");
    let usb = mount_point_drive("/media/usb").unwrap();
    assert_eq!((usb.path.as_str(), usb.name.as_str()), ("/media/usb", "usb"));
    assert!(mount_point_drive("/").is_none());
}

#[test]
fn history_back_and_forward() {
    let mut h = NavigationHistory::new("/a".to_string());
    assert!(!h.can_go_back());
    assert_eq!(h.go_back(), None);
    h.push_history("/b".to_string());
    h.push_history("/c".to_string());
    assert_eq!(h.current(), "/c");
    assert_eq!(h.go_back(), Some("/b".to_string()));
    assert!(h.can_go_forward());
    // a new visit drops the forward entries
    h.push_history("/d".to_string());
    assert!(!h.can_go_forward());
    assert_eq!(h.go_forward(), None);
    assert_eq!(h.go_back(), Some("/b".to_string()));
    assert_eq!(h.go_back(), Some("/a".to_string()));
    assert_eq!(h.go_forward(), Some("/b".to_string()));
    assert_eq!(h.go_forward(), Some("/d".to_string()));
}
