//! Image preview pipeline of a desktop file browser: thumbnail generation,
//! memory-bounded caches, folder preloading and the single-file load
//! coordinator, together with the small pieces of browser state around it.

pub mod text;
pub mod keyed;
pub mod budget;
pub mod thumbnail;
pub mod paths;
pub mod preload;
pub mod caches;
pub mod folder;
pub mod preview;
pub mod summary;
pub mod utils;
pub mod help;
pub mod view;
pub mod create_operations;
pub mod file_operations;
pub mod directory_tree;
pub mod drive_bar;
pub mod app_icon;
pub mod history;
pub mod file_list;
