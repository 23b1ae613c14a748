use vstd::prelude::*;

verus! {

/// How a file list is laid out.
#[derive(Clone, Copy, Debug, PartialEq, Eq, Structural)]
pub enum ViewMode {
    /// One row per file with its details.
    Details,
    LargeIcons,
    SmallIcons,
}

/// Icon sizes: small is 32 px, large 64 px.
#[derive(Clone, Copy, Debug, PartialEq, Eq, Structural)]
pub enum IconSize {
    Small,
    Large,
}

impl IconSize {
    pub open spec fn spec_pixels(self) -> u32 {
        match self {
            IconSize::Small => 32,
            IconSize::Large => 64,
        }
    }

    pub fn pixels(self) -> (r: u32)
        ensures
            r == self.spec_pixels(),
    {
        match self {
            IconSize::Small => 32,
            IconSize::Large => 64,
        }
    }
}

/// Opening files on double click: folders are left to navigation, files are
/// handed to the system's default program.
pub struct MouseDoubleClickStrategy;

impl MouseDoubleClickStrategy {
    pub fn new() -> (r: MouseDoubleClickStrategy) {
        MouseDoubleClickStrategy
    }

    /// Whether a double click on an entry should open it with the default
    /// program: only files are opened this way.
    pub fn should_open(&self, is_dir: bool) -> (r: bool)
        ensures
            r == !is_dir,
    {
        !is_dir
    }
}

} // verus!
