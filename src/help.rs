use vstd::prelude::*;

verus! {

/// Whether the "about" dialog is open.
pub struct HelpSystem {
    show_about_dialog: bool,
}

impl HelpSystem {
    pub closed spec fn showing(&self) -> bool {
        self.show_about_dialog
    }

    pub fn new() -> (r: HelpSystem)
        ensures
            !r.showing(),
    {
        HelpSystem { show_about_dialog: false }
    }

    /// Opens the dialog.
    pub fn show_about(&mut self)
        ensures
            final(self).showing(),
    {
        self.show_about_dialog = true;
    }

    /// Closes the dialog (its window was closed or confirmed).
    pub fn close_about(&mut self)
        ensures
            !final(self).showing(),
    {
        self.show_about_dialog = false;
    }

    pub fn is_about_dialog_showing(&self) -> (r: bool)
        ensures
            r == self.showing(),
    {
        self.show_about_dialog
    }
}

} // verus!
