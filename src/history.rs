use vstd::prelude::*;

verus! {

/// The back/forward history of visited folders.
pub struct NavigationHistory {
    entries: Vec<String>,
    pos: usize,
}

impl NavigationHistory {
    pub closed spec fn entries_view(&self) -> Seq<String> {
        self.entries@
    }

    pub closed spec fn position(&self) -> int {
        self.pos as int
    }

    /// There is a current entry.
    pub open spec fn wf(&self) -> bool {
        0 <= self.position() < self.entries_view().len()
    }

    /// A history holding only `start`.
    pub fn new(start: String) -> (r: NavigationHistory)
        ensures
            r.wf(),
            r.entries_view() == seq![start],
            r.position() == 0,
    {
        let mut entries: Vec<String> = Vec::new();
        entries.push(start);
        assert(entries@ =~= seq![start]);
        NavigationHistory { entries, pos: 0 }
    }

    /// The folder currently shown.
    pub fn current(&self) -> (r: &String)
        requires
            self.wf(),
        ensures
            *r == self.entries_view()[self.position()],
    {
        &self.entries[self.pos]
    }

    /// Records a visit to `path`: the forward entries are dropped and `path`
    /// becomes the current, last entry.
    pub fn push_history(&mut self, path: String)
        requires
            old(self).wf(),
        ensures
            final(self).wf(),
            final(self).entries_view() == old(self).entries_view().take(old(self).position() + 1).push(
                path,
            ),
            final(self).position() == old(self).position() + 1,
    {
        if self.pos < self.entries.len() - 1 {
            self.entries.truncate(self.pos + 1);
        }
        assert(self.entries@ =~= old(self).entries@.take(self.pos + 1));
        self.entries.push(path);
        self.pos = self.entries.len() - 1;
    }

    pub fn can_go_back(&self) -> (r: bool)
        ensures
            r == (self.position() > 0),
    {
        self.pos > 0
    }

    pub fn can_go_forward(&self) -> (r: bool)
        requires
            self.wf(),
        ensures
            r == (self.position() + 1 < self.entries_view().len()),
    {
        self.pos < self.entries.len() - 1
    }

    /// Steps back, returning the folder to show, if there is an earlier one.
    pub fn go_back(&mut self) -> (r: Option<String>)
        requires
            old(self).wf(),
        ensures
            final(self).wf(),
            final(self).entries_view() == old(self).entries_view(),
            old(self).position() > 0 ==> final(self).position() == old(self).position() - 1 && r
                == Some(old(self).entries_view()[old(self).position() - 1]),
            old(self).position() == 0 ==> final(self).position() == 0 && r is None,
    {
        if self.can_go_back() {
            self.pos = self.pos - 1;
            Some(self.entries[self.pos].clone())
        } else {
            None
        }
    }

    /// Steps forward, returning the folder to show, if there is a later one.
    pub fn go_forward(&mut self) -> (r: Option<String>)
        requires
            old(self).wf(),
        ensures
            final(self).wf(),
            final(self).entries_view() == old(self).entries_view(),
            old(self).position() + 1 < old(self).entries_view().len() ==> final(self).position()
                == old(self).position() + 1 && r == Some(
                old(self).entries_view()[old(self).position() + 1],
            ),
            old(self).position() + 1 >= old(self).entries_view().len() ==> final(self).position()
                == old(self).position() && r is None,
    {
        let n = self.entries.len();
        if self.can_go_forward() {
            assert(self.pos + 1 < n);
            self.pos = self.pos + 1;
            Some(self.entries[self.pos].clone())
        } else {
            None
        }
    }
}

} // verus!
