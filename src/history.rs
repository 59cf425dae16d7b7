use vstd::prelude::*;

verus! {

/// The abstract state of an edit history: two stacks of full-content
/// snapshots, most recent last.
pub struct HistoryView {
    pub undo: Seq<Seq<char>>,
    pub redo: Seq<Seq<char>>,
}

/// Linear undo/redo history over full-content snapshots.
pub struct History {
    undo_stack: Vec<String>,
    redo_stack: Vec<String>,
}

pub open spec fn snapshots(v: Seq<String>) -> Seq<Seq<char>> {
    v.map_values(|s: String| s@)
}

/// Recording an edit pushes the new snapshot and drops the redo branch.
pub open spec fn record_spec(h: HistoryView, c: Seq<char>) -> HistoryView {
    HistoryView { undo: h.undo.push(c), redo: Seq::empty() }
}

/// One step back: needs at least two snapshots; the top one moves to the
/// redo stack.
pub open spec fn undo_spec(h: HistoryView) -> HistoryView {
    if h.undo.len() < 2 {
        h
    } else {
        HistoryView { undo: h.undo.drop_last(), redo: h.redo.push(h.undo.last()) }
    }
}

/// One step forward: the top of the redo stack moves back to the undo stack.
pub open spec fn redo_spec(h: HistoryView) -> HistoryView {
    if h.redo.len() == 0 {
        h
    } else {
        HistoryView { undo: h.undo.push(h.redo.last()), redo: h.redo.drop_last() }
    }
}

impl View for History {
    type V = HistoryView;

    closed spec fn view(&self) -> HistoryView {
        HistoryView { undo: snapshots(self.undo_stack@), redo: snapshots(self.redo_stack@) }
    }
}

impl History {
    /// Whether the history holds its seed snapshot.
    pub open spec fn wf(&self) -> bool {
        self@.undo.len() >= 1
    }

    /// The snapshot that the current content is expected to equal.
    pub open spec fn current(&self) -> Seq<char> {
        self@.undo.last()
    }

    /// A history seeded with one snapshot and nothing to redo.
    pub fn new(initial: &str) -> (r: History)
        ensures
            r@.undo == seq![initial@],
            r@.redo == Seq::<Seq<char>>::empty(),
            r.wf(),
    {
        let mut undo_stack: Vec<String> = Vec::new();
        undo_stack.push(initial.to_string());
        let r = History { undo_stack, redo_stack: Vec::new() };
        assert(r@.undo =~= seq![initial@]);
        assert(r@.redo =~= Seq::<Seq<char>>::empty());
        r
    }

    /// Records `content` as the newest snapshot; the redo branch is lost.
    pub fn record_edit(&mut self, content: &str)
        ensures
            final(self)@ == record_spec(old(self)@, content@),
    {
        self.redo_stack.clear();
        self.undo_stack.push(content.to_string());
        assert(self@.undo =~= old(self)@.undo.push(content@));
        assert(self@.redo =~= Seq::<Seq<char>>::empty());
    }

    /// Steps back one snapshot. Returns the snapshot to restore, or `None`
    /// where only the seed snapshot is left.
    pub fn undo(&mut self) -> (r: Option<String>)
        ensures
            final(self)@ == undo_spec(old(self)@),
            old(self)@.undo.len() < 2 <==> r is None,
            r matches Some(c) ==> c@ == final(self)@.undo.last(),
    {
        if self.undo_stack.len() < 2 {
            return None;
        }
        let ghost u = self@.undo;
        let top = self.undo_stack.pop().unwrap();
        self.redo_stack.push(top);
        let n = self.undo_stack.len();
        let restored = self.undo_stack[n - 1].clone();
        assert(self@.undo =~= u.drop_last());
        assert(self@.redo =~= old(self)@.redo.push(u.last()));
        Some(restored)
    }

    /// Steps forward one snapshot. Returns the snapshot to restore, or
    /// `None` where nothing was undone since the last edit.
    pub fn redo(&mut self) -> (r: Option<String>)
        ensures
            final(self)@ == redo_spec(old(self)@),
            old(self)@.redo.len() == 0 <==> r is None,
            r matches Some(c) ==> c@ == final(self)@.undo.last(),
    {
        if self.redo_stack.len() == 0 {
            return None;
        }
        let ghost d = self@.redo;
        let top = self.redo_stack.pop().unwrap();
        let restored = top.clone();
        self.undo_stack.push(top);
        assert(self@.undo =~= old(self)@.undo.push(d.last()));
        assert(self@.redo =~= d.drop_last());
        Some(restored)
    }

    /// Drops every snapshot and seeds the history anew with `initial`.
    pub fn reset(&mut self, initial: &str)
        ensures
            final(self)@.undo == seq![initial@],
            final(self)@.redo == Seq::<Seq<char>>::empty(),
    {
        self.undo_stack.clear();
        self.redo_stack.clear();
        self.undo_stack.push(initial.to_string());
        assert(self@.undo =~= seq![initial@]);
        assert(self@.redo =~= Seq::<Seq<char>>::empty());
    }

    /// Number of snapshots that `undo` can step back over.
    pub fn undo_depth(&self) -> (r: usize)
        ensures
            r == self@.undo.len(),
    {
        self.undo_stack.len()
    }

    /// Number of snapshots that `redo` can step forward over.
    pub fn redo_depth(&self) -> (r: usize)
        ensures
            r == self@.redo.len(),
    {
        self.redo_stack.len()
    }
}

} // verus!
