use vstd::prelude::*;

use crate::file_handling::Error;
use crate::history::{History, HistoryView, record_spec, undo_spec, redo_spec};

verus! {

/// A request to the session, from the user or from a finished file task.
pub enum Intent {
    /// The buffer now holds this text.
    Edit(String),
    /// Start an empty, unnamed document.
    New,
    /// Ask the user for a file to open.
    Open,
    /// A load finished: the path and the text read, or why it failed.
    FileOpened(Result<(String, String), Error>),
    /// Write the buffer to its path, asking for one if it has none.
    Save,
    /// A save finished: the path and the text written, or why it failed.
    FileSaved(Result<(String, String), Error>),
    Undo,
    Redo,
}

/// Work that the host runs on the session's behalf; its outcome comes back
/// as `Intent::FileOpened` or `Intent::FileSaved`.
pub enum Effect {
    Nothing,
    /// Show the open prompt, then load the chosen file.
    PickAndLoad,
    /// Load this path, with no prompt.
    Load(String),
    /// Write the text to the path; with no path, show the save prompt first.
    Save(Option<String>, String),
}

pub enum EffectView {
    Nothing,
    PickAndLoad,
    Load(Seq<char>),
    Save(Option<Seq<char>>, Seq<char>),
}

pub open spec fn opt_view(o: Option<String>) -> Option<Seq<char>> {
    match o {
        Some(s) => Some(s@),
        None => None,
    }
}

impl View for Effect {
    type V = EffectView;

    open spec fn view(&self) -> EffectView {
        match self {
            Effect::Nothing => EffectView::Nothing,
            Effect::PickAndLoad => EffectView::PickAndLoad,
            Effect::Load(p) => EffectView::Load(p@),
            Effect::Save(p, c) => EffectView::Save(opt_view(*p), c@),
        }
    }
}

/// The observable state of a session.
pub struct SessionView {
    pub path: Option<Seq<char>>,
    pub content: Seq<char>,
    pub dirty: bool,
    pub error: Option<Error>,
    /// The text last loaded from or written to `path`, if any.
    pub baseline: Option<Seq<char>>,
    pub history: HistoryView,
}

/// The session's invariant: the buffer is the newest snapshot, and a clean
/// buffer equals what was last loaded or saved.
pub open spec fn session_wf(s: SessionView) -> bool {
    &&& s.history.undo.len() >= 1
    &&& s.content == s.history.undo.last()
    &&& !s.dirty ==> s.baseline == Some(s.content)
}

pub open spec fn initial_session() -> SessionView {
    SessionView {
        path: None,
        content: Seq::empty(),
        dirty: true,
        error: None,
        baseline: None,
        history: HistoryView { undo: seq![Seq::empty()], redo: Seq::empty() },
    }
}

pub open spec fn edit_step(s: SessionView, c: Seq<char>) -> SessionView {
    SessionView {
        content: c,
        dirty: s.dirty || c != s.content,
        error: None,
        history: record_spec(s.history, c),
        ..s
    }
}

pub open spec fn new_step(s: SessionView) -> SessionView {
    SessionView {
        path: None,
        content: Seq::empty(),
        dirty: true,
        baseline: None,
        history: HistoryView { undo: seq![Seq::empty()], redo: Seq::empty() },
        ..s
    }
}

/// A finished load replaces path and buffer and reseeds the history; a
/// failed one only records the error.
pub open spec fn opened_step(s: SessionView, r: Result<(String, String), Error>) -> SessionView {
    match r {
        Ok((p, c)) => SessionView {
            path: Some(p@),
            content: c@,
            dirty: false,
            error: None,
            baseline: Some(c@),
            history: HistoryView { undo: seq![c@], redo: Seq::empty() },
        },
        Err(e) => SessionView { error: Some(e), ..s },
    }
}

/// A finished save binds the path and makes the written text the baseline;
/// the buffer stays dirty only if it changed while the save ran.
pub open spec fn saved_step(s: SessionView, r: Result<(String, String), Error>) -> SessionView {
    match r {
        Ok((p, c)) => SessionView {
            path: Some(p@),
            dirty: s.content != c@,
            error: None,
            baseline: Some(c@),
            ..s
        },
        Err(e) => SessionView { error: Some(e), ..s },
    }
}

/// Moves to a snapshot of the history without recording it.
pub open spec fn restore(s: SessionView, h: HistoryView) -> SessionView {
    SessionView {
        content: h.undo.last(),
        dirty: s.baseline != Some(h.undo.last()),
        history: h,
        ..s
    }
}

pub open spec fn undo_step(s: SessionView) -> SessionView {
    if s.history.undo.len() < 2 {
        s
    } else {
        restore(s, undo_spec(s.history))
    }
}

pub open spec fn redo_step(s: SessionView) -> SessionView {
    if s.history.redo.len() == 0 {
        s
    } else {
        restore(s, redo_spec(s.history))
    }
}

/// The session after one intent.
pub open spec fn step(s: SessionView, i: Intent) -> SessionView {
    match i {
        Intent::Edit(c) => edit_step(s, c@),
        Intent::New => new_step(s),
        Intent::Open => s,
        Intent::FileOpened(r) => opened_step(s, r),
        Intent::Save => s,
        Intent::FileSaved(r) => saved_step(s, r),
        Intent::Undo => undo_step(s),
        Intent::Redo => redo_step(s),
    }
}

/// The work that one intent hands to the host.
pub open spec fn effect_of(s: SessionView, i: Intent) -> EffectView {
    match i {
        Intent::Open => EffectView::PickAndLoad,
        Intent::Save => EffectView::Save(s.path, s.content),
        _ => EffectView::Nothing,
    }
}

/// A document session: buffer, path, dirty flag, last error and history.
pub struct Editor {
    path: Option<String>,
    content: String,
    error: Option<Error>,
    is_dirty: bool,
    baseline: Option<String>,
    history: History,
}

impl View for Editor {
    type V = SessionView;

    closed spec fn view(&self) -> SessionView {
        SessionView {
            path: opt_view(self.path),
            content: self.content@,
            dirty: self.is_dirty,
            error: self.error,
            baseline: opt_view(self.baseline),
            history: self.history@,
        }
    }
}

fn clone_opt(o: &Option<String>) -> (r: Option<String>)
    ensures
        opt_view(r) == opt_view(*o),
{
    match o {
        Some(s) => Some(s.clone()),
        None => None,
    }
}

impl Editor {
    pub open spec fn wf(&self) -> bool {
        session_wf(self@)
    }

    /// A fresh session with an empty buffer, and the request to load
    /// `default_path` into it.
    pub fn new(default_path: String) -> (r: (Editor, Effect))
        ensures
            r.0@ == initial_session(),
            r.0.wf(),
            r.1@ == EffectView::Load(default_path@),
    {
        let mut editor = Editor {
            path: None,
            content: String::new(),
            error: None,
            is_dirty: true,
            baseline: None,
            history: History::new(""),
        };
        editor.initialize_history(String::new());
        assert(editor@.history.undo =~= seq![Seq::<char>::empty()]);
        (editor, Effect::Load(default_path))
    }

    /// Replaces the buffer by `content` and reseeds the history with it.
    fn initialize_history(&mut self, content: String)
        ensures
            final(self)@ == (SessionView {
                content: content@,
                history: HistoryView { undo: seq![content@], redo: Seq::empty() },
                ..old(self)@
            }),
    {
        self.history.reset(content.as_str());
        self.content = content;
    }

    fn save_to_history(&mut self, content: &str)
        ensures
            final(self)@ == (SessionView { history: record_spec(old(self)@.history, content@), ..old(self)@ }),
    {
        self.history.record_edit(content);
    }

    /// Shows a snapshot taken from the history; the dirty flag is compared
    /// anew against the baseline.
    fn apply_content(&mut self, content: String)
        ensures
            final(self)@ == (SessionView {
                content: content@,
                dirty: old(self)@.baseline != Some(content@),
                ..old(self)@
            }),
    {
        let clean = match &self.baseline {
            Some(b) => *b == content,
            None => false,
        };
        self.is_dirty = !clean;
        self.content = content;
    }

    /// Steps the buffer back one snapshot; a no-op at the seed snapshot.
    pub fn undo(&mut self)
        requires
            old(self).wf(),
        ensures
            final(self)@ == undo_step(old(self)@),
            final(self).wf(),
    {
        match self.history.undo() {
            Some(c) => self.apply_content(c),
            None => {},
        }
    }

    /// Steps the buffer forward one snapshot; a no-op when nothing was
    /// undone since the last edit.
    pub fn redo(&mut self)
        requires
            old(self).wf(),
        ensures
            final(self)@ == redo_step(old(self)@),
            final(self).wf(),
    {
        match self.history.redo() {
            Some(c) => self.apply_content(c),
            None => {},
        }
    }

    fn set_error(&mut self, e: Error)
        ensures
            final(self)@ == (SessionView { error: Some(e), ..old(self)@ }),
    {
        self.error = Some(e);
    }

    /// Applies one intent and returns the work that the host must start.
    /// Results of that work come back later as intents of their own, in the
    /// order in which they finish.
    pub fn update(&mut self, intent: Intent) -> (r: Effect)
        requires
            old(self).wf(),
        ensures
            final(self)@ == step(old(self)@, intent),
            r@ == effect_of(old(self)@, intent),
            final(self).wf(),
    {
        match intent {
            Intent::Edit(c) => {
                let changed = !(self.content == c);
                self.is_dirty = self.is_dirty || changed;
                self.error = None;
                self.save_to_history(c.as_str());
                self.content = c;
                Effect::Nothing
            },
            Intent::New => {
                self.path = None;
                self.is_dirty = true;
                self.baseline = None;
                self.initialize_history(String::new());
                assert(self@.history.undo =~= seq![Seq::<char>::empty()]);
                Effect::Nothing
            },
            Intent::Open => Effect::PickAndLoad,
            Intent::FileOpened(Ok((p, c))) => {
                self.path = Some(p);
                self.is_dirty = false;
                self.error = None;
                self.baseline = Some(c.clone());
                self.initialize_history(c);
                Effect::Nothing
            },
            Intent::FileOpened(Err(e)) => {
                self.set_error(e);
                Effect::Nothing
            },
            Intent::Save => Effect::Save(clone_opt(&self.path), self.content.clone()),
            Intent::FileSaved(Ok((p, c))) => {
                self.path = Some(p);
                self.is_dirty = !(self.content == c);
                self.error = None;
                self.baseline = Some(c);
                Effect::Nothing
            },
            Intent::FileSaved(Err(e)) => {
                self.set_error(e);
                Effect::Nothing
            },
            Intent::Undo => {
                self.undo();
                Effect::Nothing
            },
            Intent::Redo => {
                self.redo();
                Effect::Nothing
            },
        }
    }

    /// The window title.
    pub fn title(&self) -> (r: String)
        ensures
            r@ == "A cool editor!"@,
    {
        String::from_str("A cool editor!")
    }

    /// The text in the buffer.
    pub fn content(&self) -> (r: &str)
        ensures
            r@ == self@.content,
    {
        self.content.as_str()
    }

    /// The path that the buffer is bound to, if any.
    pub fn path(&self) -> (r: Option<&str>)
        ensures
            r matches Some(p) ==> self@.path == Some(p@),
            r is None <==> self@.path is None,
    {
        match &self.path {
            Some(p) => Some(p.as_str()),
            None => None,
        }
    }

    /// Whether the buffer may differ from what was last loaded or saved.
    pub fn is_dirty(&self) -> (r: bool)
        ensures
            r == self@.dirty,
    {
        self.is_dirty
    }

    /// The error of the last failed file operation, until an edit or a
    /// successful load or save clears it.
    pub fn error(&self) -> (r: Option<Error>)
        ensures
            r == self@.error,
    {
        self.error
    }

    /// How many snapshots lie behind the buffer and ahead of it.
    pub fn history_depths(&self) -> (r: (usize, usize))
        requires
            self.wf(),
        ensures
            r.0 == self@.history.undo.len() - 1,
            r.1 == self@.history.redo.len(),
    {
        (self.history.undo_depth() - 1, self.history.redo_depth())
    }
}

} // verus!
