use vstd::prelude::*;

use crate::editor::{
    EffectView, Intent, SessionView, edit_step, effect_of, initial_session, new_step, redo_step,
    saved_step, session_wf, step, undo_step,
};
use crate::file_handling::Error;

verus! {

/// The session after a run of edits, the first of `cs` first.
pub open spec fn edits(s: SessionView, cs: Seq<Seq<char>>) -> SessionView
    decreases cs.len(),
{
    if cs.len() == 0 {
        s
    } else {
        edit_step(edits(s, cs.drop_last()), cs.last())
    }
}

/// The session after `n` undos.
pub open spec fn undos(s: SessionView, n: nat) -> SessionView
    decreases n,
{
    if n == 0 {
        s
    } else {
        undo_step(undos(s, (n - 1) as nat))
    }
}

/// Undo keeps the session's invariant.
pub proof fn lemma_undo_wf(s: SessionView)
    requires
        session_wf(s),
    ensures
        session_wf(undo_step(s)),
{
}

/// A run of edits pushes each text, in order, onto the undo stack.
pub proof fn lemma_edits_push(s: SessionView, cs: Seq<Seq<char>>)
    requires
        session_wf(s),
    ensures
        session_wf(edits(s, cs)),
        edits(s, cs).history.undo == s.history.undo + cs,
        edits(s, cs).baseline == s.baseline,
    decreases cs.len(),
{
    if cs.len() > 0 {
        lemma_edits_push(s, cs.drop_last());
        assert(s.history.undo + cs =~= (s.history.undo + cs.drop_last()).push(cs.last()));
    }
}

/// Each undo pops one snapshot while more than the seed is left.
pub proof fn lemma_undos_pop(t: SessionView, u: Seq<Seq<char>>, cs: Seq<Seq<char>>, n: nat)
    requires
        session_wf(t),
        u.len() >= 1,
        t.history.undo == u + cs,
        n <= cs.len(),
    ensures
        session_wf(undos(t, n)),
        undos(t, n).history.undo == u + cs.subrange(0, cs.len() - n),
    decreases n,
{
    assert(cs.subrange(0, cs.len() as int) =~= cs);
    if n > 0 {
        lemma_undos_pop(t, u, cs, (n - 1) as nat);
        let prev = undos(t, (n - 1) as nat);
        lemma_undo_wf(prev);
        let rest = cs.subrange(0, cs.len() - (n - 1));
        assert((u + rest).drop_last() =~= u + cs.subrange(0, cs.len() - n));
    }
}

/// Undoing as many times as there were edits brings back the text that the
/// buffer held before the first of them.
pub proof fn lemma_undo_inverts_edits(s: SessionView, cs: Seq<Seq<char>>)
    requires
        session_wf(s),
    ensures
        undos(edits(s, cs), cs.len()).content == s.content,
        undos(edits(s, cs), cs.len()).history.undo == s.history.undo,
{
    lemma_edits_push(s, cs);
    lemma_undos_pop(edits(s, cs), s.history.undo, cs, cs.len());
    assert(s.history.undo + cs.subrange(0, 0) =~= s.history.undo);
}

/// A redo right after an undo brings back the text that was undone, and
/// the history as it stood.
pub proof fn lemma_redo_after_undo(s: SessionView)
    requires
        session_wf(s),
        s.history.undo.len() >= 2,
    ensures
        redo_step(undo_step(s)).content == s.content,
        redo_step(undo_step(s)).history == s.history,
{
    let t = undo_step(s);
    assert(t.history.redo.len() > 0);
    assert(redo_step(t).history.undo =~= s.history.undo);
    assert(redo_step(t).history.redo =~= s.history.redo);
}

/// An edit after an undo drops what could have been redone: a redo that
/// follows changes nothing.
pub proof fn lemma_edit_after_undo_drops_redo(s: SessionView, c: Seq<char>)
    requires
        session_wf(s),
    ensures
        edit_step(undo_step(s), c).history.redo.len() == 0,
        redo_step(edit_step(undo_step(s), c)) == edit_step(undo_step(s), c),
{
}

/// Undo on a session that was just started, or just emptied by `New`,
/// changes nothing.
pub proof fn lemma_undo_on_fresh_session(s: SessionView)
    ensures
        undo_step(initial_session()) == initial_session(),
        undo_step(new_step(s)) == new_step(s),
{
}

/// Once a save has resolved a path for the buffer's text, the next save
/// writes that same text to that same path, with no prompt, and the buffer
/// is clean in between.
pub proof fn lemma_save_again_after_save(s: SessionView, p: String, c: String)
    requires
        session_wf(s),
        c@ == s.content,
    ensures
        !saved_step(s, Ok((p, c))).dirty,
        saved_step(s, Ok((p, c))).content == s.content,
        effect_of(saved_step(s, Ok((p, c))), Intent::Save) == EffectView::Save(Some(p@), s.content),
{
}

/// A cancelled open prompt leaves path, buffer and dirty flag as they were.
pub proof fn lemma_cancelled_open_keeps_document(s: SessionView)
    ensures
        step(s, Intent::Open) == s,
        step(s, Intent::FileOpened(Err(Error::DialogClosed))).path == s.path,
        step(s, Intent::FileOpened(Err(Error::DialogClosed))).content == s.content,
        step(s, Intent::FileOpened(Err(Error::DialogClosed))).dirty == s.dirty,
{
}

} // verus!
