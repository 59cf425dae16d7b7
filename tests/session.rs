use editor_core::editor::{Editor, Effect, Intent};
use editor_core::file_handling::{default_file, Error, IoCategory};
use editor_core::history::History;

fn started() -> Editor {
    let (editor, effect) = Editor::new(String::from("/home/u/notes.txt"));
    assert!(matches!(effect, Effect::Load(ref p) if p == "/home/u/notes.txt"));
    editor
}

fn edit(e: &mut Editor, text: &str) {
    assert!(matches!(e.update(Intent::Edit(text.to_string())), Effect::Nothing));
}

#[test]
fn edit_edit_undo_undo_redo() {
    let mut e = started();
    edit(&mut e, "hello");
    edit(&mut e, "hello world");
    e.update(Intent::Undo);
    assert_eq!(e.content(), "hello");
    e.update(Intent::Undo);
    assert_eq!(e.content(), "");
    e.update(Intent::Redo);
    assert_eq!(e.content(), "hello");
}

#[test]
fn save_makes_clean_and_edit_makes_dirty() {
    let mut e = started();
    e.update(Intent::New);
    edit(&mut e, "draft");
    assert!(e.is_dirty());
    match e.update(Intent::Save) {
        Effect::Save(None, text) => assert_eq!(text, "draft"),
        _ => panic!("expected a save with a prompt"),
    }
    e.update(Intent::FileSaved(Ok(("/tmp/a.txt".to_string(), "draft".to_string()))));
    assert!(!e.is_dirty());
    assert_eq!(e.path(), Some("/tmp/a.txt"));
    edit(&mut e, "draft!");
    assert!(e.is_dirty());
}

#[test]
fn edits_then_as_many_undos_restore_start() {
    let mut e = started();
    e.update(Intent::FileOpened(Ok(("/a.txt".to_string(), "base".to_string()))));
    let texts = ["b", "ba", "bas", "base!", "x"];
    for t in texts.iter() {
        edit(&mut e, t);
    }
    for _ in texts.iter() {
        e.update(Intent::Undo);
    }
    assert_eq!(e.content(), "base");
    assert!(!e.is_dirty());
    assert_eq!(e.history_depths(), (0, 5));
}

#[test]
fn redo_after_undo_restores_undone_text() {
    let mut e = started();
    edit(&mut e, "one");
    edit(&mut e, "two");
    e.update(Intent::Undo);
    assert_eq!(e.content(), "one");
    e.update(Intent::Redo);
    assert_eq!(e.content(), "two");
}

#[test]
fn edit_after_undo_drops_redo() {
    let mut e = started();
    edit(&mut e, "one");
    edit(&mut e, "two");
    e.update(Intent::Undo);
    edit(&mut e, "three");
    assert_eq!(e.history_depths(), (2, 0));
    e.update(Intent::Redo);
    assert_eq!(e.content(), "three");
    e.update(Intent::Undo);
    assert_eq!(e.content(), "one");
}

#[test]
fn undo_on_fresh_session_is_noop() {
    let mut e = started();
    e.undo();
    assert_eq!(e.content(), "");
    assert!(e.is_dirty());
    assert_eq!(e.error(), None);
    assert_eq!(e.history_depths(), (0, 0));
    e.redo();
    assert_eq!(e.content(), "");
}

#[test]
fn second_save_goes_to_resolved_path() {
    let mut e = started();
    edit(&mut e, "text");
    assert!(matches!(e.update(Intent::Save), Effect::Save(None, _)));
    e.update(Intent::FileSaved(Ok(("/tmp/b.txt".to_string(), "text".to_string()))));
    match e.update(Intent::Save) {
        Effect::Save(Some(p), text) => {
            assert_eq!(p, "/tmp/b.txt");
            assert_eq!(text, "text");
        }
        _ => panic!("expected a save to the bound path"),
    }
    assert!(!e.is_dirty());
}

#[test]
fn cancelled_open_keeps_document() {
    let mut e = started();
    e.update(Intent::FileOpened(Ok(("/a.txt".to_string(), "abc".to_string()))));
    edit(&mut e, "abcd");
    assert!(matches!(e.update(Intent::Open), Effect::PickAndLoad));
    e.update(Intent::FileOpened(Err(Error::DialogClosed)));
    assert_eq!(e.path(), Some("/a.txt"));
    assert_eq!(e.content(), "abcd");
    assert!(e.is_dirty());
    assert_eq!(e.error(), Some(Error::DialogClosed));
}

#[test]
fn failed_save_keeps_dirty_and_records_error() {
    let mut e = started();
    edit(&mut e, "x");
    e.update(Intent::FileSaved(Err(Error::IOFailed(IoCategory::PermissionDenied))));
    assert!(e.is_dirty());
    assert_eq!(e.path(), None);
    assert_eq!(e.content(), "x");
    assert_eq!(e.error(), Some(Error::IOFailed(IoCategory::PermissionDenied)));
    assert!(e.error().unwrap().is_io());
    edit(&mut e, "xy");
    assert_eq!(e.error(), None);
}

#[test]
fn failed_load_keeps_empty_buffer() {
    let mut e = started();
    e.update(Intent::FileOpened(Err(Error::IOFailed(IoCategory::NotFound))));
    assert_eq!(e.content(), "");
    assert_eq!(e.path(), None);
    assert_eq!(e.error(), Some(Error::IOFailed(IoCategory::NotFound)));
    assert!(!Error::DialogClosed.is_io());
    assert!(Error::IOFailed(IoCategory::InvalidData).is_io());
    assert!(Error::IOFailed(IoCategory::Other).is_io());
}

#[test]
fn successful_open_clears_error_and_reseeds_history() {
    let mut e = started();
    edit(&mut e, "old");
    e.update(Intent::FileSaved(Err(Error::DialogClosed)));
    e.update(Intent::FileOpened(Ok(("/n.txt".to_string(), "new".to_string()))));
    assert_eq!(e.error(), None);
    assert_eq!(e.content(), "new");
    assert!(!e.is_dirty());
    assert_eq!(e.history_depths(), (0, 0));
    e.update(Intent::Undo);
    assert_eq!(e.content(), "new");
}

#[test]
fn new_resets_document() {
    let mut e = started();
    e.update(Intent::FileOpened(Ok(("/a.txt".to_string(), "abc".to_string()))));
    edit(&mut e, "abcd");
    e.update(Intent::New);
    assert_eq!(e.path(), None);
    assert_eq!(e.content(), "");
    assert!(e.is_dirty());
    assert_eq!(e.history_depths(), (0, 0));
}

#[test]
fn undo_back_to_saved_text_is_clean() {
    let mut e = started();
    edit(&mut e, "a");
    e.update(Intent::FileSaved(Ok(("/s.txt".to_string(), "a".to_string()))));
    edit(&mut e, "ab");
    assert!(e.is_dirty());
    e.update(Intent::Undo);
    assert_eq!(e.content(), "a");
    assert!(!e.is_dirty());
    e.update(Intent::Redo);
    assert!(e.is_dirty());
}

#[test]
fn save_finishing_after_later_edit_stays_dirty() {
    let mut e = started();
    edit(&mut e, "a");
    e.update(Intent::Save);
    edit(&mut e, "ab");
    e.update(Intent::FileSaved(Ok(("/s.txt".to_string(), "a".to_string()))));
    assert!(e.is_dirty());
    assert_eq!(e.path(), Some("/s.txt"));
}

#[test]
fn edit_with_same_text_keeps_clean_flag() {
    let mut e = started();
    e.update(Intent::FileOpened(Ok(("/a.txt".to_string(), "same".to_string()))));
    edit(&mut e, "same");
    assert!(!e.is_dirty());
    assert_eq!(e.history_depths(), (1, 0));
}

#[test]
fn history_stacks() {
    let mut h = History::new("s");
    assert_eq!(h.undo(), None);
    assert_eq!(h.redo(), None);
    h.record_edit("t");
    h.record_edit("u");
    assert_eq!(h.undo(), Some("t".to_string()));
    assert_eq!(h.undo(), Some("s".to_string()));
    assert_eq!(h.undo(), None);
    assert_eq!((h.undo_depth(), h.redo_depth()), (1, 2));
    assert_eq!(h.redo(), Some("t".to_string()));
    h.record_edit("v");
    assert_eq!(h.redo(), None);
    assert_eq!((h.undo_depth(), h.redo_depth()), (3, 0));
    h.reset("z");
    assert_eq!((h.undo_depth(), h.redo_depth()), (1, 0));
    assert_eq!(h.undo(), None);
}

#[test]
fn default_file_under_project_dir() {
    assert_eq!(default_file("/work/editor"), "/work/editor/src/main.rs");
    assert_eq!(default_file(""), "/src/main.rs");
}

#[test]
fn title_text() {
    let e = started();
    assert_eq!(e.title(), "A cool editor!");
}
