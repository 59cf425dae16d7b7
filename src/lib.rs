//! The document session of a plain-text editor: the buffer, its path, the
//! dirty flag, the last file error and a linear undo/redo history, driven by
//! intents and answering with the file work for the host to run.

pub mod editor;
pub mod file_handling;
pub mod history;
pub mod laws;
