//! Persistence and arbitration core of an editor that keeps one document,
//! stored on disk in an encrypted form.

pub mod attempt;
pub mod document;
pub mod editor;
pub mod start_dir;
