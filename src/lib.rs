//! An in-memory file: a name, a byte buffer and an open/closed state, with
//! `open` and `close` transitions that fail at a configurable rate.

pub mod chance;
pub mod file;
pub mod text;

pub use chance::one_in;
pub use file::{close, close_with, open, open_with, File, FileError, FileModel, FileState};
