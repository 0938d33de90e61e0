//! A note store: the rules behind reading, writing, creating, deleting and
//! listing markdown notes, stated as contracts over plain values. Reading,
//! writing, removing and walking files is done by the caller, which hands
//! the observed facts (what a path holds, what a walk found) to these
//! functions; the one probe made here is `FileService::file_exists`.

mod errors;
pub mod paths;
pub mod models;
pub mod service;
pub mod listing;
pub mod laws;

pub use errors::{AppError, IoErrorKind};
