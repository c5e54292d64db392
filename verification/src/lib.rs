//! The todo list of the Vibe Island notch app, and the small decisions
//! around where its data lives.
//!
//! The list itself is a plain sequence of entries: new entries go at the end,
//! toggling flips the first entry with a given id, deleting drops every entry
//! with a given id, and clearing drops every completed entry. Reading the
//! list back from disk, writing it, locking it and telling the window about
//! changes happen around this library.
//!
//! The small decisions of the app shell (SSH port, idle clean-up steps,
//! finding a session by id, hook reports, the notch window) stand in `shell`.

pub mod fresh;
pub mod laws;
pub mod places;
pub mod shell;
pub mod todo;
