//! Persistence rules of a menu-bar shortcut cheat-sheet: categories that hold
//! label/value items, each ordered by a sort position.
//!
//! The library decides which SQL statement runs next and what a reply from the
//! store means; the host runs the statements against SQLite and hands the
//! replies back.

pub mod query;
pub mod categories;
pub mod items;
pub mod shell;
pub mod schema;
