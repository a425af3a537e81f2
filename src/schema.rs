//! The two tables and the foreign key that ties items to their category.

use vstd::prelude::*;
use crate::query::{Statement, is_statement};

verus! {

pub const CREATE_CATEGORIES: &'static str = "CREATE TABLE IF NOT EXISTS categories (
  id INTEGER PRIMARY KEY AUTOINCREMENT,
  name TEXT NOT NULL,
  sort_order INTEGER NOT NULL DEFAULT 0,
  created_at TEXT NOT NULL DEFAULT (datetime('now')),
  updated_at TEXT NOT NULL DEFAULT (datetime('now'))
)";

pub const CREATE_ITEMS: &'static str = "CREATE TABLE IF NOT EXISTS items (
  id INTEGER PRIMARY KEY AUTOINCREMENT,
  category_id INTEGER NOT NULL REFERENCES categories(id) ON DELETE CASCADE,
  label TEXT NOT NULL,
  value TEXT NOT NULL DEFAULT '',
  sort_order INTEGER NOT NULL DEFAULT 0,
  created_at TEXT NOT NULL DEFAULT (datetime('now')),
  updated_at TEXT NOT NULL DEFAULT (datetime('now'))
)";

/// Deleting a category deletes its items only while this is on.
pub const ENABLE_FOREIGN_KEYS: &'static str = "PRAGMA foreign_keys = ON";

/// The statements that prepare a store, to run in order on each connection:
/// the categories table, the items table, then foreign-key enforcement.
pub fn setup() -> (r: Vec<Statement>)
    ensures
        r@.len() == 3,
        is_statement(r@[0], CREATE_CATEGORIES, seq![]),
        is_statement(r@[1], CREATE_ITEMS, seq![]),
        is_statement(r@[2], ENABLE_FOREIGN_KEYS, seq![]),
{
    vec![
        Statement { sql: CREATE_CATEGORIES, args: Vec::new() },
        Statement { sql: CREATE_ITEMS, args: Vec::new() },
        Statement { sql: ENABLE_FOREIGN_KEYS, args: Vec::new() },
    ]
}

} // verus!
