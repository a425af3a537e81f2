//! Statements for the relational store, and the errors of the data layer.

use vstd::prelude::*;

verus! {

/// A value bound to one `?` placeholder of a statement, in order.
#[derive(Debug, Clone, PartialEq, Eq)]
pub enum Arg {
    Int(i64),
    Text(String),
}

/// An SQL statement and the values for its placeholders.
#[derive(Debug, Clone)]
pub struct Statement {
    pub sql: &'static str,
    pub args: Vec<Arg>,
}

/// The table that an identifier was looked up in.
#[derive(Debug, Clone, Copy, PartialEq, Eq, Structural)]
pub enum Entity {
    Category,
    Item,
}

/// Why an operation of the data layer failed.
#[derive(Debug, Clone, PartialEq, Eq)]
pub enum StoreError {
    /// No row of the entity's table has this identifier.
    NotFound(Entity, i64),
    /// The largest sort position in use is `i64::MAX`; no next one exists.
    SortOrderExhausted,
    /// The store itself failed; its message is passed on unchanged.
    Database(String),
    /// The host answered a request with a reply of another kind.
    UnexpectedReply,
}

/// What the host is asked to run next, and the reply it owes.
#[derive(Debug, Clone)]
pub enum Request {
    /// Fetch at most one row of one integer; reply with `Reply::Scalar`.
    Scalar(Statement),
    /// Execute; reply with `Reply::Executed`.
    Execute(Statement),
    /// Fetch at most one row of the entity; reply with `Reply::Row`.
    Row(Statement),
}

/// The host's answer to a `Request`, for an entity whose rows are `R`.
#[derive(Debug, Clone)]
pub enum Reply<R> {
    Scalar(Option<i64>),
    Executed { rows_affected: u64, last_insert_rowid: i64 },
    Row(Option<R>),
}

/// One step of a command that alternates requests to the store and decisions:
/// either a request and the stage that awaits its reply, or the end.
#[derive(Debug)]
pub enum Step<R, S> {
    Ask(Request, S),
    Finish(Result<R, StoreError>),
}

/// A statement with these placeholder values.
pub open spec fn is_statement(s: Statement, sql: &'static str, args: Seq<Arg>) -> bool {
    s.sql == sql && s.args@ == args
}

/// The sort position that follows the largest one in use (`-1` when none is),
/// as the store reports it; `None` when it would not fit in an `i64`.
pub open spec fn next_order_spec(max_order: Option<i64>) -> Option<i64> {
    match max_order {
        None => Some(0),
        Some(m) => if m < i64::MAX { Some((m + 1) as i64) } else { None },
    }
}

/// The position given to a new row, from the reply to a
/// `COALESCE(MAX(sort_order), -1)` query: one past the largest in use, or 0
/// where the reply holds no row.
pub fn next_sort_order(max_order: Option<i64>) -> (r: Option<i64>)
    ensures
        r == next_order_spec(max_order),
{
    match max_order {
        None => Some(0),
        Some(m) => m.checked_add(1),
    }
}

/// What a delete statement's count of affected rows means: `NotFound` when no
/// row had the identifier.
pub fn delete_outcome(entity: Entity, id: i64, rows_affected: u64) -> (r: Result<(), StoreError>)
    ensures
        rows_affected == 0 ==> r == Err::<(), StoreError>(StoreError::NotFound(entity, id)),
        rows_affected != 0 ==> r == Ok::<(), StoreError>(()),
{
    if rows_affected == 0 {
        Err(StoreError::NotFound(entity, id))
    } else {
        Ok(())
    }
}

} // verus!
