//! Items: label/value pairs, each in one category and ordered within it.

use vstd::prelude::*;
use crate::query::{
    Arg, Entity, Reply, Request, Statement, Step, StoreError, is_statement, next_order_spec,
    next_sort_order,
};

verus! {

/// A row of the `items` table.
#[derive(Debug, Clone, PartialEq, Eq)]
pub struct Item {
    pub id: i64,
    pub category_id: i64,
    pub label: String,
    pub value: String,
    pub sort_order: i64,
    pub created_at: String,
    pub updated_at: String,
}

/// An item joined with the category that holds it.
#[derive(Debug, Clone, PartialEq, Eq)]
pub struct ItemWithCategory {
    pub id: i64,
    pub category_id: i64,
    pub label: String,
    pub value: String,
    pub sort_order: i64,
    pub category_name: String,
    pub category_sort_order: i64,
}

/// What a new item is made from; a missing value is stored as the empty text.
#[derive(Debug, Clone, PartialEq, Eq)]
pub struct CreateItemInput {
    pub category_id: i64,
    pub label: String,
    pub value: Option<String>,
}

/// A partial update: a field left `None` keeps its stored value.
#[derive(Debug, Clone, PartialEq, Eq)]
pub struct UpdateItemInput {
    pub id: i64,
    pub label: Option<String>,
    pub value: Option<String>,
    pub sort_order: Option<i64>,
}

pub const LIST_ITEMS: &'static str = "SELECT id, category_id, label, value, sort_order, created_at, updated_at
         FROM items WHERE category_id = ? ORDER BY sort_order, id";

pub const LIST_ALL_ITEMS: &'static str = "SELECT i.id, i.category_id, i.label, i.value, i.sort_order,
                c.name AS category_name, c.sort_order AS category_sort_order
         FROM items i
         JOIN categories c ON c.id = i.category_id
         ORDER BY c.sort_order, c.id, i.sort_order, i.id";

pub const MAX_ITEM_ORDER: &'static str =
    "SELECT COALESCE(MAX(sort_order), -1) FROM items WHERE category_id = ?";

pub const INSERT_ITEM: &'static str =
    "INSERT INTO items (category_id, label, value, sort_order) VALUES (?, ?, ?, ?)";

pub const SELECT_ITEM: &'static str = "SELECT id, category_id, label, value, sort_order, created_at, updated_at
         FROM items WHERE id = ?";

pub const UPDATE_ITEM: &'static str =
    "UPDATE items SET label = ?, value = ?, sort_order = ?, updated_at = datetime('now') WHERE id = ?";

pub const DELETE_ITEM: &'static str = "DELETE FROM items WHERE id = ?";

/// The value a new item is stored with.
pub open spec fn initial_value(input: CreateItemInput) -> Seq<char> {
    match input.value {
        Some(v) => v@,
        None => Seq::empty(),
    }
}

/// A text argument with this content.
pub open spec fn is_text(a: Arg, t: Seq<char>) -> bool {
    match a {
        Arg::Text(v) => v@ == t,
        Arg::Int(_) => false,
    }
}

/// The insert of `input` at sort position `n`.
pub open spec fn is_insert(s: Statement, input: CreateItemInput, n: i64) -> bool {
    &&& s.sql == INSERT_ITEM
    &&& s.args@.len() == 4
    &&& s.args@[0] == Arg::Int(input.category_id)
    &&& s.args@[1] == Arg::Text(input.label)
    &&& is_text(s.args@[2], initial_value(input))
    &&& s.args@[3] == Arg::Int(n)
}

/// The label an item has after a partial update.
pub open spec fn updated_label(current: Item, input: UpdateItemInput) -> String {
    match input.label {
        Some(l) => l,
        None => current.label,
    }
}

/// The value an item has after a partial update.
pub open spec fn updated_value(current: Item, input: UpdateItemInput) -> String {
    match input.value {
        Some(v) => v,
        None => current.value,
    }
}

/// The sort position an item has after a partial update.
pub open spec fn updated_order(current: Item, input: UpdateItemInput) -> i64 {
    match input.sort_order {
        Some(o) => o,
        None => current.sort_order,
    }
}

/// The items of one category, by sort position and then identifier.
pub fn list(category_id: i64) -> (r: Statement)
    ensures
        is_statement(r, LIST_ITEMS, seq![Arg::Int(category_id)]),
{
    let r = Statement { sql: LIST_ITEMS, args: vec![Arg::Int(category_id)] };
    assert(r.args@ =~= seq![Arg::Int(category_id)]);
    r
}

/// Every item with its category's name and position, ordered by category
/// (position, then identifier) and within it by item (position, then
/// identifier). Items whose category is gone are left out.
pub fn list_all() -> (r: Statement)
    ensures
        is_statement(r, LIST_ALL_ITEMS, seq![]),
{
    Statement { sql: LIST_ALL_ITEMS, args: Vec::new() }
}

/// The largest sort position in use in a category, or `-1` when it has no item.
pub fn max_order(category_id: i64) -> (r: Statement)
    ensures
        is_statement(r, MAX_ITEM_ORDER, seq![Arg::Int(category_id)]),
{
    let r = Statement { sql: MAX_ITEM_ORDER, args: vec![Arg::Int(category_id)] };
    assert(r.args@ =~= seq![Arg::Int(category_id)]);
    r
}

/// The insert of a new item, placed after every existing item of its
/// category; `max_order` is the reply to [`max_order`] for that category.
pub fn insert(input: CreateItemInput, max_order: Option<i64>) -> (r: Result<Statement, StoreError>)
    ensures
        match next_order_spec(max_order) {
            Some(n) => r matches Ok(s) && is_insert(s, input, n),
            None => r == Err::<Statement, StoreError>(StoreError::SortOrderExhausted),
        },
{
    match next_sort_order(max_order) {
        Some(n) => {
            let value = match input.value {
                Some(v) => v,
                None => String::new(),
            };
            Ok(
                Statement {
                    sql: INSERT_ITEM,
                    args: vec![Arg::Int(input.category_id), Arg::Text(input.label), Arg::Text(value), Arg::Int(n)],
                },
            )
        },
        None => Err(StoreError::SortOrderExhausted),
    }
}

/// The item with this identifier, if any.
pub fn select(id: i64) -> (r: Statement)
    ensures
        is_statement(r, SELECT_ITEM, seq![Arg::Int(id)]),
{
    let r = Statement { sql: SELECT_ITEM, args: vec![Arg::Int(id)] };
    assert(r.args@ =~= seq![Arg::Int(id)]);
    r
}

/// The item row that a lookup of `id` found: `NotFound` when the store holds
/// none.
pub fn existing(id: i64, row: Option<Item>) -> (r: Result<Item, StoreError>)
    ensures
        match row {
            Some(it) => r == Ok::<Item, StoreError>(it),
            None => r == Err::<Item, StoreError>(StoreError::NotFound(Entity::Item, id)),
        },
{
    match row {
        Some(it) => Ok(it),
        None => Err(StoreError::NotFound(Entity::Item, id)),
    }
}

/// The write of a partial update onto the stored `current` row: each field
/// that `input` supplies replaces the stored one, each other field is written
/// back as it was. The item stays in its category.
pub fn update(current: Item, input: UpdateItemInput) -> (r: Statement)
    ensures
        is_statement(
            r,
            UPDATE_ITEM,
            seq![
                Arg::Text(updated_label(current, input)),
                Arg::Text(updated_value(current, input)),
                Arg::Int(updated_order(current, input)),
                Arg::Int(input.id),
            ],
        ),
{
    let label = match input.label {
        Some(l) => l,
        None => current.label,
    };
    let value = match input.value {
        Some(v) => v,
        None => current.value,
    };
    let sort_order = match input.sort_order {
        Some(o) => o,
        None => current.sort_order,
    };
    Statement {
        sql: UPDATE_ITEM,
        args: vec![Arg::Text(label), Arg::Text(value), Arg::Int(sort_order), Arg::Int(input.id)],
    }
}

/// The removal of an item.
pub fn delete(id: i64) -> (r: Statement)
    ensures
        is_statement(r, DELETE_ITEM, seq![Arg::Int(id)]),
{
    let r = Statement { sql: DELETE_ITEM, args: vec![Arg::Int(id)] };
    assert(r.args@ =~= seq![Arg::Int(id)]);
    r
}

/// Where a create or an update of an item stands, awaiting a reply.
#[derive(Debug, Clone)]
pub enum Stage {
    /// A create awaits the largest sort position in use in its category.
    Create(CreateItemInput),
    /// A create awaits the outcome of its insert.
    Inserted,
    /// An update awaits the stored row.
    Update(UpdateItemInput),
    /// An update of this identifier awaits the outcome of its write.
    Written(i64),
    /// The command awaits the row with this identifier, its result.
    Fetched(i64),
}

/// A create begins by asking for the largest sort position in use in the
/// item's category.
pub fn start_create(input: CreateItemInput) -> (r: Step<Item, Stage>)
    ensures
        r matches Step::Ask(Request::Scalar(s), Stage::Create(i)) && (i == input && is_statement(
            s,
            MAX_ITEM_ORDER,
            seq![Arg::Int(input.category_id)],
        )),
{
    let s = max_order(input.category_id);
    Step::Ask(Request::Scalar(s), Stage::Create(input))
}

/// An update begins by asking for the stored row.
pub fn start_update(input: UpdateItemInput) -> (r: Step<Item, Stage>)
    ensures
        r matches Step::Ask(Request::Row(s), Stage::Update(i)) && (i == input && is_statement(
            s,
            SELECT_ITEM,
            seq![Arg::Int(input.id)],
        )),
{
    let s = select(input.id);
    Step::Ask(Request::Row(s), Stage::Update(input))
}

/// The step after a reply. A create inserts the item one past the largest
/// position of its category, then hands back the row that the insert made. An
/// update fails with `NotFound` when no row has the identifier, else writes
/// the merged fields and hands back the row as stored. A reply of the wrong
/// kind ends the command with `UnexpectedReply`.
pub fn advance(stage: Stage, reply: Reply<Item>) -> (r: Step<Item, Stage>)
    ensures
        match (stage, reply) {
            (Stage::Create(input), Reply::Scalar(m)) => match next_order_spec(m) {
                Some(n) => r matches Step::Ask(Request::Execute(s), Stage::Inserted) && is_insert(
                    s,
                    input,
                    n,
                ),
                None => r == Step::<Item, Stage>::Finish(Err(StoreError::SortOrderExhausted)),
            },
            (Stage::Inserted, Reply::Executed { rows_affected: _, last_insert_rowid: id }) => r matches Step::Ask(
                Request::Row(s),
                Stage::Fetched(k),
            ) && (k == id && is_statement(s, SELECT_ITEM, seq![Arg::Int(id)])),
            (Stage::Update(input), Reply::Row(None)) => r == Step::<Item, Stage>::Finish(
                Err(StoreError::NotFound(Entity::Item, input.id)),
            ),
            (Stage::Update(input), Reply::Row(Some(current))) => r matches Step::Ask(
                Request::Execute(s),
                Stage::Written(k),
            ) && (k == input.id && is_statement(
                s,
                UPDATE_ITEM,
                seq![
                    Arg::Text(updated_label(current, input)),
                    Arg::Text(updated_value(current, input)),
                    Arg::Int(updated_order(current, input)),
                    Arg::Int(input.id),
                ],
            )),
            (Stage::Written(id), Reply::Executed { .. }) => r matches Step::Ask(
                Request::Row(s),
                Stage::Fetched(k),
            ) && (k == id && is_statement(s, SELECT_ITEM, seq![Arg::Int(id)])),
            (Stage::Fetched(_), Reply::Row(Some(it))) => r == Step::<Item, Stage>::Finish(Ok(it)),
            (Stage::Fetched(id), Reply::Row(None)) => r == Step::<Item, Stage>::Finish(
                Err(StoreError::NotFound(Entity::Item, id)),
            ),
            _ => r == Step::<Item, Stage>::Finish(Err(StoreError::UnexpectedReply)),
        },
{
    match (stage, reply) {
        (Stage::Create(input), Reply::Scalar(m)) => match insert(input, m) {
            Ok(s) => Step::Ask(Request::Execute(s), Stage::Inserted),
            Err(e) => Step::Finish(Err(e)),
        },
        (Stage::Inserted, Reply::Executed { rows_affected: _, last_insert_rowid: id }) => {
            Step::Ask(Request::Row(select(id)), Stage::Fetched(id))
        },
        (Stage::Update(input), Reply::Row(row)) => match existing(input.id, row) {
            Ok(current) => {
                let id = input.id;
                Step::Ask(Request::Execute(update(current, input)), Stage::Written(id))
            },
            Err(e) => Step::Finish(Err(e)),
        },
        (Stage::Written(id), Reply::Executed { .. }) => Step::Ask(Request::Row(select(id)), Stage::Fetched(id)),
        (Stage::Fetched(id), Reply::Row(row)) => Step::Finish(existing(id, row)),
        _ => Step::Finish(Err(StoreError::UnexpectedReply)),
    }
}

} // verus!
