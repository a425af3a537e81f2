//! Categories: named groups of items, ordered by a sort position.

use vstd::prelude::*;
use crate::query::{
    Arg, Entity, Reply, Request, Statement, Step, StoreError, is_statement, next_order_spec,
    next_sort_order,
};

verus! {

/// A row of the `categories` table.
#[derive(Debug, Clone, PartialEq, Eq)]
pub struct Category {
    pub id: i64,
    pub name: String,
    pub sort_order: i64,
    pub created_at: String,
    pub updated_at: String,
}

/// What a new category is made from.
#[derive(Debug, Clone, PartialEq, Eq)]
pub struct CreateCategoryInput {
    pub name: String,
}

/// A partial update: a field left `None` keeps its stored value.
#[derive(Debug, Clone, PartialEq, Eq)]
pub struct UpdateCategoryInput {
    pub id: i64,
    pub name: Option<String>,
    pub sort_order: Option<i64>,
}

pub const LIST_CATEGORIES: &'static str =
    "SELECT id, name, sort_order, created_at, updated_at FROM categories ORDER BY sort_order, id";

pub const MAX_CATEGORY_ORDER: &'static str = "SELECT COALESCE(MAX(sort_order), -1) FROM categories";

pub const INSERT_CATEGORY: &'static str = "INSERT INTO categories (name, sort_order) VALUES (?, ?)";

pub const SELECT_CATEGORY: &'static str =
    "SELECT id, name, sort_order, created_at, updated_at FROM categories WHERE id = ?";

pub const UPDATE_CATEGORY: &'static str =
    "UPDATE categories SET name = ?, sort_order = ?, updated_at = datetime('now') WHERE id = ?";

pub const DELETE_CATEGORY: &'static str = "DELETE FROM categories WHERE id = ?";

pub const SET_CATEGORY_ORDER: &'static str =
    "UPDATE categories SET sort_order = ?, updated_at = datetime('now') WHERE id = ?";

/// The name a category has after a partial update.
pub open spec fn updated_name(current: Category, input: UpdateCategoryInput) -> String {
    match input.name {
        Some(n) => n,
        None => current.name,
    }
}

/// The sort position a category has after a partial update.
pub open spec fn updated_order(current: Category, input: UpdateCategoryInput) -> i64 {
    match input.sort_order {
        Some(o) => o,
        None => current.sort_order,
    }
}

/// Every category, by sort position and then identifier.
pub fn list() -> (r: Statement)
    ensures
        is_statement(r, LIST_CATEGORIES, seq![]),
{
    Statement { sql: LIST_CATEGORIES, args: Vec::new() }
}

/// The largest sort position in use, or `-1` when there is no category.
pub fn max_order() -> (r: Statement)
    ensures
        is_statement(r, MAX_CATEGORY_ORDER, seq![]),
{
    Statement { sql: MAX_CATEGORY_ORDER, args: Vec::new() }
}

/// The insert of a new category, placed after every existing one; `max_order`
/// is the reply to [`max_order`].
pub fn insert(input: CreateCategoryInput, max_order: Option<i64>) -> (r: Result<
    Statement,
    StoreError,
>)
    ensures
        match next_order_spec(max_order) {
            Some(n) => r matches Ok(s) && is_statement(
                s,
                INSERT_CATEGORY,
                seq![Arg::Text(input.name), Arg::Int(n)],
            ),
            None => r == Err::<Statement, StoreError>(StoreError::SortOrderExhausted),
        },
{
    match next_sort_order(max_order) {
        Some(n) => Ok(Statement { sql: INSERT_CATEGORY, args: vec![Arg::Text(input.name), Arg::Int(n)] }),
        None => Err(StoreError::SortOrderExhausted),
    }
}

/// The category with this identifier, if any.
pub fn select(id: i64) -> (r: Statement)
    ensures
        is_statement(r, SELECT_CATEGORY, seq![Arg::Int(id)]),
{
    let r = Statement { sql: SELECT_CATEGORY, args: vec![Arg::Int(id)] };
    assert(r.args@ =~= seq![Arg::Int(id)]);
    r
}

/// The category row that a lookup of `id` found: `NotFound` when the store holds
/// none.
pub fn existing(id: i64, row: Option<Category>) -> (r: Result<Category, StoreError>)
    ensures
        match row {
            Some(c) => r == Ok::<Category, StoreError>(c),
            None => r == Err::<Category, StoreError>(StoreError::NotFound(Entity::Category, id)),
        },
{
    match row {
        Some(c) => Ok(c),
        None => Err(StoreError::NotFound(Entity::Category, id)),
    }
}

/// The write of a partial update onto the stored `current` row: each field
/// that `input` supplies replaces the stored one, each other field is written
/// back as it was.
pub fn update(current: Category, input: UpdateCategoryInput) -> (r: Statement)
    ensures
        is_statement(
            r,
            UPDATE_CATEGORY,
            seq![
                Arg::Text(updated_name(current, input)),
                Arg::Int(updated_order(current, input)),
                Arg::Int(input.id),
            ],
        ),
{
    let name = match input.name {
        Some(n) => n,
        None => current.name,
    };
    let sort_order = match input.sort_order {
        Some(o) => o,
        None => current.sort_order,
    };
    Statement { sql: UPDATE_CATEGORY, args: vec![Arg::Text(name), Arg::Int(sort_order), Arg::Int(input.id)] }
}

/// The removal of a category; the store's foreign key removes its items.
pub fn delete(id: i64) -> (r: Statement)
    ensures
        is_statement(r, DELETE_CATEGORY, seq![Arg::Int(id)]),
{
    let r = Statement { sql: DELETE_CATEGORY, args: vec![Arg::Int(id)] };
    assert(r.args@ =~= seq![Arg::Int(id)]);
    r
}

/// One write per identifier, in order, that gives the category at index `i`
/// of `ids` the sort position `i`.
pub fn reorder(ids: &Vec<i64>) -> (r: Vec<Statement>)
    requires
        ids@.len() <= i64::MAX,
    ensures
        r@.len() == ids@.len(),
        forall|i: int|
            0 <= i < r@.len() ==> is_statement(
                #[trigger] r@[i],
                SET_CATEGORY_ORDER,
                seq![Arg::Int(i as i64), Arg::Int(ids@[i])],
            ),
{
    let mut r: Vec<Statement> = Vec::new();
    let mut i: usize = 0;
    while i < ids.len()
        invariant
            i <= ids@.len() <= i64::MAX,
            r@.len() == i,
            forall|k: int|
                0 <= k < r@.len() ==> is_statement(
                    #[trigger] r@[k],
                    SET_CATEGORY_ORDER,
                    seq![Arg::Int(k as i64), Arg::Int(ids@[k])],
                ),
        decreases ids@.len() - i,
    {
        let s = Statement { sql: SET_CATEGORY_ORDER, args: vec![Arg::Int(i as i64), Arg::Int(ids[i])] };
        r.push(s);
        i = i + 1;
    }
    r
}

/// Where a create or an update of a category stands, awaiting a reply.
#[derive(Debug, Clone)]
pub enum Stage {
    /// A create awaits the largest sort position in use.
    Create(CreateCategoryInput),
    /// A create awaits the outcome of its insert.
    Inserted,
    /// An update awaits the stored row.
    Update(UpdateCategoryInput),
    /// An update of this identifier awaits the outcome of its write.
    Written(i64),
    /// The command awaits the row with this identifier, its result.
    Fetched(i64),
}

/// A create begins by asking for the largest sort position in use.
pub fn start_create(input: CreateCategoryInput) -> (r: Step<Category, Stage>)
    ensures
        r matches Step::Ask(Request::Scalar(s), Stage::Create(i)) && (i == input && is_statement(
            s,
            MAX_CATEGORY_ORDER,
            seq![],
        )),
{
    Step::Ask(Request::Scalar(max_order()), Stage::Create(input))
}

/// An update begins by asking for the stored row.
pub fn start_update(input: UpdateCategoryInput) -> (r: Step<Category, Stage>)
    ensures
        r matches Step::Ask(Request::Row(s), Stage::Update(i)) && (i == input && is_statement(
            s,
            SELECT_CATEGORY,
            seq![Arg::Int(input.id)],
        )),
{
    let s = select(input.id);
    Step::Ask(Request::Row(s), Stage::Update(input))
}

/// The step after a reply. A create inserts the category one past the largest
/// position, then hands back the row that the insert made. An update fails
/// with `NotFound` when no row has the identifier, else writes the merged
/// fields and hands back the row as stored. A reply of the wrong kind ends the
/// command with `UnexpectedReply`.
pub fn advance(stage: Stage, reply: Reply<Category>) -> (r: Step<Category, Stage>)
    ensures
        match (stage, reply) {
            (Stage::Create(input), Reply::Scalar(m)) => match next_order_spec(m) {
                Some(n) => r matches Step::Ask(Request::Execute(s), Stage::Inserted) && is_statement(
                    s,
                    INSERT_CATEGORY,
                    seq![Arg::Text(input.name), Arg::Int(n)],
                ),
                None => r == Step::<Category, Stage>::Finish(Err(StoreError::SortOrderExhausted)),
            },
            (Stage::Inserted, Reply::Executed { rows_affected: _, last_insert_rowid: id }) => r matches Step::Ask(
                Request::Row(s),
                Stage::Fetched(k),
            ) && (k == id && is_statement(s, SELECT_CATEGORY, seq![Arg::Int(id)])),
            (Stage::Update(input), Reply::Row(None)) => r == Step::<Category, Stage>::Finish(
                Err(StoreError::NotFound(Entity::Category, input.id)),
            ),
            (Stage::Update(input), Reply::Row(Some(current))) => r matches Step::Ask(
                Request::Execute(s),
                Stage::Written(k),
            ) && (k == input.id && is_statement(
                s,
                UPDATE_CATEGORY,
                seq![
                    Arg::Text(updated_name(current, input)),
                    Arg::Int(updated_order(current, input)),
                    Arg::Int(input.id),
                ],
            )),
            (Stage::Written(id), Reply::Executed { .. }) => r matches Step::Ask(
                Request::Row(s),
                Stage::Fetched(k),
            ) && (k == id && is_statement(s, SELECT_CATEGORY, seq![Arg::Int(id)])),
            (Stage::Fetched(_), Reply::Row(Some(c))) => r == Step::<Category, Stage>::Finish(Ok(c)),
            (Stage::Fetched(id), Reply::Row(None)) => r == Step::<Category, Stage>::Finish(
                Err(StoreError::NotFound(Entity::Category, id)),
            ),
            _ => r == Step::<Category, Stage>::Finish(Err(StoreError::UnexpectedReply)),
        },
{
    match (stage, reply) {
        (Stage::Create(input), Reply::Scalar(m)) => match insert(input, m) {
            Ok(s) => Step::Ask(Request::Execute(s), Stage::Inserted),
            Err(e) => Step::Finish(Err(e)),
        },
        (Stage::Inserted, Reply::Executed { rows_affected: _, last_insert_rowid: id }) => {
            Step::Ask(Request::Row(select(id)), Stage::Fetched(id))
        },
        (Stage::Update(input), Reply::Row(row)) => match existing(input.id, row) {
            Ok(current) => {
                let id = input.id;
                Step::Ask(Request::Execute(update(current, input)), Stage::Written(id))
            },
            Err(e) => Step::Finish(Err(e)),
        },
        (Stage::Written(id), Reply::Executed { .. }) => Step::Ask(Request::Row(select(id)), Stage::Fetched(id)),
        (Stage::Fetched(id), Reply::Row(row)) => Step::Finish(existing(id, row)),
        _ => Step::Finish(Err(StoreError::UnexpectedReply)),
    }
}

} // verus!
