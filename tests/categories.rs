use peeky::categories::{
    self, Category, CreateCategoryInput, UpdateCategoryInput, DELETE_CATEGORY, INSERT_CATEGORY,
    LIST_CATEGORIES, MAX_CATEGORY_ORDER, SELECT_CATEGORY, SET_CATEGORY_ORDER, UPDATE_CATEGORY,
};
use peeky::query::{delete_outcome, Arg, Entity, Reply, Request, Step, StoreError};
use peeky::categories::Stage;
use peeky::schema::{setup, CREATE_CATEGORIES, CREATE_ITEMS, ENABLE_FOREIGN_KEYS};

fn stored(id: i64, name: &str, sort_order: i64) -> Category {
    Category {
        id,
        name: name.to_string(),
        sort_order,
        created_at: "2024-01-01 00:00:00".to_string(),
        updated_at: "2024-01-01 00:00:00".to_string(),
    }
}

#[test]
fn list_orders_by_position_then_id() {
    let s = categories::list();
    assert_eq!(s.sql, LIST_CATEGORIES);
    assert!(s.sql.ends_with("ORDER BY sort_order, id"));
    assert!(s.args.is_empty());
}

#[test]
fn create_category_returns_new_category() {
    let m = categories::max_order();
    assert_eq!(m.sql, MAX_CATEGORY_ORDER);
    assert!(m.args.is_empty());
    // An empty table answers -1.
    let s = categories::insert(CreateCategoryInput { name: "Shortcuts".to_string() }, Some(-1)).unwrap();
    assert_eq!(s.sql, INSERT_CATEGORY);
    assert_eq!(s.args, vec![Arg::Text("Shortcuts".to_string()), Arg::Int(0)]);
}

#[test]
fn create_category_auto_increments_sort_order() {
    let a = categories::insert(CreateCategoryInput { name: "A".to_string() }, Some(-1)).unwrap();
    let b = categories::insert(CreateCategoryInput { name: "B".to_string() }, Some(0)).unwrap();
    assert_eq!(a.args[1], Arg::Int(0));
    assert_eq!(b.args[1], Arg::Int(1));
}

#[test]
fn create_category_after_gap_takes_one_past_max() {
    let s = categories::insert(CreateCategoryInput { name: "C".to_string() }, Some(41)).unwrap();
    assert_eq!(s.args[1], Arg::Int(42));
}

#[test]
fn create_category_without_reply_row_starts_at_zero() {
    let s = categories::insert(CreateCategoryInput { name: "C".to_string() }, None).unwrap();
    assert_eq!(s.args[1], Arg::Int(0));
}

#[test]
fn create_category_at_largest_position_fails() {
    let r = categories::insert(CreateCategoryInput { name: "C".to_string() }, Some(i64::MAX));
    assert_eq!(r.unwrap_err(), StoreError::SortOrderExhausted);
}

#[test]
fn update_category_partial_fields() {
    let cat = stored(1, "Old", 0);
    let s = categories::update(
        cat.clone(),
        UpdateCategoryInput { id: cat.id, name: Some("New".to_string()), sort_order: None },
    );
    assert_eq!(s.sql, UPDATE_CATEGORY);
    assert_eq!(s.args, vec![Arg::Text("New".to_string()), Arg::Int(cat.sort_order), Arg::Int(1)]);
}

#[test]
fn update_category_only_position() {
    let s = categories::update(stored(5, "Keep", 2), UpdateCategoryInput { id: 5, name: None, sort_order: Some(7) });
    assert_eq!(s.args, vec![Arg::Text("Keep".to_string()), Arg::Int(7), Arg::Int(5)]);
}

#[test]
fn update_category_missing_is_not_found() {
    let sel = categories::select(999);
    assert_eq!(sel.sql, SELECT_CATEGORY);
    assert_eq!(sel.args, vec![Arg::Int(999)]);
    assert_eq!(categories::existing(999, None), Err(StoreError::NotFound(Entity::Category, 999)));
    assert_eq!(categories::existing(3, Some(stored(3, "X", 0))), Ok(stored(3, "X", 0)));
}

#[test]
fn delete_category_removes_it() {
    let s = categories::delete(4);
    assert_eq!(s.sql, DELETE_CATEGORY);
    assert_eq!(s.args, vec![Arg::Int(4)]);
    assert_eq!(delete_outcome(Entity::Category, 4, 1), Ok(()));
}

#[test]
fn delete_category_not_found() {
    let r = delete_outcome(Entity::Category, 999, 0);
    assert!(r.is_err());
    assert_eq!(r, Err(StoreError::NotFound(Entity::Category, 999)));
}

#[test]
fn reorder_categories_updates_sort_order() {
    // Reverse order of two categories with ids 1 and 2.
    let s = categories::reorder(&vec![2, 1]);
    assert_eq!(s.len(), 2);
    assert_eq!(s[0].sql, SET_CATEGORY_ORDER);
    assert_eq!(s[0].args, vec![Arg::Int(0), Arg::Int(2)]);
    assert_eq!(s[1].sql, SET_CATEGORY_ORDER);
    assert_eq!(s[1].args, vec![Arg::Int(1), Arg::Int(1)]);
}

#[test]
fn reorder_empty_writes_nothing() {
    assert!(categories::reorder(&Vec::new()).is_empty());
}

#[test]
fn setup_creates_both_tables_then_enables_cascade() {
    let s = setup();
    assert_eq!(s.len(), 3);
    assert_eq!(s[0].sql, CREATE_CATEGORIES);
    assert_eq!(s[1].sql, CREATE_ITEMS);
    assert!(s[1].sql.contains("ON DELETE CASCADE"));
    assert_eq!(s[2].sql, ENABLE_FOREIGN_KEYS);
    assert!(s.iter().all(|st| st.args.is_empty()));
}

#[test]
fn create_session_inserts_then_returns_row() {
    let step = categories::start_create(CreateCategoryInput { name: "Shortcuts".to_string() });
    let Step::Ask(Request::Scalar(s), stage) = step else { panic!("expected a scalar request") };
    assert_eq!(s.sql, MAX_CATEGORY_ORDER);
    let step = categories::advance(stage, Reply::Scalar(Some(2)));
    let Step::Ask(Request::Execute(s), stage) = step else { panic!("expected an insert") };
    assert_eq!(s.sql, INSERT_CATEGORY);
    assert_eq!(s.args, vec![Arg::Text("Shortcuts".to_string()), Arg::Int(3)]);
    let step = categories::advance(stage, Reply::Executed { rows_affected: 1, last_insert_rowid: 17 });
    let Step::Ask(Request::Row(s), stage) = step else { panic!("expected a row request") };
    assert_eq!(s.sql, SELECT_CATEGORY);
    assert_eq!(s.args, vec![Arg::Int(17)]);
    let step = categories::advance(stage, Reply::Row(Some(stored(17, "Shortcuts", 3))));
    let Step::Finish(r) = step else { panic!("expected the end") };
    assert_eq!(r, Ok(stored(17, "Shortcuts", 3)));
}

#[test]
fn create_session_at_largest_position_fails() {
    let r = categories::advance(
        Stage::Create(CreateCategoryInput { name: "X".to_string() }),
        Reply::Scalar(Some(i64::MAX)),
    );
    assert!(matches!(r, Step::Finish(Err(StoreError::SortOrderExhausted))));
}

#[test]
fn update_session_merges_and_rereads() {
    let input = UpdateCategoryInput { id: 4, name: Some("New".to_string()), sort_order: None };
    let Step::Ask(Request::Row(s), stage) = categories::start_update(input) else { panic!("expected a row request") };
    assert_eq!(s.args, vec![Arg::Int(4)]);
    let step = categories::advance(stage, Reply::Row(Some(stored(4, "Old", 6))));
    let Step::Ask(Request::Execute(s), stage) = step else { panic!("expected a write") };
    assert_eq!(s.sql, UPDATE_CATEGORY);
    assert_eq!(s.args, vec![Arg::Text("New".to_string()), Arg::Int(6), Arg::Int(4)]);
    let step = categories::advance(stage, Reply::Executed { rows_affected: 1, last_insert_rowid: 0 });
    let Step::Ask(Request::Row(s), stage) = step else { panic!("expected a row request") };
    assert_eq!(s.args, vec![Arg::Int(4)]);
    let Step::Finish(r) = categories::advance(stage, Reply::Row(Some(stored(4, "New", 6)))) else {
        panic!("expected the end")
    };
    assert_eq!(r.unwrap().name, "New");
}

#[test]
fn update_session_missing_is_not_found() {
    let input = UpdateCategoryInput { id: 999, name: None, sort_order: Some(1) };
    let r = categories::advance(Stage::Update(input), Reply::Row(None));
    assert!(matches!(r, Step::Finish(Err(StoreError::NotFound(Entity::Category, 999)))));
}

#[test]
fn session_rejects_reply_of_wrong_kind() {
    let r = categories::advance(Stage::Inserted, Reply::Scalar(Some(1)));
    assert!(matches!(r, Step::Finish(Err(StoreError::UnexpectedReply))));
    let r = categories::advance(Stage::Fetched(3), Reply::Executed { rows_affected: 1, last_insert_rowid: 3 });
    assert!(matches!(r, Step::Finish(Err(StoreError::UnexpectedReply))));
}
