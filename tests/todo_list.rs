use htmx_todo::{
    add_todo, check_text, list_todos, remove_todo, toggle_todo, update_outcome, Completion,
    TodoError, TodoItem, TodoStore,
};

fn snapshot(store: &TodoStore) -> Vec<(u64, String, Completion)> {
    list_todos(store)
        .into_iter()
        .map(|t| (t.id, t.text, t.state))
        .collect()
}

#[test]
fn add_toggle_delete_scenario() {
    let mut store = TodoStore::new();
    let item = add_todo(&mut store, "Buy milk").unwrap();
    assert_eq!(item.id, 1);
    assert_eq!(item.text, "Buy milk");
    assert_eq!(item.state, Completion::Pending);
    assert_eq!(
        snapshot(&store),
        vec![(1, "Buy milk".to_string(), Completion::Pending)]
    );
    assert_eq!(toggle_todo(&mut store, 1), Ok(Completion::Complete));
    assert_eq!(
        snapshot(&store),
        vec![(1, "Buy milk".to_string(), Completion::Complete)]
    );
    remove_todo(&mut store, 1);
    assert!(snapshot(&store).is_empty());
}

#[test]
fn add_lists_exactly_one_new_pending_item() {
    let mut store = TodoStore::new();
    add_todo(&mut store, "first").unwrap();
    add_todo(&mut store, "second").unwrap();
    let before = snapshot(&store);
    let added = add_todo(&mut store, "walk the dog").unwrap();
    let after = snapshot(&store);
    assert_eq!(after.len(), before.len() + 1);
    let new: Vec<_> = after
        .iter()
        .filter(|r| !before.iter().any(|b| b.0 == r.0))
        .collect();
    assert_eq!(new.len(), 1);
    assert_eq!(new[0].0, added.id);
    assert_eq!(new[0].1, "walk the dog");
    assert_eq!(new[0].2, Completion::Pending);
    assert_eq!(&after[..before.len()], &before[..]);
}

#[test]
fn ids_are_never_reused() {
    let mut store = TodoStore::new();
    add_todo(&mut store, "a").unwrap();
    let b = add_todo(&mut store, "b").unwrap();
    remove_todo(&mut store, b.id);
    let c = add_todo(&mut store, "c").unwrap();
    assert_eq!(c.id, 3);
    assert_eq!(
        snapshot(&store),
        vec![
            (1, "a".to_string(), Completion::Pending),
            (3, "c".to_string(), Completion::Pending)
        ]
    );
}

#[test]
fn toggle_twice_restores_state() {
    let mut store = TodoStore::new();
    add_todo(&mut store, "one").unwrap();
    add_todo(&mut store, "two").unwrap();
    toggle_todo(&mut store, 1).unwrap();
    let before = snapshot(&store);
    assert_eq!(toggle_todo(&mut store, 2), Ok(Completion::Complete));
    assert_eq!(toggle_todo(&mut store, 2), Ok(Completion::Pending));
    assert_eq!(snapshot(&store), before);
    assert_eq!(toggle_todo(&mut store, 1), Ok(Completion::Pending));
}

#[test]
fn remove_twice_is_no_error() {
    let mut store = TodoStore::new();
    add_todo(&mut store, "one").unwrap();
    add_todo(&mut store, "two").unwrap();
    remove_todo(&mut store, 1);
    assert!(snapshot(&store).iter().all(|r| r.0 != 1));
    let after_first = snapshot(&store);
    remove_todo(&mut store, 1);
    assert_eq!(snapshot(&store), after_first);
    assert_eq!(after_first, vec![(2, "two".to_string(), Completion::Pending)]);
}

#[test]
fn toggle_missing_id_is_not_found() {
    let mut store = TodoStore::new();
    assert_eq!(toggle_todo(&mut store, 1), Err(TodoError::NotFound));
    add_todo(&mut store, "x").unwrap();
    let before = snapshot(&store);
    assert_eq!(toggle_todo(&mut store, 7), Err(TodoError::NotFound));
    assert_eq!(snapshot(&store), before);
    remove_todo(&mut store, 1);
    assert_eq!(toggle_todo(&mut store, 1), Err(TodoError::NotFound));
}

#[test]
fn fetch_one_finds_or_reports_missing() {
    let mut store = TodoStore::new();
    store.insert("kept".to_string()).unwrap();
    let item: TodoItem = store.fetch_one(1).unwrap();
    assert_eq!(item.text, "kept");
    assert_eq!(item.state, Completion::Pending);
    assert_eq!(store.fetch_one(2).unwrap_err(), TodoError::NotFound);
}

#[test]
fn blank_text_is_refused() {
    let mut store = TodoStore::new();
    assert_eq!(add_todo(&mut store, "").unwrap_err(), TodoError::Validation);
    assert_eq!(add_todo(&mut store, "  \t\n").unwrap_err(), TodoError::Validation);
    assert_eq!(add_todo(&mut store, "\u{3000}").unwrap_err(), TodoError::Validation);
    assert!(snapshot(&store).is_empty());
    let item = add_todo(&mut store, "  padded  ").unwrap();
    assert_eq!(item.text, "  padded  ");
    assert_eq!(item.id, 1);
}

#[test]
fn check_text_keeps_text_verbatim() {
    assert_eq!(check_text(" é x ").unwrap(), " é x ");
    assert_eq!(check_text(" ").unwrap_err(), TodoError::Validation);
}

#[test]
fn error_status_codes() {
    assert_eq!(TodoError::Validation.status_code(), 400);
    assert_eq!(TodoError::NotFound.status_code(), 404);
    assert_eq!(TodoError::Storage.status_code(), 500);
}

#[test]
fn update_outcome_by_rows_affected() {
    assert_eq!(update_outcome(0), Err(TodoError::NotFound));
    assert_eq!(update_outcome(1), Ok(()));
}

#[test]
fn completion_flags() {
    assert_eq!(Completion::from_flag(0), Completion::Pending);
    assert_eq!(Completion::from_flag(1), Completion::Complete);
    assert_eq!(Completion::from_flag(-3), Completion::Complete);
    assert_eq!(Completion::Pending.flag(), 0);
    assert_eq!(Completion::Complete.flag(), 1);
    assert_eq!(Completion::Pending.toggled(), Completion::Complete);
    assert_eq!(Completion::Complete.toggled(), Completion::Pending);
}

#[test]
fn duplicate_keeps_fields() {
    let item = TodoItem { id: 9, text: "t".to_string(), state: Completion::Complete };
    let copy = item.duplicate();
    assert_eq!(copy.id, 9);
    assert_eq!(copy.text, "t");
    assert_eq!(copy.state, Completion::Complete);
}
