//! The local executor and the store: validation, atomicity, order,
//! idempotent marks and clear semantics, on concrete task lists.

use yesser_todo::dispatch::execute_local;
use yesser_todo::dispatch::needs_followup_list;
use yesser_todo::errors::CommandError;
use yesser_todo::get_index;
use yesser_todo::exactly_matches;
use yesser_todo::local::handle_add;
use yesser_todo::local::handle_clear;
use yesser_todo::local::handle_clear_done;
use yesser_todo::local::handle_done_undone;
use yesser_todo::local::handle_remove;
use yesser_todo::requests::ClearCommand;
use yesser_todo::requests::Command;
use yesser_todo::requests::TasksCommand;
use yesser_todo::store::SaveData;
use yesser_todo::Task;

fn task(name: &str, done: bool) -> Task {
    Task {
        name: name.to_string(),
        done,
    }
}

fn names(list: &[&str]) -> TasksCommand {
    TasksCommand {
        tasks: list.iter().map(|s| s.to_string()).collect(),
    }
}

#[test]
fn resolver_finds_first_exact_match() {
    let tasks = vec![task("a", false), task("b", true)];
    assert_eq!(get_index(&tasks, &"b".to_string()), Some(1));
    let empty: Vec<Task> = Vec::new();
    assert_eq!(get_index(&empty, &"a".to_string()), None);
    let dup = vec![task("a", false), task("a", true)];
    assert_eq!(get_index(&dup, &"a".to_string()), Some(0));
}

#[test]
fn resolver_is_case_sensitive() {
    let tasks = vec![task("Milk", false)];
    assert_eq!(get_index(&tasks, &"milk".to_string()), None);
    assert!(exactly_matches(&task("milk", true), &"milk".to_string()));
    assert!(!exactly_matches(&task("milk", true), &"Milk".to_string()));
}

#[test]
fn add_appends_in_request_order() {
    let mut data: Vec<Task> = Vec::new();
    handle_add(&names(&["a", "b"]), &mut data).unwrap();
    assert_eq!(data.len(), 2);
    assert_eq!(data[0].name, "a");
    assert!(!data[0].done);
    assert_eq!(data[1].name, "b");
    assert!(!data[1].done);
}

#[test]
fn add_rejects_empty_batch() {
    let mut data: Vec<Task> = Vec::new();
    let r = handle_add(&names(&[]), &mut data);
    assert!(matches!(r, Err(CommandError::NoTasksSpecified)));
}

#[test]
fn add_duplicate_input_detected_before_existence() {
    let mut data: Vec<Task> = Vec::new();
    let r = handle_add(&names(&["x", "x"]), &mut data);
    match r {
        Err(CommandError::DuplicateInput { name }) => assert_eq!(name, "x"),
        other => panic!("expected duplicate input, got {:?}", other),
    }
    assert!(data.is_empty());
}

#[test]
fn add_existing_leaves_store_unchanged() {
    let mut data = vec![task("x", false)];
    let r = handle_add(&names(&["new", "x"]), &mut data);
    match r {
        Err(CommandError::TaskExists { name }) => assert_eq!(name, "x"),
        other => panic!("expected task exists, got {:?}", other),
    }
    assert_eq!(data.len(), 1);
    assert_eq!(data[0].name, "x");
}

#[test]
fn remove_missing_leaves_store_unchanged() {
    let mut data = vec![task("keep", false)];
    let r = handle_remove(&names(&["keep", "gone"]), &mut data);
    match r {
        Err(CommandError::TaskNotFound { name }) => assert_eq!(name, "gone"),
        other => panic!("expected task not found, got {:?}", other),
    }
    assert_eq!(data.len(), 1);
    assert_eq!(data[0].name, "keep");
}

#[test]
fn remove_re_resolves_positions() {
    let mut data = vec![task("a", false), task("b", false), task("c", false)];
    handle_remove(&names(&["a", "c"]), &mut data).unwrap();
    assert_eq!(data.len(), 1);
    assert_eq!(data[0].name, "b");
}

#[test]
fn done_marks_tasks() {
    let mut data = vec![task("a", false), task("b", false)];
    handle_done_undone(&names(&["b"]), &mut data, true).unwrap();
    assert!(!data[0].done);
    assert!(data[1].done);
}

#[test]
fn done_on_already_done_is_idempotent() {
    let mut data = vec![task("a", true)];
    let r = handle_done_undone(&names(&["a"]), &mut data, true);
    assert!(r.is_ok());
    assert!(data[0].done);
}

#[test]
fn undone_on_missing_reports_not_found() {
    let mut data = vec![task("a", true)];
    let r = handle_done_undone(&names(&["b"]), &mut data, false);
    assert!(matches!(r, Err(CommandError::TaskNotFound { .. })));
    assert!(data[0].done);
}

#[test]
fn clear_done_only_keeps_pending() {
    let mut data = vec![task("a", false), task("b", true)];
    handle_clear(&ClearCommand { done: true }, &mut data).unwrap();
    assert_eq!(data.len(), 1);
    assert_eq!(data[0].name, "a");
    assert!(!data[0].done);
}

#[test]
fn clear_drops_everything() {
    let mut data = vec![task("a", false), task("b", true)];
    handle_clear(&ClearCommand { done: false }, &mut data).unwrap();
    assert!(data.is_empty());
}

#[test]
fn clear_done_alias_behaves_like_done_only_clear() {
    let mut data = vec![task("done-task", true), task("keep-task", false)];
    handle_clear_done(&mut data).unwrap();
    assert_eq!(data.len(), 1);
    assert_eq!(data[0].name, "keep-task");
}

#[test]
fn store_primitives_follow_the_collection() {
    let mut store = SaveData::new();
    assert!(store.get_tasks().is_empty());
    store.add_task(task("a", false));
    store.add_task(task("b", false));
    assert_eq!(store.get_tasks().len(), 2);
    let was_done = store.mark_task_done(1);
    assert!(!was_done);
    assert!(store.get_tasks()[1].done);
    let was_undone = store.mark_task_undone(1);
    assert!(!was_undone);
    assert!(!store.get_tasks()[1].done);
    store.remove_task(0);
    assert_eq!(store.get_tasks().len(), 1);
    assert_eq!(store.get_tasks()[0].name, "b");
    store.add_task(task("c", true));
    store.clear_done_tasks();
    assert_eq!(store.get_tasks().len(), 1);
    assert_eq!(store.get_tasks()[0].name, "b");
    store.clear_tasks();
    assert!(store.get_tasks().is_empty());
}

#[test]
fn end_to_end_scenario() {
    let mut store = SaveData::new();

    let add = Command::Add(names(&["buy milk"]));
    execute_local(&add, &mut store).unwrap();
    assert!(needs_followup_list(&add));
    assert_eq!(store.get_tasks().len(), 1);
    assert_eq!(store.get_tasks()[0].name, "buy milk");
    assert!(!store.get_tasks()[0].done);

    let done = Command::Done(names(&["buy milk"]));
    execute_local(&done, &mut store).unwrap();
    assert!(store.get_tasks()[0].done);

    let clear = Command::Clear(ClearCommand { done: true });
    execute_local(&clear, &mut store).unwrap();
    assert!(store.get_tasks().is_empty());

    let list = Command::List;
    execute_local(&list, &mut store).unwrap();
    assert!(!needs_followup_list(&list));
    assert!(store.get_tasks().is_empty());
}

#[test]
fn dispatcher_clear_done_alias() {
    let mut store = SaveData::new();
    store.add_task(task("a", true));
    store.add_task(task("b", false));
    execute_local(&Command::ClearDone, &mut store).unwrap();
    assert_eq!(store.get_tasks().len(), 1);
    assert_eq!(store.get_tasks()[0].name, "b");
}

#[test]
fn dispatcher_reports_validation_errors() {
    let mut store = SaveData::new();
    let r = execute_local(&Command::Remove(names(&["ghost"])), &mut store);
    assert!(matches!(r, Err(CommandError::TaskNotFound { .. })));
    let r = execute_local(&Command::Done(names(&[])), &mut store);
    assert!(matches!(r, Err(CommandError::NoTasksSpecified)));
}
