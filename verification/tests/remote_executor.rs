//! The remote executor's decision logic, driven with hand-fed round
//! trip outcomes, and its agreement with the local path.

use yesser_todo::batch::OpKind;
use yesser_todo::dispatch::remote_plan;
use yesser_todo::dispatch::RemotePlan;
use yesser_todo::errors::CommandError;
use yesser_todo::local::handle_add;
use yesser_todo::local::handle_done_undone;
use yesser_todo::local::handle_remove;
use yesser_todo::remote::check_exists_cloud;
use yesser_todo::remote::remote_clear_result;
use yesser_todo::remote::remote_list_result;
use yesser_todo::remote::CallOutcome;
use yesser_todo::remote::ListOutcome;
use yesser_todo::remote::ProbeOutcome;
use yesser_todo::remote::RemoteBatch;
use yesser_todo::requests::ClearCommand;
use yesser_todo::requests::CloudCommand;
use yesser_todo::requests::Command;
use yesser_todo::requests::TasksCommand;
use yesser_todo::Task;

fn name_list(list: &[&str]) -> Vec<String> {
    list.iter().map(|s| s.to_string()).collect()
}

#[test]
fn check_exists_cloud_maps_outcomes() {
    let task = "t".to_string();
    assert_eq!(check_exists_cloud(&task, &ProbeOutcome::Found(3)), Ok(true));
    assert_eq!(check_exists_cloud(&task, &ProbeOutcome::Missing), Ok(false));
    match check_exists_cloud(&task, &ProbeOutcome::HttpFailure(500)) {
        Err(CommandError::HTTPError { name, status_code }) => {
            assert_eq!(name, "t");
            assert_eq!(status_code, 500);
        }
        other => panic!("expected http error, got {:?}", other),
    }
    match check_exists_cloud(&task, &ProbeOutcome::Unreachable) {
        Err(CommandError::ConnectionError { name }) => assert_eq!(name, "t"),
        other => panic!("expected connection error, got {:?}", other),
    }
}

#[test]
fn remote_batch_rejects_duplicates_before_any_probe() {
    let r = RemoteBatch::begin(OpKind::Add, name_list(&["x", "x"]));
    match r {
        Err(CommandError::DuplicateInput { name }) => assert_eq!(name, "x"),
        other => panic!("expected duplicate input, got {:?}", other),
    }
    let r = RemoteBatch::begin(OpKind::Remove, name_list(&[]));
    assert!(matches!(r, Err(CommandError::NoTasksSpecified)));
}

#[test]
fn remote_add_existing_fails_without_mutating() {
    let mut batch = RemoteBatch::begin(OpKind::Add, name_list(&["x"])).unwrap();
    assert_eq!(batch.pending_probe().unwrap(), "x");
    let r = batch.record_probe(&ProbeOutcome::Found(0));
    match r {
        Err(CommandError::TaskExists { name }) => assert_eq!(name, "x"),
        other => panic!("expected task exists, got {:?}", other),
    }
    assert!(batch.pending_probe().is_none());
    assert!(batch.pending_call().is_none());
}

#[test]
fn remote_remove_missing_fails_without_mutating() {
    let mut batch = RemoteBatch::begin(OpKind::Remove, name_list(&["gone"])).unwrap();
    let r = batch.record_probe(&ProbeOutcome::Missing);
    match r {
        Err(CommandError::TaskNotFound { name }) => assert_eq!(name, "gone"),
        other => panic!("expected task not found, got {:?}", other),
    }
    assert!(batch.pending_call().is_none());
}

#[test]
fn remote_done_missing_fails_without_mutating() {
    let mut batch = RemoteBatch::begin(OpKind::MarkDone, name_list(&["gone"])).unwrap();
    let r = batch.record_probe(&ProbeOutcome::Missing);
    assert!(matches!(r, Err(CommandError::TaskNotFound { .. })));
    assert!(batch.pending_call().is_none());
}

#[test]
fn remote_add_full_run() {
    let mut batch = RemoteBatch::begin(OpKind::Add, name_list(&["a", "b"])).unwrap();
    assert_eq!(batch.kind(), OpKind::Add);
    assert_eq!(batch.pending_probe().unwrap(), "a");
    batch.record_probe(&ProbeOutcome::Missing).unwrap();
    assert_eq!(batch.pending_probe().unwrap(), "b");
    batch.record_probe(&ProbeOutcome::Missing).unwrap();
    assert!(batch.pending_probe().is_none());
    assert_eq!(batch.pending_call().unwrap(), "a");
    batch.record_call(&CallOutcome::Accepted).unwrap();
    assert_eq!(batch.pending_call().unwrap(), "b");
    batch.record_call(&CallOutcome::Accepted).unwrap();
    assert!(batch.pending_call().is_none());
    assert!(batch.pending_probe().is_none());
}

#[test]
fn remote_mutation_failure_stops_after_commit() {
    let mut batch = RemoteBatch::begin(OpKind::Add, name_list(&["a", "b"])).unwrap();
    batch.record_probe(&ProbeOutcome::Missing).unwrap();
    batch.record_probe(&ProbeOutcome::Missing).unwrap();
    batch.record_call(&CallOutcome::Accepted).unwrap();
    let r = batch.record_call(&CallOutcome::Unreachable);
    match r {
        Err(CommandError::ConnectionError { name }) => assert_eq!(name, "b"),
        other => panic!("expected connection error, got {:?}", other),
    }
    assert!(batch.pending_call().is_none());
}

#[test]
fn remote_mark_late_not_found_is_task_not_found() {
    let mut batch = RemoteBatch::begin(OpKind::MarkDone, name_list(&["a"])).unwrap();
    batch.record_probe(&ProbeOutcome::Found(0)).unwrap();
    let r = batch.record_call(&CallOutcome::Rejected(404));
    match r {
        Err(CommandError::TaskNotFound { name }) => assert_eq!(name, "a"),
        other => panic!("expected task not found, got {:?}", other),
    }
}

#[test]
fn remote_mark_other_rejection_is_http_error() {
    let mut batch = RemoteBatch::begin(OpKind::MarkUndone, name_list(&["a"])).unwrap();
    batch.record_probe(&ProbeOutcome::Found(0)).unwrap();
    let r = batch.record_call(&CallOutcome::Rejected(500));
    match r {
        Err(CommandError::HTTPError { name, status_code }) => {
            assert_eq!(name, "a");
            assert_eq!(status_code, 500);
        }
        other => panic!("expected http error, got {:?}", other),
    }
}

#[test]
fn remote_remove_rejection_is_http_error() {
    let mut batch = RemoteBatch::begin(OpKind::Remove, name_list(&["a"])).unwrap();
    batch.record_probe(&ProbeOutcome::Found(0)).unwrap();
    let r = batch.record_call(&CallOutcome::Rejected(404));
    assert!(matches!(r, Err(CommandError::HTTPError { .. })));
}

#[test]
fn remote_probe_failure_is_reported_as_is() {
    let mut batch = RemoteBatch::begin(OpKind::Add, name_list(&["a"])).unwrap();
    let r = batch.record_probe(&ProbeOutcome::HttpFailure(503));
    match r {
        Err(CommandError::HTTPError { name, status_code }) => {
            assert_eq!(name, "a");
            assert_eq!(status_code, 503);
        }
        other => panic!("expected http error, got {:?}", other),
    }
}

#[test]
fn remote_clear_outcomes() {
    assert!(remote_clear_result(&CallOutcome::Accepted).is_ok());
    match remote_clear_result(&CallOutcome::Rejected(500)) {
        Err(e) => assert_eq!(e.message(), "HTTP error code: 500!"),
        other => panic!("expected an error, got {:?}", other),
    }
    match remote_clear_result(&CallOutcome::Unreachable) {
        Err(e) => assert_eq!(e.message(), "Failed to connect to the server!"),
        other => panic!("expected an error, got {:?}", other),
    }
}

#[test]
fn remote_list_outcomes() {
    let fetched = vec![Task {
        name: "a".to_string(),
        done: true,
    }];
    match remote_list_result(ListOutcome::Fetched(fetched)) {
        Ok(tasks) => {
            assert_eq!(tasks.len(), 1);
            assert_eq!(tasks[0].name, "a");
            assert!(tasks[0].done);
        }
        other => panic!("expected tasks, got {:?}", other),
    }
    match remote_list_result(ListOutcome::Rejected(502)) {
        Err(e) => assert_eq!(e.message(), "HTTP error code: 502!"),
        other => panic!("expected an error, got {:?}", other),
    }
}

#[test]
fn remote_plan_routes_commands() {
    match remote_plan(Command::Add(TasksCommand { tasks: name_list(&["a"]) })) {
        RemotePlan::Batch(b) => assert_eq!(b.kind(), OpKind::Add),
        other => panic!("expected a batch, got {:?}", other),
    }
    match remote_plan(Command::Add(TasksCommand { tasks: name_list(&["a", "a"]) })) {
        RemotePlan::Invalid(CommandError::DuplicateInput { name }) => assert_eq!(name, "a"),
        other => panic!("expected invalid, got {:?}", other),
    }
    assert!(matches!(
        remote_plan(Command::Clear(ClearCommand { done: false })),
        RemotePlan::Clear { done_only: false }
    ));
    assert!(matches!(
        remote_plan(Command::ClearDone),
        RemotePlan::Clear { done_only: true }
    ));
    assert!(matches!(remote_plan(Command::List), RemotePlan::List));
    assert!(matches!(remote_plan(Command::Disconnect), RemotePlan::Disconnect));
    match remote_plan(Command::Connect(CloudCommand {
        host: "example.com".to_string(),
        port: None,
    })) {
        RemotePlan::Connect(cfg) => {
            assert_eq!(cfg.host, "example.com");
            assert_eq!(cfg.port, "6982");
        }
        other => panic!("expected a connect plan, got {:?}", other),
    }
}

#[test]
fn remote_and_local_agree_on_failing_batches() {
    // The same initial task set, the same requests, on both paths:
    // the reported error kind must agree.
    let store = vec![
        Task {
            name: "a".to_string(),
            done: false,
        },
        Task {
            name: "b".to_string(),
            done: true,
        },
    ];
    let probe = |name: &String| -> ProbeOutcome {
        match store.iter().position(|t| t.name == *name) {
            Some(i) => ProbeOutcome::Found(i),
            None => ProbeOutcome::Missing,
        }
    };

    // add-duplicate: adding a name already present.
    let mut local_store = store.clone();
    let local = handle_add(
        &TasksCommand { tasks: name_list(&["a"]) },
        &mut local_store,
    );
    let mut batch = RemoteBatch::begin(OpKind::Add, name_list(&["a"])).unwrap();
    let outcome = probe(&batch.pending_probe().unwrap().clone());
    let remote = batch.record_probe(&outcome);
    assert_eq!(local.unwrap_err(), remote.unwrap_err());
    assert_eq!(local_store.len(), store.len());

    // remove-missing.
    let mut local_store = store.clone();
    let local = handle_remove(
        &TasksCommand { tasks: name_list(&["c"]) },
        &mut local_store,
    );
    let mut batch = RemoteBatch::begin(OpKind::Remove, name_list(&["c"])).unwrap();
    let outcome = probe(&batch.pending_probe().unwrap().clone());
    let remote = batch.record_probe(&outcome);
    assert_eq!(local.unwrap_err(), remote.unwrap_err());
    assert_eq!(local_store.len(), store.len());

    // done-missing.
    let mut local_store = store.clone();
    let local = handle_done_undone(
        &TasksCommand { tasks: name_list(&["c"]) },
        &mut local_store,
        true,
    );
    let mut batch = RemoteBatch::begin(OpKind::MarkDone, name_list(&["c"])).unwrap();
    let outcome = probe(&batch.pending_probe().unwrap().clone());
    let remote = batch.record_probe(&outcome);
    assert_eq!(local.unwrap_err(), remote.unwrap_err());
    assert_eq!(local_store.len(), store.len());
}
