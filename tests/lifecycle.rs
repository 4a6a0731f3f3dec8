use task_lifecycle::error::{Entity, ServiceError, Stage};
use task_lifecycle::flow::{
    create_task, create_user, task_complete, CompleteTaskState, CreateTaskState, CreateUserState,
    Event,
};
use task_lifecycle::mask::{apply_mask, completion_mask, TaskField};
use task_lifecycle::model::{
    new_task, parse_status, CreateTaskCommand, Task, TaskCompletedEvent, TaskData, TaskStatus,
};
use task_lifecycle::store::MemoryStore;

fn command(user: &str, task: &str, path: &str) -> CreateTaskCommand {
    CreateTaskCommand {
        user_id: user.to_string(),
        task_id: task.to_string(),
        object_path: path.to_string(),
        task_data: None,
    }
}

fn completion(user: &str, task: &str, status: &str, result: Option<&str>) -> TaskCompletedEvent {
    TaskCompletedEvent {
        user_id: user.to_string(),
        task_id: task.to_string(),
        status: status.to_string(),
        result: result.map(|r| r.to_string()),
    }
}

fn store_with_user(user: &str) -> MemoryStore {
    let mut store = MemoryStore::new();
    let r = store.run_create_user(CreateUserState::start(user.to_string()));
    assert!(r.is_ok());
    store
}

fn count_tasks(store: &MemoryStore, scope: &str, id: &str) -> usize {
    store.tasks.iter().filter(|t| t.scope == scope && t.task.task_id == id).count()
}

fn stored_task(store: &MemoryStore, scope: &str, id: &str) -> Task {
    match store.find_task(&scope.to_string(), &id.to_string()) {
        Some(i) => store.tasks[i].task.clone(),
        None => panic!("task {} not stored", id),
    }
}

#[test]
fn create_task_for_existing_user() {
    let mut store = store_with_user("u1");
    let r = store.run_create_task(CreateTaskState::start(command("u1", "t1", "gs://x"), 1_700_000_000));
    let task = r.expect("created");
    assert_eq!(task.status, TaskStatus::Queued);
    assert_eq!(task.created_by, "u1");
    assert_eq!(task.task_id, "t1");
    assert_eq!(task.object_path, "gs://x");
    assert_eq!(task.created_at, Some(1_700_000_000));
    assert_eq!(task.updated_at, Some(1_700_000_000));
    assert_eq!(task.duration_seconds, 0);
    assert_eq!(task.result, None);
    assert_eq!(task.last_publish_time, None);
    assert_eq!(CreateTaskState::Done(Ok(task)).http_status(), Some(201));
    assert_eq!(count_tasks(&store, "u1", "t1"), 1);
    assert_eq!(store.published.len(), 1);
    assert_eq!(store.published[0].task_id, "t1");
}

#[test]
fn duplicate_create_conflicts() {
    let mut store = store_with_user("u1");
    let first = store.run_create_task(CreateTaskState::start(command("u1", "t1", "gs://x"), 10));
    assert!(first.is_ok());
    let second = store.run_create_task(CreateTaskState::start(command("u1", "t1", "gs://x"), 20));
    assert!(matches!(second, Err(ServiceError::Conflict(Entity::Task))));
    assert_eq!(CreateTaskState::Done(second).http_status(), Some(409));
    assert_eq!(count_tasks(&store, "u1", "t1"), 1);
    assert_eq!(store.tasks.len(), 1);
    assert_eq!(store.published.len(), 1);
    assert_eq!(stored_task(&store, "u1", "t1").created_at, Some(10));
}

#[test]
fn same_task_id_under_two_users() {
    let mut store = store_with_user("u1");
    assert!(store.run_create_user(CreateUserState::start("u2".to_string())).is_ok());
    assert!(store.run_create_task(CreateTaskState::start(command("u1", "t1", "a"), 1)).is_ok());
    assert!(store.run_create_task(CreateTaskState::start(command("u2", "t1", "b"), 2)).is_ok());
    assert_eq!(count_tasks(&store, "u1", "t1"), 1);
    assert_eq!(count_tasks(&store, "u2", "t1"), 1);
    assert_eq!(stored_task(&store, "u2", "t1").object_path, "b");
}

#[test]
fn complete_task_records_result() {
    let mut store = store_with_user("u1");
    assert!(store.run_create_task(CreateTaskState::start(command("u1", "t1", "gs://x"), 100)).is_ok());
    let r = store.run_task_complete(CompleteTaskState::start(
        completion("u1", "t1", "Completed", Some("{\"ok\":true}")),
        250,
    ));
    let task = r.expect("updated");
    assert_eq!(task.status, TaskStatus::Completed);
    assert_eq!(task.result.as_deref(), Some("{\"ok\":true}"));
    assert_eq!(task.object_path, "gs://x");
    assert_eq!(CompleteTaskState::Done(Ok(task)).http_status(), Some(200));
    let stored = stored_task(&store, "u1", "t1");
    assert_eq!(stored.status, TaskStatus::Completed);
    assert_eq!(stored.result.as_deref(), Some("{\"ok\":true}"));
    assert_eq!(stored.object_path, "gs://x");
    assert_eq!(stored.created_by, "u1");
    assert_eq!(stored.created_at, Some(100));
    assert_eq!(stored.updated_at, Some(250));
    assert_eq!(stored.duration_seconds, 0);
}

#[test]
fn completion_clears_last_publish_time_and_keeps_payload() {
    let mut store = store_with_user("u1");
    let mut cmd = command("u1", "t1", "gs://y");
    cmd.task_data = Some(TaskData { json: Some("{\"k\":1}".to_string()) });
    assert!(store.run_create_task(CreateTaskState::start(cmd, 5)).is_ok());
    store.tasks[0].task.last_publish_time = Some(7);
    store.tasks[0].task.duration_seconds = 42;
    let task = store
        .run_task_complete(CompleteTaskState::start(completion("u1", "t1", "Failed", None), 9))
        .expect("updated");
    assert_eq!(task.last_publish_time, None);
    assert_eq!(task.duration_seconds, 0);
    assert_eq!(task.status, TaskStatus::Failed);
    assert_eq!(task.data.json.as_deref(), Some("{\"k\":1}"));
    assert_eq!(task.created_at, Some(5));
    assert_eq!(task.updated_at, Some(9));
}

#[test]
fn complete_unknown_task_is_not_found() {
    let mut store = store_with_user("u1");
    let r = store.run_task_complete(CompleteTaskState::start(
        completion("u1", "never", "Completed", None),
        1,
    ));
    assert!(matches!(r, Err(ServiceError::NotFound(Entity::Task))));
    assert_eq!(CompleteTaskState::Done(r).http_status(), Some(404));
}

#[test]
fn bogus_status_is_refused_without_mutation() {
    let mut store = store_with_user("u1");
    assert!(store.run_create_task(CreateTaskState::start(command("u1", "t1", "gs://x"), 1)).is_ok());
    let start = CompleteTaskState::start(completion("u1", "t1", "BOGUS", Some("x")), 2);
    assert_eq!(start.http_status(), Some(400));
    let r = store.run_task_complete(start);
    match &r {
        Err(ServiceError::InvalidStatus(s)) => assert_eq!(s, "BOGUS"),
        other => panic!("unexpected {:?}", other),
    }
    let stored = stored_task(&store, "u1", "t1");
    assert_eq!(stored.status, TaskStatus::Queued);
    assert_eq!(stored.result, None);
    assert_eq!(stored.updated_at, Some(1));
}

#[test]
fn create_for_missing_user_is_not_found() {
    let mut store = MemoryStore::new();
    let r = store.run_create_task(CreateTaskState::start(command("ghost", "t1", "p"), 1));
    assert!(matches!(r, Err(ServiceError::NotFound(Entity::User))));
    assert_eq!(CreateTaskState::Done(r).http_status(), Some(404));
    assert!(store.tasks.is_empty());
    assert!(store.published.is_empty());
}

#[test]
fn complete_for_missing_user_is_not_found() {
    let mut store = MemoryStore::new();
    let r = store.run_task_complete(CompleteTaskState::start(
        completion("ghost", "t1", "Running", None),
        1,
    ));
    assert!(matches!(r, Err(ServiceError::NotFound(Entity::User))));
}

#[test]
fn create_user_twice_reports_found() {
    let mut store = store_with_user("u1");
    let r = store.run_create_user(CreateUserState::start("u1".to_string()));
    assert!(matches!(r, Err(ServiceError::Conflict(Entity::User))));
    assert_eq!(CreateUserState::Done(r).http_status(), Some(302));
    assert_eq!(store.users.len(), 1);
    assert_eq!(CreateUserState::Done(Ok(())).http_status(), Some(201));
}

#[test]
fn unresolvable_scope_is_internal() {
    let mut store = store_with_user("");
    let r = store.run_create_task(CreateTaskState::start(command("", "t1", "p"), 1));
    assert!(matches!(r, Err(ServiceError::Internal(Stage::ParentPath, _))));
    assert_eq!(CreateTaskState::Done(r).http_status(), Some(500));
    assert!(store.tasks.is_empty());
}

#[test]
fn store_outage_is_internal_not_absent() {
    let mut store = store_with_user("u1");
    store.outage = Some("connection refused".to_string());
    let r = store.run_create_task(CreateTaskState::start(command("u1", "t1", "p"), 1));
    match &r {
        Err(ServiceError::Internal(Stage::CheckUser, cause)) => {
            assert_eq!(cause, "connection refused")
        }
        other => panic!("unexpected {:?}", other),
    }
    assert!(store.published.is_empty());
}

#[test]
fn publish_failure_reports_error_but_task_persists() {
    let mut store = store_with_user("u1");
    store.bus_outage = Some("bus down".to_string());
    let r = store.run_create_task(CreateTaskState::start(command("u1", "t1", "p"), 1));
    assert!(matches!(r, Err(ServiceError::Internal(Stage::Publish, _))));
    assert_eq!(count_tasks(&store, "u1", "t1"), 1);
    assert!(store.published.is_empty());
    store.bus_outage = None;
    let again = store.run_create_task(CreateTaskState::start(command("u1", "t1", "p"), 2));
    assert!(matches!(again, Err(ServiceError::Conflict(Entity::Task))));
    assert!(store.published.is_empty());
}

#[test]
fn failed_insert_never_publishes() {
    let task = new_task(&command("u1", "t1", "p"), 3);
    let s = CreateTaskState::Inserting { scope: "u1".to_string(), task };
    let next = create_task(s, Event::Failed("quota".to_string()));
    assert!(matches!(next, CreateTaskState::Done(Err(ServiceError::Internal(Stage::InsertTask, _)))));
    let task = new_task(&command("u1", "t1", "p"), 3);
    let s = CreateTaskState::Inserting { scope: "u1".to_string(), task };
    match create_task(s, Event::Written) {
        CreateTaskState::Publishing { task } => assert_eq!(task.task_id, "t1"),
        other => panic!("unexpected {:?}", other),
    }
}

#[test]
fn out_of_order_event_is_rejected() {
    let s = CreateTaskState::start(command("u1", "t1", "p"), 1);
    let next = create_task(s, Event::Published);
    assert!(matches!(next, CreateTaskState::Done(Err(ServiceError::UnexpectedEvent))));
    let u = create_user(CreateUserState::start("u".to_string()), Event::TaskExists(true));
    assert!(matches!(u, CreateUserState::Done(Err(ServiceError::UnexpectedEvent))));
}

#[test]
fn completion_steps_in_order() {
    let s = CompleteTaskState::start(completion("u1", "t1", "Completed", None), 8);
    assert!(matches!(s, CompleteTaskState::CheckingUser { .. }));
    let s = task_complete(s, Event::UserExists(true));
    assert!(matches!(s, CompleteTaskState::ResolvingScope { .. }));
    let s = task_complete(s, Event::ScopeResolved("users/u1".to_string()));
    assert!(matches!(s, CompleteTaskState::Fetching { .. }));
    let stored = new_task(&command("u1", "t1", "gs://z"), 1);
    let s = task_complete(s, Event::TaskFetched(Some(stored)));
    match &s {
        CompleteTaskState::Updating { task_id, scope, patch } => {
            assert_eq!(task_id, "t1");
            assert_eq!(scope, "users/u1");
            assert_eq!(patch.status, TaskStatus::Completed);
            assert_eq!(patch.updated_at, Some(8));
            assert_eq!(patch.object_path, "gs://z");
        }
        other => panic!("unexpected {:?}", other),
    }
    let s = task_complete(s, Event::Failed("timeout".to_string()));
    assert!(matches!(s, CompleteTaskState::Done(Err(ServiceError::Internal(Stage::UpdateTask, _)))));
}

#[test]
fn parse_known_and_unknown_statuses() {
    assert_eq!(parse_status("Queued"), Some(TaskStatus::Queued));
    assert_eq!(parse_status("Running"), Some(TaskStatus::Running));
    assert_eq!(parse_status("Completed"), Some(TaskStatus::Completed));
    assert_eq!(parse_status("Failed"), Some(TaskStatus::Failed));
    assert_eq!(parse_status("BOGUS"), None);
    assert_eq!(parse_status("completed"), None);
    assert_eq!(parse_status(""), None);
}

#[test]
fn new_task_defaults_payload() {
    let t = new_task(&command("u9", "t9", "gs://p"), 77);
    assert_eq!(t.data.json, None);
    assert_eq!(t.created_by, "u9");
    assert_eq!(t.status, TaskStatus::Queued);
    let mut cmd = command("u9", "t9", "gs://p");
    cmd.task_data = Some(TaskData { json: Some("[1]".to_string()) });
    assert_eq!(new_task(&cmd, 77).data.json.as_deref(), Some("[1]"));
}

#[test]
fn completion_mask_isolates_fields() {
    let stored = new_task(&command("u1", "t1", "gs://keep"), 1);
    let mut patch = new_task(&command("other", "t2", "gs://drop"), 2);
    patch.status = TaskStatus::Running;
    patch.result = Some("r".to_string());
    patch.duration_seconds = 5;
    patch.last_publish_time = Some(3);
    let t = apply_mask(&stored, &completion_mask(), &patch);
    assert_eq!(t.task_id, "t1");
    assert_eq!(t.created_by, "u1");
    assert_eq!(t.object_path, "gs://keep");
    assert_eq!(t.created_at, Some(1));
    assert_eq!(t.status, TaskStatus::Running);
    assert_eq!(t.result.as_deref(), Some("r"));
    assert_eq!(t.duration_seconds, 5);
    assert_eq!(t.updated_at, Some(2));
    assert_eq!(t.last_publish_time, Some(3));
    let all = vec![TaskField::TaskId, TaskField::ObjectPath];
    let u = apply_mask(&stored, &all, &patch);
    assert_eq!(u.task_id, "t2");
    assert_eq!(u.object_path, "gs://drop");
    assert_eq!(u.status, TaskStatus::Queued);
}

#[test]
fn begin_stamps_current_time() {
    match CreateTaskState::begin(command("u1", "t1", "p")) {
        CreateTaskState::CheckingUser { cmd, now } => {
            assert_eq!(cmd.task_id, "t1");
            assert!(now > 1_600_000_000);
        }
        other => panic!("unexpected {:?}", other),
    }
    match CompleteTaskState::begin(completion("u1", "t1", "Running", None)) {
        CompleteTaskState::CheckingUser { c, now } => {
            assert_eq!(c.status, TaskStatus::Running);
            assert!(now > 1_600_000_000);
        }
        other => panic!("unexpected {:?}", other),
    }
}

#[test]
fn error_codes() {
    assert_eq!(ServiceError::NotFound(Entity::User).http_status(), 404);
    assert_eq!(ServiceError::NotFound(Entity::Task).http_status(), 404);
    assert_eq!(ServiceError::Conflict(Entity::Task).http_status(), 409);
    assert_eq!(ServiceError::Conflict(Entity::User).http_status(), 302);
    assert_eq!(ServiceError::InvalidStatus("x".to_string()).http_status(), 400);
    assert_eq!(ServiceError::Internal(Stage::Publish, String::new()).http_status(), 500);
    assert_eq!(ServiceError::UnexpectedEvent.http_status(), 500);
    assert_eq!(CreateTaskState::start(command("u", "t", "p"), 0).http_status(), None);
}
