use vstd::prelude::*;
use crate::error::{Entity, ServiceError, Stage};
use crate::mask::{build_completion_patch, completion_patch};
use crate::model::{
    CreateTaskCommand, Task, TaskCompletedEvent, TaskStatus, new_task, parse_status, status_of,
    task_from,
};

verus! {

/// The answer of a collaborator (store or bus) to the request a workflow
/// state stands for.
#[derive(Debug)]
pub enum Event {
    UserExists(bool),
    ScopeResolved(String),
    TaskExists(bool),
    TaskFetched(Option<Task>),
    Written,
    Updated(Task),
    Published,
    /// The collaborator failed; the text carries its cause.
    Failed(String),
}

/// The error a workflow ends with when `e` answers no request at `stage`
/// with success: the collaborator's failure, or an out-of-order event.
pub open spec fn failure_of(stage: Stage, e: Event) -> ServiceError {
    match e {
        Event::Failed(m) => ServiceError::Internal(stage, m),
        _ => ServiceError::UnexpectedEvent,
    }
}

pub fn failure(stage: Stage, e: Event) -> (r: ServiceError)
    ensures
        r == failure_of(stage, e),
{
    match e {
        Event::Failed(m) => ServiceError::Internal(stage, m),
        _ => ServiceError::UnexpectedEvent,
    }
}

/// Task creation. Each state but `Done` is a request the driver must
/// perform before handing back its answer:
/// `CheckingUser` asks whether the user exists, `ResolvingScope` asks for the
/// user's parent scope, `CheckingTask` asks whether the task id is taken under
/// that scope, `Inserting` stores the task, `Publishing` publishes a
/// task-created event carrying it.
#[derive(Debug)]
pub enum CreateTaskState {
    CheckingUser { cmd: CreateTaskCommand, now: i64 },
    ResolvingScope { cmd: CreateTaskCommand, now: i64 },
    CheckingTask { cmd: CreateTaskCommand, now: i64, scope: String },
    Inserting { scope: String, task: Task },
    Publishing { task: Task },
    Done(Result<Task, ServiceError>),
}

/// How many requests a creation state may still issue at most.
pub open spec fn create_rank(s: CreateTaskState) -> nat {
    match s {
        CreateTaskState::CheckingUser { .. } => 5,
        CreateTaskState::ResolvingScope { .. } => 4,
        CreateTaskState::CheckingTask { .. } => 3,
        CreateTaskState::Inserting { .. } => 2,
        CreateTaskState::Publishing { .. } => 1,
        CreateTaskState::Done(_) => 0,
    }
}

/// One decision of task creation: the state after `e` answered `s`.
pub open spec fn create_task_next(s: CreateTaskState, e: Event) -> CreateTaskState {
    match s {
        CreateTaskState::CheckingUser { cmd, now } => match e {
            Event::UserExists(true) => CreateTaskState::ResolvingScope { cmd, now },
            Event::UserExists(false) => CreateTaskState::Done(
                Err(ServiceError::NotFound(Entity::User)),
            ),
            _ => CreateTaskState::Done(Err(failure_of(Stage::CheckUser, e))),
        },
        CreateTaskState::ResolvingScope { cmd, now } => match e {
            Event::ScopeResolved(scope) => CreateTaskState::CheckingTask { cmd, now, scope },
            _ => CreateTaskState::Done(Err(failure_of(Stage::ParentPath, e))),
        },
        CreateTaskState::CheckingTask { cmd, now, scope } => match e {
            Event::TaskExists(true) => CreateTaskState::Done(
                Err(ServiceError::Conflict(Entity::Task)),
            ),
            Event::TaskExists(false) => CreateTaskState::Inserting {
                scope,
                task: task_from(cmd, now),
            },
            _ => CreateTaskState::Done(Err(failure_of(Stage::CheckTask, e))),
        },
        CreateTaskState::Inserting { scope, task } => match e {
            Event::Written => CreateTaskState::Publishing { task },
            _ => CreateTaskState::Done(Err(failure_of(Stage::InsertTask, e))),
        },
        CreateTaskState::Publishing { task } => match e {
            Event::Published => CreateTaskState::Done(Ok(task)),
            _ => CreateTaskState::Done(Err(failure_of(Stage::Publish, e))),
        },
        CreateTaskState::Done(r) => CreateTaskState::Done(r),
    }
}

impl CreateTaskState {
    /// The HTTP status a finished creation is reported with: 201 with the
    /// created task, else the error's own code; `None` while unfinished.
    pub fn http_status(&self) -> (r: Option<u16>)
        ensures
            r == match *self {
                CreateTaskState::Done(Ok(_)) => Some(201u16),
                CreateTaskState::Done(Err(e)) => Some(e.spec_http_status()),
                _ => None::<u16>,
            },
    {
        match self {
            CreateTaskState::Done(Ok(_)) => Some(201),
            CreateTaskState::Done(Err(e)) => Some(e.http_status()),
            _ => None,
        }
    }

    /// Task creation for `cmd` at time `now` (seconds since the epoch),
    /// before any request was made.
    pub fn start(cmd: CreateTaskCommand, now: i64) -> (r: CreateTaskState)
        ensures
            r == (CreateTaskState::CheckingUser { cmd, now }),
    {
        CreateTaskState::CheckingUser { cmd, now }
    }
}

/// Advances task creation by one answered request.
pub fn create_task(s: CreateTaskState, e: Event) -> (r: CreateTaskState)
    ensures
        r == create_task_next(s, e),
        !(s is Done) ==> create_rank(r) < create_rank(s),
{
    match s {
        CreateTaskState::CheckingUser { cmd, now } => match e {
            Event::UserExists(true) => CreateTaskState::ResolvingScope { cmd, now },
            Event::UserExists(false) => CreateTaskState::Done(
                Err(ServiceError::NotFound(Entity::User)),
            ),
            _ => CreateTaskState::Done(Err(failure(Stage::CheckUser, e))),
        },
        CreateTaskState::ResolvingScope { cmd, now } => match e {
            Event::ScopeResolved(scope) => CreateTaskState::CheckingTask { cmd, now, scope },
            _ => CreateTaskState::Done(Err(failure(Stage::ParentPath, e))),
        },
        CreateTaskState::CheckingTask { cmd, now, scope } => match e {
            Event::TaskExists(true) => CreateTaskState::Done(
                Err(ServiceError::Conflict(Entity::Task)),
            ),
            Event::TaskExists(false) => {
                let task = new_task(&cmd, now);
                CreateTaskState::Inserting { scope, task }
            },
            _ => CreateTaskState::Done(Err(failure(Stage::CheckTask, e))),
        },
        CreateTaskState::Inserting { scope, task } => match e {
            Event::Written => CreateTaskState::Publishing { task },
            _ => CreateTaskState::Done(Err(failure(Stage::InsertTask, e))),
        },
        CreateTaskState::Publishing { task } => match e {
            Event::Published => CreateTaskState::Done(Ok(task)),
            _ => CreateTaskState::Done(Err(failure(Stage::Publish, e))),
        },
        CreateTaskState::Done(r) => CreateTaskState::Done(r),
    }
}

/// A completion report whose status text was recognised.
#[derive(Debug)]
pub struct Completion {
    pub user_id: String,
    pub task_id: String,
    pub status: TaskStatus,
    pub result: Option<String>,
}

/// Recording a task's completion. `CheckingUser` asks whether the user
/// exists, `ResolvingScope` asks for the user's parent scope, `Fetching` reads
/// the task under that scope, `Updating` writes `patch` to the task through
/// the completion field mask and expects the updated record back.
#[derive(Debug)]
pub enum CompleteTaskState {
    CheckingUser { c: Completion, now: i64 },
    ResolvingScope { c: Completion, now: i64 },
    Fetching { c: Completion, now: i64, scope: String },
    Updating { task_id: String, scope: String, patch: Task },
    Done(Result<Task, ServiceError>),
}

pub open spec fn complete_rank(s: CompleteTaskState) -> nat {
    match s {
        CompleteTaskState::CheckingUser { .. } => 4,
        CompleteTaskState::ResolvingScope { .. } => 3,
        CompleteTaskState::Fetching { .. } => 2,
        CompleteTaskState::Updating { .. } => 1,
        CompleteTaskState::Done(_) => 0,
    }
}

/// The first state of recording `req` at time `now`: an unknown status text
/// ends it at once with `InvalidStatus`, before any request.
pub open spec fn complete_start(req: TaskCompletedEvent, now: i64) -> CompleteTaskState {
    match status_of(req.status@) {
        None => CompleteTaskState::Done(Err(ServiceError::InvalidStatus(req.status))),
        Some(status) => CompleteTaskState::CheckingUser {
            c: Completion {
                user_id: req.user_id,
                task_id: req.task_id,
                status,
                result: req.result,
            },
            now,
        },
    }
}

/// One decision of recording a completion: the state after `e` answered `s`.
pub open spec fn task_complete_next(s: CompleteTaskState, e: Event) -> CompleteTaskState {
    match s {
        CompleteTaskState::CheckingUser { c, now } => match e {
            Event::UserExists(true) => CompleteTaskState::ResolvingScope { c, now },
            Event::UserExists(false) => CompleteTaskState::Done(
                Err(ServiceError::NotFound(Entity::User)),
            ),
            _ => CompleteTaskState::Done(Err(failure_of(Stage::CheckUser, e))),
        },
        CompleteTaskState::ResolvingScope { c, now } => match e {
            Event::ScopeResolved(scope) => CompleteTaskState::Fetching { c, now, scope },
            _ => CompleteTaskState::Done(Err(failure_of(Stage::ParentPath, e))),
        },
        CompleteTaskState::Fetching { c, now, scope } => match e {
            Event::TaskFetched(Some(stored)) => CompleteTaskState::Updating {
                task_id: c.task_id,
                scope,
                patch: completion_patch(stored, c.status, c.result, now),
            },
            Event::TaskFetched(None) => CompleteTaskState::Done(
                Err(ServiceError::NotFound(Entity::Task)),
            ),
            _ => CompleteTaskState::Done(Err(failure_of(Stage::FetchTask, e))),
        },
        CompleteTaskState::Updating { task_id, scope, patch } => match e {
            Event::Updated(t) => CompleteTaskState::Done(Ok(t)),
            _ => CompleteTaskState::Done(Err(failure_of(Stage::UpdateTask, e))),
        },
        CompleteTaskState::Done(r) => CompleteTaskState::Done(r),
    }
}

impl CompleteTaskState {
    /// The HTTP status a finished completion is reported with: 200 with the
    /// updated task, else the error's own code; `None` while unfinished.
    pub fn http_status(&self) -> (r: Option<u16>)
        ensures
            r == match *self {
                CompleteTaskState::Done(Ok(_)) => Some(200u16),
                CompleteTaskState::Done(Err(e)) => Some(e.spec_http_status()),
                _ => None::<u16>,
            },
    {
        match self {
            CompleteTaskState::Done(Ok(_)) => Some(200),
            CompleteTaskState::Done(Err(e)) => Some(e.http_status()),
            _ => None,
        }
    }

    /// Validates the reported status and, when it is known, starts the
    /// workflow for `req` at time `now`.
    pub fn start(req: TaskCompletedEvent, now: i64) -> (r: CompleteTaskState)
        ensures
            r == complete_start(req, now),
    {
        match parse_status(req.status.as_str()) {
            None => CompleteTaskState::Done(Err(ServiceError::InvalidStatus(req.status))),
            Some(status) => CompleteTaskState::CheckingUser {
                c: Completion {
                    user_id: req.user_id,
                    task_id: req.task_id,
                    status,
                    result: req.result,
                },
                now,
            },
        }
    }
}

/// Advances the recording of a completion by one answered request.
pub fn task_complete(s: CompleteTaskState, e: Event) -> (r: CompleteTaskState)
    ensures
        r == task_complete_next(s, e),
        !(s is Done) ==> complete_rank(r) < complete_rank(s),
{
    match s {
        CompleteTaskState::CheckingUser { c, now } => match e {
            Event::UserExists(true) => CompleteTaskState::ResolvingScope { c, now },
            Event::UserExists(false) => CompleteTaskState::Done(
                Err(ServiceError::NotFound(Entity::User)),
            ),
            _ => CompleteTaskState::Done(Err(failure(Stage::CheckUser, e))),
        },
        CompleteTaskState::ResolvingScope { c, now } => match e {
            Event::ScopeResolved(scope) => CompleteTaskState::Fetching { c, now, scope },
            _ => CompleteTaskState::Done(Err(failure(Stage::ParentPath, e))),
        },
        CompleteTaskState::Fetching { c, now, scope } => match e {
            Event::TaskFetched(Some(stored)) => {
                let patch = build_completion_patch(&stored, c.status, c.result, now);
                CompleteTaskState::Updating { task_id: c.task_id, scope, patch }
            },
            Event::TaskFetched(None) => CompleteTaskState::Done(
                Err(ServiceError::NotFound(Entity::Task)),
            ),
            _ => CompleteTaskState::Done(Err(failure(Stage::FetchTask, e))),
        },
        CompleteTaskState::Updating { task_id, scope, patch } => match e {
            Event::Updated(t) => CompleteTaskState::Done(Ok(t)),
            _ => CompleteTaskState::Done(Err(failure(Stage::UpdateTask, e))),
        },
        CompleteTaskState::Done(r) => CompleteTaskState::Done(r),
    }
}

/// Registering a user. `CheckingUser` asks whether the user exists,
/// `InsertingUser` stores the user's (empty) record.
#[derive(Debug)]
pub enum CreateUserState {
    CheckingUser { user_id: String },
    InsertingUser { user_id: String },
    Done(Result<(), ServiceError>),
}

pub open spec fn user_rank(s: CreateUserState) -> nat {
    match s {
        CreateUserState::CheckingUser { .. } => 2,
        CreateUserState::InsertingUser { .. } => 1,
        CreateUserState::Done(_) => 0,
    }
}

/// One decision of user registration: an existing user ends it with
/// `Conflict(User)`.
pub open spec fn create_user_next(s: CreateUserState, e: Event) -> CreateUserState {
    match s {
        CreateUserState::CheckingUser { user_id } => match e {
            Event::UserExists(true) => CreateUserState::Done(
                Err(ServiceError::Conflict(Entity::User)),
            ),
            Event::UserExists(false) => CreateUserState::InsertingUser { user_id },
            _ => CreateUserState::Done(Err(failure_of(Stage::CheckUser, e))),
        },
        CreateUserState::InsertingUser { user_id } => match e {
            Event::Written => CreateUserState::Done(Ok(())),
            _ => CreateUserState::Done(Err(failure_of(Stage::InsertUser, e))),
        },
        CreateUserState::Done(r) => CreateUserState::Done(r),
    }
}

impl CreateUserState {
    /// The HTTP status a finished registration is reported with: 201, else
    /// the error's own code (302 for a user that exists); `None` while
    /// unfinished.
    pub fn http_status(&self) -> (r: Option<u16>)
        ensures
            r == match *self {
                CreateUserState::Done(Ok(_)) => Some(201u16),
                CreateUserState::Done(Err(e)) => Some(e.spec_http_status()),
                _ => None::<u16>,
            },
    {
        match self {
            CreateUserState::Done(Ok(_)) => Some(201),
            CreateUserState::Done(Err(e)) => Some(e.http_status()),
            _ => None,
        }
    }

    pub fn start(user_id: String) -> (r: CreateUserState)
        ensures
            r == (CreateUserState::CheckingUser { user_id }),
    {
        CreateUserState::CheckingUser { user_id }
    }
}

/// Advances user registration by one answered request.
pub fn create_user(s: CreateUserState, e: Event) -> (r: CreateUserState)
    ensures
        r == create_user_next(s, e),
        !(s is Done) ==> user_rank(r) < user_rank(s),
{
    match s {
        CreateUserState::CheckingUser { user_id } => match e {
            Event::UserExists(true) => CreateUserState::Done(
                Err(ServiceError::Conflict(Entity::User)),
            ),
            Event::UserExists(false) => CreateUserState::InsertingUser { user_id },
            _ => CreateUserState::Done(Err(failure(Stage::CheckUser, e))),
        },
        CreateUserState::InsertingUser { user_id } => match e {
            Event::Written => CreateUserState::Done(Ok(())),
            _ => CreateUserState::Done(Err(failure(Stage::InsertUser, e))),
        },
        CreateUserState::Done(r) => CreateUserState::Done(r),
    }
}

} // verus!
