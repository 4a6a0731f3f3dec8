use vstd::prelude::*;

verus! {

/// The status of a task. A task starts `Queued`; a worker later reports one
/// of the other values.
#[derive(Clone, Copy, Debug, PartialEq, Eq, Structural)]
pub enum TaskStatus {
    Queued,
    Running,
    Completed,
    Failed,
}

/// The status that a status text names, if it names one.
pub open spec fn status_of(s: Seq<char>) -> Option<TaskStatus> {
    if s == "Queued"@ {
        Some(TaskStatus::Queued)
    } else if s == "Running"@ {
        Some(TaskStatus::Running)
    } else if s == "Completed"@ {
        Some(TaskStatus::Completed)
    } else if s == "Failed"@ {
        Some(TaskStatus::Failed)
    } else {
        None
    }
}

/// Reads a status text; `None` when it is not one of the known statuses.
pub fn parse_status(s: &str) -> (r: Option<TaskStatus>)
    ensures
        r == status_of(s@),
{
    let t = s.to_owned();
    if t == "Queued".to_owned() {
        Some(TaskStatus::Queued)
    } else if t == "Running".to_owned() {
        Some(TaskStatus::Running)
    } else if t == "Completed".to_owned() {
        Some(TaskStatus::Completed)
    } else if t == "Failed".to_owned() {
        Some(TaskStatus::Failed)
    } else {
        None
    }
}

/// The opaque payload of a task, as JSON text; the default payload holds none.
#[derive(Clone, Debug)]
pub struct TaskData {
    pub json: Option<String>,
}

impl TaskData {
    pub fn duplicate(&self) -> (r: TaskData)
        ensures
            r == *self,
    {
        TaskData { json: copy_text(&self.json) }
    }
}

impl Default for TaskData {
    fn default() -> (r: TaskData)
        ensures
            r == (TaskData { json: None }),
    {
        TaskData { json: None }
    }
}

/// A task record as the store holds it. Timestamps are seconds since the
/// Unix epoch (UTC).
#[derive(Clone, Debug)]
pub struct Task {
    pub task_id: String,
    pub data: TaskData,
    pub object_path: String,
    pub created_by: String,
    pub status: TaskStatus,
    pub result: Option<String>,
    pub duration_seconds: i64,
    pub created_at: Option<i64>,
    pub updated_at: Option<i64>,
    pub last_publish_time: Option<i64>,
}

pub fn copy_text(o: &Option<String>) -> (r: Option<String>)
    ensures
        r == *o,
{
    match o {
        Some(s) => Some(s.clone()),
        None => None,
    }
}

impl Task {
    /// A field-for-field copy.
    pub fn duplicate(&self) -> (r: Task)
        ensures
            r == *self,
    {
        Task {
            task_id: self.task_id.clone(),
            data: self.data.duplicate(),
            object_path: self.object_path.clone(),
            created_by: self.created_by.clone(),
            status: self.status,
            result: copy_text(&self.result),
            duration_seconds: self.duration_seconds,
            created_at: self.created_at,
            updated_at: self.updated_at,
            last_publish_time: self.last_publish_time,
        }
    }
}

/// A request to create a task under a user.
#[derive(Clone, Debug)]
pub struct CreateTaskCommand {
    pub user_id: String,
    pub task_id: String,
    pub object_path: String,
    /// The task payload; the default payload stands in when absent.
    pub task_data: Option<TaskData>,
}

/// A worker's report that a task reached a status.
#[derive(Clone, Debug)]
pub struct TaskCompletedEvent {
    pub user_id: String,
    pub task_id: String,
    pub status: String,
    pub result: Option<String>,
}

/// The task that a create command yields at time `now`.
pub open spec fn task_from(cmd: CreateTaskCommand, now: i64) -> Task {
    Task {
        task_id: cmd.task_id,
        data: match cmd.task_data {
            Some(d) => d,
            None => TaskData { json: None },
        },
        object_path: cmd.object_path,
        created_by: cmd.user_id,
        status: TaskStatus::Queued,
        result: None,
        duration_seconds: 0,
        created_at: Some(now),
        updated_at: Some(now),
        last_publish_time: None,
    }
}

/// Builds the new task of a create command: status `Queued`, owned by the
/// command's user, both timestamps `now`, payload defaulted when absent.
pub fn new_task(cmd: &CreateTaskCommand, now: i64) -> (r: Task)
    ensures
        r == task_from(*cmd, now),
{
    let data = match &cmd.task_data {
        Some(d) => d.duplicate(),
        None => TaskData::default(),
    };
    Task {
        task_id: cmd.task_id.clone(),
        data,
        object_path: cmd.object_path.clone(),
        created_by: cmd.user_id.clone(),
        status: TaskStatus::Queued,
        result: None,
        duration_seconds: 0,
        created_at: Some(now),
        updated_at: Some(now),
        last_publish_time: None,
    }
}

} // verus!
