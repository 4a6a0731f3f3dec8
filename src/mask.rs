use vstd::prelude::*;
use crate::model::{Task, TaskData, TaskStatus, copy_text};

verus! {

/// A field of a task record that an update may name.
#[derive(Clone, Copy, Debug, PartialEq, Eq, Structural)]
pub enum TaskField {
    TaskId,
    Data,
    ObjectPath,
    CreatedBy,
    Status,
    Result,
    DurationSeconds,
    CreatedAt,
    UpdatedAt,
    LastPublishTime,
}

/// The record that an update with field mask `mask` and partial value
/// `patch` leaves behind: each named field from `patch`, every other field
/// from `stored`.
pub open spec fn masked(stored: Task, mask: Seq<TaskField>, patch: Task) -> Task {
    Task {
        task_id: if mask.contains(TaskField::TaskId) { patch.task_id } else { stored.task_id },
        data: if mask.contains(TaskField::Data) { patch.data } else { stored.data },
        object_path: if mask.contains(TaskField::ObjectPath) {
            patch.object_path
        } else {
            stored.object_path
        },
        created_by: if mask.contains(TaskField::CreatedBy) {
            patch.created_by
        } else {
            stored.created_by
        },
        status: if mask.contains(TaskField::Status) { patch.status } else { stored.status },
        result: if mask.contains(TaskField::Result) { patch.result } else { stored.result },
        duration_seconds: if mask.contains(TaskField::DurationSeconds) {
            patch.duration_seconds
        } else {
            stored.duration_seconds
        },
        created_at: if mask.contains(TaskField::CreatedAt) {
            patch.created_at
        } else {
            stored.created_at
        },
        updated_at: if mask.contains(TaskField::UpdatedAt) {
            patch.updated_at
        } else {
            stored.updated_at
        },
        last_publish_time: if mask.contains(TaskField::LastPublishTime) {
            patch.last_publish_time
        } else {
            stored.last_publish_time
        },
    }
}

/// Whether `mask` names `f`.
pub fn names_field(mask: &Vec<TaskField>, f: TaskField) -> (r: bool)
    ensures
        r == mask@.contains(f),
{
    let mut i: usize = 0;
    while i < mask.len()
        invariant
            i <= mask@.len(),
            forall|j: int| 0 <= j < i ==> mask@[j] != f,
        decreases mask@.len() - i,
    {
        if mask[i] == f {
            return true;
        }
        i = i + 1;
    }
    false
}

fn pick_text(named: bool, patch: &String, stored: &String) -> (r: String)
    ensures
        r == if named { *patch } else { *stored },
{
    if named { patch.clone() } else { stored.clone() }
}

/// Applies a field-scoped update: the fields that `mask` names come from
/// `patch`, all others stay as `stored` has them.
pub fn apply_mask(stored: &Task, mask: &Vec<TaskField>, patch: &Task) -> (r: Task)
    ensures
        r == masked(*stored, mask@, *patch),
{
    let data: TaskData = if names_field(mask, TaskField::Data) {
        patch.data.duplicate()
    } else {
        stored.data.duplicate()
    };
    let result: Option<String> = if names_field(mask, TaskField::Result) {
        copy_text(&patch.result)
    } else {
        copy_text(&stored.result)
    };
    Task {
        task_id: pick_text(names_field(mask, TaskField::TaskId), &patch.task_id, &stored.task_id),
        data,
        object_path: pick_text(
            names_field(mask, TaskField::ObjectPath),
            &patch.object_path,
            &stored.object_path,
        ),
        created_by: pick_text(
            names_field(mask, TaskField::CreatedBy),
            &patch.created_by,
            &stored.created_by,
        ),
        status: if names_field(mask, TaskField::Status) { patch.status } else { stored.status },
        result,
        duration_seconds: if names_field(mask, TaskField::DurationSeconds) {
            patch.duration_seconds
        } else {
            stored.duration_seconds
        },
        created_at: if names_field(mask, TaskField::CreatedAt) {
            patch.created_at
        } else {
            stored.created_at
        },
        updated_at: if names_field(mask, TaskField::UpdatedAt) {
            patch.updated_at
        } else {
            stored.updated_at
        },
        last_publish_time: if names_field(mask, TaskField::LastPublishTime) {
            patch.last_publish_time
        } else {
            stored.last_publish_time
        },
    }
}

/// The fields that recording a completion may change.
pub open spec fn completion_fields() -> Seq<TaskField> {
    seq![
        TaskField::Status,
        TaskField::Result,
        TaskField::DurationSeconds,
        TaskField::UpdatedAt,
        TaskField::LastPublishTime,
    ]
}

pub fn completion_mask() -> (r: Vec<TaskField>)
    ensures
        r@ == completion_fields(),
{
    let r = vec![
        TaskField::Status,
        TaskField::Result,
        TaskField::DurationSeconds,
        TaskField::UpdatedAt,
        TaskField::LastPublishTime,
    ];
    assert(r@ =~= completion_fields());
    r
}

/// The partial value of a completion update: the stored record with the new
/// status and result, a zero duration, `updated_at` set to `now` and the
/// last publish time cleared.
pub open spec fn completion_patch(
    stored: Task,
    status: TaskStatus,
    result: Option<String>,
    now: i64,
) -> Task {
    Task {
        status,
        result,
        duration_seconds: 0,
        updated_at: Some(now),
        last_publish_time: None,
        ..stored
    }
}

pub fn build_completion_patch(
    stored: &Task,
    status: TaskStatus,
    result: Option<String>,
    now: i64,
) -> (r: Task)
    ensures
        r == completion_patch(*stored, status, result, now),
{
    let base = stored.duplicate();
    Task { status, result, duration_seconds: 0, updated_at: Some(now), last_publish_time: None, ..base }
}

} // verus!
