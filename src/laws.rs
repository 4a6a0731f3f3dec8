use vstd::prelude::*;
use crate::error::{Entity, ServiceError, Stage};
use crate::flow::{CompleteTaskState, CreateTaskState, Event, complete_start, create_task_next};
use crate::mask::{TaskField, completion_fields, completion_patch, masked};
use crate::model::{CreateTaskCommand, Task, TaskCompletedEvent, status_of, task_from};
use crate::store::{
    StoreModel, StoredTask, complete_run, create_run, has_user, key_count, lemma_locate_in_bounds,
    locate,
};

verus! {

proof fn lemma_absent_key(tasks: Seq<StoredTask>, scope: Seq<char>, id: Seq<char>)
    requires
        key_count(tasks, scope, id) == 0,
    ensures
        locate(tasks, scope, id) is None,
    decreases tasks.len(),
{
    if tasks.len() > 0 {
        lemma_absent_key(tasks.drop_last(), scope, id);
    }
}

/// Creating the same task twice, for an existing user with a usable scope and
/// a reachable store, stores it exactly once: the first attempt stores it
/// (and succeeds unless only the publish failed), the second ends in
/// `Conflict(Task)` and leaves the store as it was.
pub proof fn creation_happens_once(
    m: StoreModel,
    first: CreateTaskCommand,
    now: i64,
    second: CreateTaskCommand,
    later: i64,
)
    requires
        m.outage is None,
        has_user(m.users, first.user_id@),
        first.user_id@.len() > 0,
        key_count(m.tasks, first.user_id@, first.task_id@) == 0,
        second.user_id@ == first.user_id@,
        second.task_id@ == first.task_id@,
    ensures
        ({
            let (m1, r1) = create_run(m, CreateTaskState::CheckingUser { cmd: first, now });
            let (m2, r2) = create_run(m1, CreateTaskState::CheckingUser { cmd: second, now: later });
            &&& m1.tasks == m.tasks.push(
                StoredTask { scope: first.user_id, task: task_from(first, now) },
            )
            &&& (r1 == Ok::<Task, ServiceError>(task_from(first, now)) || (r1 matches Err(
                ServiceError::Internal(Stage::Publish, _),
            )))
            &&& r2 == Err::<Task, ServiceError>(ServiceError::Conflict(Entity::Task))
            &&& m2 == m1
            &&& key_count(m2.tasks, first.user_id@, first.task_id@) == 1
        }),
{
    lemma_absent_key(m.tasks, first.user_id@, first.task_id@);
    reveal_with_fuel(create_run, 6);
    let stored = StoredTask { scope: first.user_id, task: task_from(first, now) };
    let grown = m.tasks.push(stored);
    assert(grown.drop_last() =~= m.tasks);
    let (m1, r1) = create_run(m, CreateTaskState::CheckingUser { cmd: first, now });
    assert(m1.users == m.users);
    assert(has_user(m1.users, second.user_id@));
    assert(locate(m1.tasks, second.user_id@, second.task_id@) == Some(m.tasks.len() as int));
}

/// A completion report whose status text names no known status is refused
/// with `InvalidStatus` before any request is made, so the store is left
/// exactly as it was.
pub proof fn unknown_status_is_refused(m: StoreModel, req: TaskCompletedEvent, now: i64)
    requires
        status_of(req.status@) is None,
    ensures
        complete_start(req, now) == CompleteTaskState::Done(
            Err(ServiceError::InvalidStatus(req.status)),
        ),
        complete_run(m, complete_start(req, now)) == (
            m,
            Err::<Task, ServiceError>(ServiceError::InvalidStatus(req.status)),
        ),
{
}

/// A completion update changes only its own fields: whatever partial value it
/// carries, the task id, owner, object path, creation time and payload stay as
/// stored, and status, result, duration, update time and last publish time
/// come from the partial value.
pub proof fn completion_mask_isolates(stored: Task, patch: Task)
    ensures
        ({
            let t = masked(stored, completion_fields(), patch);
            &&& t.task_id == stored.task_id
            &&& t.created_by == stored.created_by
            &&& t.object_path == stored.object_path
            &&& t.created_at == stored.created_at
            &&& t.data == stored.data
            &&& t.status == patch.status
            &&& t.result == patch.result
            &&& t.duration_seconds == patch.duration_seconds
            &&& t.updated_at == patch.updated_at
            &&& t.last_publish_time == patch.last_publish_time
        }),
{
    let f = completion_fields();
    assert(f[0] == TaskField::Status);
    assert(f[1] == TaskField::Result);
    assert(f[2] == TaskField::DurationSeconds);
    assert(f[3] == TaskField::UpdatedAt);
    assert(f[4] == TaskField::LastPublishTime);
}

/// Recording a completion with a known status, for an existing user whose
/// task is stored and a reachable store, rewrites only that task's record:
/// its id, owner, object path, creation time and payload stay, while status,
/// result, duration (zero), update time (`now`) and last publish time
/// (cleared) take the new values, which are also what is returned.
pub proof fn completion_keeps_creation_fields(m: StoreModel, req: TaskCompletedEvent, now: i64)
    requires
        m.outage is None,
        status_of(req.status@) is Some,
        has_user(m.users, req.user_id@),
        req.user_id@.len() > 0,
        locate(m.tasks, req.user_id@, req.task_id@) is Some,
    ensures
        ({
            let i = locate(m.tasks, req.user_id@, req.task_id@)->0;
            let before = m.tasks[i].task;
            let (m1, r) = complete_run(m, complete_start(req, now));
            let after = m1.tasks[i].task;
            &&& m1.tasks.len() == m.tasks.len()
            &&& forall|j: int| 0 <= j < m.tasks.len() && j != i ==> m1.tasks[j] == m.tasks[j]
            &&& m1.tasks[i].scope == m.tasks[i].scope
            &&& r == Ok::<Task, ServiceError>(after)
            &&& after.task_id == before.task_id
            &&& after.created_by == before.created_by
            &&& after.object_path == before.object_path
            &&& after.created_at == before.created_at
            &&& after.data == before.data
            &&& after.status == status_of(req.status@)->0
            &&& after.result == req.result
            &&& after.duration_seconds == 0
            &&& after.updated_at == Some(now)
            &&& after.last_publish_time is None
        }),
{
    reveal_with_fuel(complete_run, 5);
    lemma_locate_in_bounds(m.tasks, req.user_id@, req.task_id@);
    let i = locate(m.tasks, req.user_id@, req.task_id@)->0;
    let before = m.tasks[i].task;
    let s = complete_start(req, now);
    let c = s->CheckingUser_c;
    completion_mask_isolates(
        before,
        completion_patch(before, c.status, c.result, now),
    );
}

/// Task creation asks for the publish only in the step right after the store
/// accepted the insert, and publishes the very task it inserted.
pub proof fn publish_follows_persist(s: CreateTaskState, e: Event)
    ensures
        create_task_next(s, e) is Publishing ==> {
            &&& s is Inserting
            &&& e is Written
            &&& create_task_next(s, e)->Publishing_task == s->Inserting_task
        },
{
}

/// In a run of task creation against the store, the bus receives something
/// only when the store accepted the insert: then the store holds the new task
/// under the user's scope and the bus received exactly that task.
pub proof fn run_publishes_only_after_insert(m: StoreModel, cmd: CreateTaskCommand, now: i64)
    ensures
        ({
            let (m1, r) = create_run(m, CreateTaskState::CheckingUser { cmd, now });
            m1.published != m.published ==> {
                &&& m1.tasks == m.tasks.push(
                    StoredTask { scope: cmd.user_id, task: task_from(cmd, now) },
                )
                &&& m1.published == m.published.push(task_from(cmd, now))
            }
        }),
{
    reveal_with_fuel(create_run, 6);
}

} // verus!
