use vstd::prelude::*;
use crate::error::ServiceError;
use crate::flow::{
    CompleteTaskState, CreateTaskState, CreateUserState, Event, complete_rank, create_rank,
    create_task, create_task_next, create_user, create_user_next, task_complete,
    task_complete_next, user_rank,
};
use crate::mask::{TaskField, apply_mask, completion_fields, completion_mask, masked};
use crate::model::Task;

verus! {

/// A task record together with the parent scope it is stored under.
#[derive(Debug)]
pub struct StoredTask {
    pub scope: String,
    pub task: Task,
}

/// An in-process document store and event bus, standing in for the real
/// collaborators. A user's parent scope is the user id itself; an empty id
/// has none. While `outage` holds a cause every store request fails with it,
/// and while `bus_outage` holds one every publish fails with it.
#[derive(Debug)]
pub struct MemoryStore {
    pub users: Vec<String>,
    pub tasks: Vec<StoredTask>,
    pub published: Vec<Task>,
    pub outage: Option<String>,
    pub bus_outage: Option<String>,
}

pub ghost struct StoreModel {
    pub users: Seq<String>,
    pub tasks: Seq<StoredTask>,
    pub published: Seq<Task>,
    pub outage: Option<String>,
    pub bus_outage: Option<String>,
}

impl View for MemoryStore {
    type V = StoreModel;

    open spec fn view(&self) -> StoreModel {
        StoreModel {
            users: self.users@,
            tasks: self.tasks@,
            published: self.published@,
            outage: self.outage,
            bus_outage: self.bus_outage,
        }
    }
}

pub open spec fn has_user(users: Seq<String>, u: Seq<char>) -> bool {
    exists|i: int| 0 <= i < users.len() && users[i]@ == u
}

pub open spec fn holds_key(st: StoredTask, scope: Seq<char>, id: Seq<char>) -> bool {
    st.scope@ == scope && st.task.task_id@ == id
}

/// The position of the last record stored under `scope` with id `id`.
pub open spec fn locate(tasks: Seq<StoredTask>, scope: Seq<char>, id: Seq<char>) -> Option<int>
    decreases tasks.len(),
{
    if tasks.len() == 0 {
        None
    } else if holds_key(tasks.last(), scope, id) {
        Some(tasks.len() - 1)
    } else {
        locate(tasks.drop_last(), scope, id)
    }
}

pub proof fn lemma_locate_in_bounds(tasks: Seq<StoredTask>, scope: Seq<char>, id: Seq<char>)
    ensures
        locate(tasks, scope, id) matches Some(i) ==> 0 <= i < tasks.len() && holds_key(
            tasks[i],
            scope,
            id,
        ),
    decreases tasks.len(),
{
    if tasks.len() > 0 && !holds_key(tasks.last(), scope, id) {
        lemma_locate_in_bounds(tasks.drop_last(), scope, id);
    }
}

/// How many records are stored under `scope` with id `id`.
pub open spec fn key_count(tasks: Seq<StoredTask>, scope: Seq<char>, id: Seq<char>) -> nat
    decreases tasks.len(),
{
    if tasks.len() == 0 {
        0
    } else {
        key_count(tasks.drop_last(), scope, id) + if holds_key(tasks.last(), scope, id) {
            1nat
        } else {
            0nat
        }
    }
}

/// The answer to "does user `u` exist".
pub open spec fn user_answer(m: StoreModel, u: Seq<char>) -> Event {
    match m.outage {
        Some(cause) => Event::Failed(cause),
        None => Event::UserExists(has_user(m.users, u)),
    }
}

/// The answer to "what is the parent scope of `user_id`".
pub open spec fn scope_answer(user_id: String) -> Event {
    if user_id@.len() == 0 {
        Event::Failed(user_id)
    } else {
        Event::ScopeResolved(user_id)
    }
}

pub open spec fn exists_answer(m: StoreModel, scope: Seq<char>, id: Seq<char>) -> Event {
    match m.outage {
        Some(cause) => Event::Failed(cause),
        None => Event::TaskExists(locate(m.tasks, scope, id) is Some),
    }
}

/// Inserting `task` under `scope`: refused when its id is taken there.
pub open spec fn insert_effect(m: StoreModel, scope: String, task: Task) -> (StoreModel, Event) {
    match m.outage {
        Some(cause) => (m, Event::Failed(cause)),
        None => if locate(m.tasks, scope@, task.task_id@) is Some {
            (m, Event::Failed(task.task_id))
        } else {
            (
                StoreModel { tasks: m.tasks.push(StoredTask { scope, task }), ..m },
                Event::Written,
            )
        },
    }
}

pub open spec fn publish_effect(m: StoreModel, task: Task) -> (StoreModel, Event) {
    match m.bus_outage {
        Some(cause) => (m, Event::Failed(cause)),
        None => (StoreModel { published: m.published.push(task), ..m }, Event::Published),
    }
}

pub open spec fn fetch_answer(m: StoreModel, scope: Seq<char>, id: Seq<char>) -> Event {
    match m.outage {
        Some(cause) => Event::Failed(cause),
        None => match locate(m.tasks, scope, id) {
            Some(i) => Event::TaskFetched(Some(m.tasks[i].task)),
            None => Event::TaskFetched(None),
        },
    }
}

/// A field-scoped update of the record under `scope` with id `id`.
pub open spec fn update_effect(
    m: StoreModel,
    scope: Seq<char>,
    id: String,
    mask: Seq<TaskField>,
    patch: Task,
) -> (StoreModel, Event) {
    match m.outage {
        Some(cause) => (m, Event::Failed(cause)),
        None => match locate(m.tasks, scope, id@) {
            None => (m, Event::Failed(id)),
            Some(i) => {
                let new = masked(m.tasks[i].task, mask, patch);
                (
                    StoreModel {
                        tasks: m.tasks.update(i, StoredTask { scope: m.tasks[i].scope, task: new }),
                        ..m
                    },
                    Event::Updated(new),
                )
            },
        },
    }
}

pub open spec fn insert_user_effect(m: StoreModel, user_id: String) -> (StoreModel, Event) {
    match m.outage {
        Some(cause) => (m, Event::Failed(cause)),
        None => (StoreModel { users: m.users.push(user_id), ..m }, Event::Written),
    }
}

/// What the store does for the request that a creation state stands for.
pub open spec fn serve_create(m: StoreModel, s: CreateTaskState) -> (StoreModel, Event) {
    match s {
        CreateTaskState::CheckingUser { cmd, .. } => (m, user_answer(m, cmd.user_id@)),
        CreateTaskState::ResolvingScope { cmd, .. } => (m, scope_answer(cmd.user_id)),
        CreateTaskState::CheckingTask { cmd, scope, .. } => (
            m,
            exists_answer(m, scope@, cmd.task_id@),
        ),
        CreateTaskState::Inserting { scope, task } => insert_effect(m, scope, task),
        CreateTaskState::Publishing { task } => publish_effect(m, task),
        CreateTaskState::Done(_) => (m, Event::Written),
    }
}

/// What the store does for the request that a completion state stands for.
pub open spec fn serve_complete(m: StoreModel, s: CompleteTaskState) -> (StoreModel, Event) {
    match s {
        CompleteTaskState::CheckingUser { c, .. } => (m, user_answer(m, c.user_id@)),
        CompleteTaskState::ResolvingScope { c, .. } => (m, scope_answer(c.user_id)),
        CompleteTaskState::Fetching { c, scope, .. } => (m, fetch_answer(m, scope@, c.task_id@)),
        CompleteTaskState::Updating { task_id, scope, patch } => update_effect(
            m,
            scope@,
            task_id,
            completion_fields(),
            patch,
        ),
        CompleteTaskState::Done(_) => (m, Event::Written),
    }
}

pub open spec fn serve_user(m: StoreModel, s: CreateUserState) -> (StoreModel, Event) {
    match s {
        CreateUserState::CheckingUser { user_id } => (m, user_answer(m, user_id@)),
        CreateUserState::InsertingUser { user_id } => insert_user_effect(m, user_id),
        CreateUserState::Done(_) => (m, Event::Written),
    }
}

/// The store and outcome after task creation ran from `s` to its end.
pub open spec fn create_run(m: StoreModel, s: CreateTaskState) -> (
    StoreModel,
    Result<Task, ServiceError>,
)
    decreases create_rank(s),
{
    match s {
        CreateTaskState::Done(r) => (m, r),
        _ => {
            let (m2, e) = serve_create(m, s);
            create_run(m2, create_task_next(s, e))
        },
    }
}

pub open spec fn complete_run(m: StoreModel, s: CompleteTaskState) -> (
    StoreModel,
    Result<Task, ServiceError>,
)
    decreases complete_rank(s),
{
    match s {
        CompleteTaskState::Done(r) => (m, r),
        _ => {
            let (m2, e) = serve_complete(m, s);
            complete_run(m2, task_complete_next(s, e))
        },
    }
}

pub open spec fn user_run(m: StoreModel, s: CreateUserState) -> (StoreModel, Result<(), ServiceError>)
    decreases user_rank(s),
{
    match s {
        CreateUserState::Done(r) => (m, r),
        _ => {
            let (m2, e) = serve_user(m, s);
            user_run(m2, create_user_next(s, e))
        },
    }
}

impl MemoryStore {
    /// An empty store whose collaborators are both available.
    pub fn new() -> (r: MemoryStore)
        ensures
            r@ == (StoreModel {
                users: Seq::empty(),
                tasks: Seq::empty(),
                published: Seq::empty(),
                outage: None,
                bus_outage: None,
            }),
    {
        MemoryStore {
            users: Vec::new(),
            tasks: Vec::new(),
            published: Vec::new(),
            outage: None,
            bus_outage: None,
        }
    }

    fn cause(o: &Option<String>) -> (r: String)
        requires
            o is Some,
        ensures
            r == o->0,
    {
        match o {
            Some(c) => c.clone(),
            None => String::new(),
        }
    }

    /// Whether `u` is a registered user.
    pub fn knows_user(&self, u: &String) -> (r: bool)
        ensures
            r == has_user(self.users@, u@),
    {
        let mut i: usize = 0;
        while i < self.users.len()
            invariant
                i <= self.users@.len(),
                forall|j: int| 0 <= j < i ==> self.users@[j]@ != u@,
            decreases self.users@.len() - i,
        {
            if self.users[i] == *u {
                return true;
            }
            i = i + 1;
        }
        false
    }

    /// The position of the last record under `scope` with id `id`.
    pub fn find_task(&self, scope: &String, id: &String) -> (r: Option<usize>)
        ensures
            match r {
                Some(i) => locate(self.tasks@, scope@, id@) == Some(i as int),
                None => locate(self.tasks@, scope@, id@) is None,
            },
            r matches Some(i) ==> i < self.tasks@.len(),
    {
        proof {
            lemma_locate_in_bounds(self.tasks@, scope@, id@);
        }
        let mut found: Option<usize> = None;
        let mut i: usize = 0;
        while i < self.tasks.len()
            invariant
                i <= self.tasks@.len(),
                match found {
                    Some(k) => locate(self.tasks@.take(i as int), scope@, id@) == Some(k as int),
                    None => locate(self.tasks@.take(i as int), scope@, id@) is None,
                },
            decreases self.tasks@.len() - i,
        {
            proof {
                let next = self.tasks@.take(i + 1);
                assert(next.drop_last() =~= self.tasks@.take(i as int));
                assert(next.last() == self.tasks@[i as int]);
            }
            if self.tasks[i].scope == *scope && self.tasks[i].task.task_id == *id {
                found = Some(i);
            }
            i = i + 1;
        }
        assert(self.tasks@.take(i as int) =~= self.tasks@);
        found
    }

    fn answer_user(&self, u: &String) -> (e: Event)
        ensures
            e == user_answer(self@, u@),
    {
        if self.outage.is_some() {
            Event::Failed(Self::cause(&self.outage))
        } else {
            Event::UserExists(self.knows_user(u))
        }
    }

    fn answer_scope(user_id: &String) -> (e: Event)
        ensures
            e == scope_answer(*user_id),
    {
        if user_id.as_str().is_empty() {
            Event::Failed(user_id.clone())
        } else {
            Event::ScopeResolved(user_id.clone())
        }
    }

    fn answer_exists(&self, scope: &String, id: &String) -> (e: Event)
        ensures
            e == exists_answer(self@, scope@, id@),
    {
        if self.outage.is_some() {
            Event::Failed(Self::cause(&self.outage))
        } else {
            Event::TaskExists(self.find_task(scope, id).is_some())
        }
    }

    /// Stores `task` under `scope` unless its id is taken there.
    pub fn insert_task(&mut self, scope: &String, task: &Task) -> (e: Event)
        ensures
            (final(self)@, e) == insert_effect(old(self)@, *scope, *task),
    {
        if self.outage.is_some() {
            return Event::Failed(Self::cause(&self.outage));
        }
        if self.find_task(scope, &task.task_id).is_some() {
            Event::Failed(task.task_id.clone())
        } else {
            self.tasks.push(StoredTask { scope: scope.clone(), task: task.duplicate() });
            Event::Written
        }
    }

    /// Publishes a task-created event carrying `task`.
    pub fn publish(&mut self, task: &Task) -> (e: Event)
        ensures
            (final(self)@, e) == publish_effect(old(self)@, *task),
    {
        if self.bus_outage.is_some() {
            return Event::Failed(Self::cause(&self.bus_outage));
        }
        self.published.push(task.duplicate());
        Event::Published
    }

    /// Reads the record under `scope` with id `id`.
    pub fn fetch_task(&self, scope: &String, id: &String) -> (e: Event)
        ensures
            e == fetch_answer(self@, scope@, id@),
    {
        if self.outage.is_some() {
            return Event::Failed(Self::cause(&self.outage));
        }
        match self.find_task(scope, id) {
            Some(i) => Event::TaskFetched(Some(self.tasks[i].task.duplicate())),
            None => Event::TaskFetched(None),
        }
    }

    /// Writes the fields of `patch` that `mask` names to the record under
    /// `scope` with id `id`, and hands back the updated record.
    pub fn update_fields(
        &mut self,
        scope: &String,
        id: &String,
        mask: &Vec<TaskField>,
        patch: &Task,
    ) -> (e: Event)
        ensures
            (final(self)@, e) == update_effect(old(self)@, scope@, *id, mask@, *patch),
    {
        if self.outage.is_some() {
            return Event::Failed(Self::cause(&self.outage));
        }
        match self.find_task(scope, id) {
            None => Event::Failed(id.clone()),
            Some(i) => {
                let new = apply_mask(&self.tasks[i].task, mask, patch);
                let kept = self.tasks[i].scope.clone();
                let reply = new.duplicate();
                self.tasks.set(i, StoredTask { scope: kept, task: new });
                Event::Updated(reply)
            },
        }
    }

    /// Registers `user_id` with an empty record.
    pub fn insert_user(&mut self, user_id: &String) -> (e: Event)
        ensures
            (final(self)@, e) == insert_user_effect(old(self)@, *user_id),
    {
        if self.outage.is_some() {
            return Event::Failed(Self::cause(&self.outage));
        }
        self.users.push(user_id.clone());
        Event::Written
    }

    /// Performs the request that creation state `s` stands for.
    pub fn serve_create(&mut self, s: &CreateTaskState) -> (e: Event)
        ensures
            (final(self)@, e) == serve_create(old(self)@, *s),
    {
        match s {
            CreateTaskState::CheckingUser { cmd, .. } => self.answer_user(&cmd.user_id),
            CreateTaskState::ResolvingScope { cmd, .. } => Self::answer_scope(&cmd.user_id),
            CreateTaskState::CheckingTask { cmd, scope, .. } => self.answer_exists(
                scope,
                &cmd.task_id,
            ),
            CreateTaskState::Inserting { scope, task } => self.insert_task(scope, task),
            CreateTaskState::Publishing { task } => self.publish(task),
            CreateTaskState::Done(_) => Event::Written,
        }
    }

    /// Performs the request that completion state `s` stands for.
    pub fn serve_complete(&mut self, s: &CompleteTaskState) -> (e: Event)
        ensures
            (final(self)@, e) == serve_complete(old(self)@, *s),
    {
        match s {
            CompleteTaskState::CheckingUser { c, .. } => self.answer_user(&c.user_id),
            CompleteTaskState::ResolvingScope { c, .. } => Self::answer_scope(&c.user_id),
            CompleteTaskState::Fetching { c, scope, .. } => self.fetch_task(scope, &c.task_id),
            CompleteTaskState::Updating { task_id, scope, patch } => {
                let mask = completion_mask();
                self.update_fields(scope, task_id, &mask, patch)
            },
            CompleteTaskState::Done(_) => Event::Written,
        }
    }

    /// Performs the request that registration state `s` stands for.
    pub fn serve_user(&mut self, s: &CreateUserState) -> (e: Event)
        ensures
            (final(self)@, e) == serve_user(old(self)@, *s),
    {
        match s {
            CreateUserState::CheckingUser { user_id } => self.answer_user(user_id),
            CreateUserState::InsertingUser { user_id } => self.insert_user(user_id),
            CreateUserState::Done(_) => Event::Written,
        }
    }

    /// Runs task creation from `s` to its end against this store.
    pub fn run_create_task(&mut self, s: CreateTaskState) -> (r: Result<Task, ServiceError>)
        ensures
            (final(self)@, r) == create_run(old(self)@, s),
        decreases create_rank(s),
    {
        match s {
            CreateTaskState::Done(r) => r,
            _ => {
                let e = self.serve_create(&s);
                let next = create_task(s, e);
                self.run_create_task(next)
            },
        }
    }

    /// Runs the recording of a completion from `s` to its end against this store.
    pub fn run_task_complete(&mut self, s: CompleteTaskState) -> (r: Result<Task, ServiceError>)
        ensures
            (final(self)@, r) == complete_run(old(self)@, s),
        decreases complete_rank(s),
    {
        match s {
            CompleteTaskState::Done(r) => r,
            _ => {
                let e = self.serve_complete(&s);
                let next = task_complete(s, e);
                self.run_task_complete(next)
            },
        }
    }

    /// Runs user registration from `s` to its end against this store.
    pub fn run_create_user(&mut self, s: CreateUserState) -> (r: Result<(), ServiceError>)
        ensures
            (final(self)@, r) == user_run(old(self)@, s),
        decreases user_rank(s),
    {
        match s {
            CreateUserState::Done(r) => r,
            _ => {
                let e = self.serve_user(&s);
                let next = create_user(s, e);
                self.run_create_user(next)
            },
        }
    }
}

} // verus!
