//! The authoritative list of tasks and the id-allocation counter.
use vstd::prelude::*;
use crate::model::{no_duplicates, users_distinct, Task, TaskView};

verus! {

/// Why a store operation failed.
#[derive(Clone, Copy, Debug, PartialEq, Eq, Structural)]
pub enum StoreError {
    /// No task carries the requested id.
    NotFound,
    /// The task's id is already taken by a stored task.
    InvalidTask,
}

/// The tasks of a list, as abstract values.
pub open spec fn tasks_view(v: Seq<Task>) -> Seq<TaskView> {
    v.map_values(|t: Task| t@)
}

/// No two tasks of the sequence share an id.
pub open spec fn unique_ids(s: Seq<TaskView>) -> bool {
    forall|i: int, j: int| 0 <= i < j < s.len() ==> s[i].id != s[j].id
}

/// No task of the sequence lists a user twice.
pub open spec fn lists_distinct(s: Seq<TaskView>) -> bool {
    forall|i: int| 0 <= i < s.len() ==> no_duplicates(#[trigger] s[i].assigned_to)
}

/// Whether some task of the sequence carries `id`.
pub open spec fn has_id(s: Seq<TaskView>, id: u32) -> bool {
    exists|i: int| 0 <= i < s.len() && s[i].id == id
}

/// Whether no two tasks of the list share an id.
fn ids_distinct(v: &Vec<Task>) -> (r: bool)
    ensures
        r == unique_ids(tasks_view(v@)),
{
    let ghost s = tasks_view(v@);
    let mut j: usize = 0;
    while j < v.len()
        invariant
            j <= v.len(),
            s == tasks_view(v@),
            forall|a: int, b: int| 0 <= a < b < j ==> s[a].id != s[b].id,
        decreases v.len() - j,
    {
        let mut i: usize = 0;
        while i < j
            invariant
                i <= j < v.len(),
                s == tasks_view(v@),
                forall|a: int, b: int| 0 <= a < b < j ==> s[a].id != s[b].id,
                forall|a: int| 0 <= a < i ==> s[a].id != s[j as int].id,
            decreases j - i,
        {
            if v[i].id == v[j].id {
                assert(s[i as int].id == s[j as int].id);
                return false;
            }
            i = i + 1;
        }
        j = j + 1;
    }
    true
}

/// Whether no task of the list names a user twice.
fn lists_distinct_exec(v: &Vec<Task>) -> (r: bool)
    ensures
        r == lists_distinct(tasks_view(v@)),
{
    let mut i: usize = 0;
    while i < v.len()
        invariant
            i <= v.len(),
            forall|k: int| 0 <= k < i ==> no_duplicates(#[trigger] tasks_view(v@)[k].assigned_to),
        decreases v.len() - i,
    {
        if !users_distinct(&v[i].assigned_to) {
            assert(tasks_view(v@)[i as int] == v@[i as int]@);
            assert(!no_duplicates(tasks_view(v@)[i as int].assigned_to));
            assert(!lists_distinct(tasks_view(v@)));
            return false;
        }
        i = i + 1;
    }
    true
}

/// Holds the tasks in insertion order and the next id to hand out.
pub struct TaskStore {
    tasks: Vec<Task>,
    counter: u32,
}

impl TaskStore {
    /// The stored tasks, in insertion order.
    pub closed spec fn tasks(&self) -> Seq<TaskView> {
        tasks_view(self.tasks@)
    }

    /// The current value of the id counter.
    pub closed spec fn counter(&self) -> u32 {
        self.counter
    }

    /// The store's invariant: ids are unique, and no task lists a user twice.
    pub open spec fn wf(&self) -> bool {
        unique_ids(self.tasks()) && lists_distinct(self.tasks())
    }

    /// An empty store whose counter starts at zero.
    pub fn new() -> (r: TaskStore)
        ensures
            r.wf(),
            r.tasks() == Seq::<TaskView>::empty(),
            r.counter() == 0,
    {
        let r = TaskStore { tasks: Vec::new(), counter: 0 };
        assert(r.tasks() =~= Seq::<TaskView>::empty());
        r
    }

    /// Seeds a store from an initial task list, with the counter set to the
    /// number of tasks. Fails with `InvalidTask` when two tasks share an id
    /// or a task lists a user twice.
    pub fn from_tasks(tasks: Vec<Task>) -> (r: Result<TaskStore, StoreError>)
        requires
            tasks.len() <= u32::MAX,
        ensures
            r is Ok <==> unique_ids(tasks_view(tasks@)) && lists_distinct(tasks_view(tasks@)),
            r matches Ok(s) ==> s.wf() && s.tasks() == tasks_view(tasks@)
                && s.counter() == tasks.len(),
            r matches Err(e) ==> e == StoreError::InvalidTask,
    {
        if !ids_distinct(&tasks) || !lists_distinct_exec(&tasks) {
            return Err(StoreError::InvalidTask);
        }
        let n = tasks.len();
        Ok(TaskStore { tasks, counter: n as u32 })
    }

    /// The next id to hand out; the counter is left as it is.
    pub fn next_id(&self) -> (r: u32)
        ensures
            r == self.counter(),
    {
        self.counter
    }

    /// Moves the counter up by exactly one.
    pub fn advance_counter(&mut self)
        requires
            old(self).counter() < u32::MAX,
        ensures
            final(self).counter() == old(self).counter() + 1,
            final(self).tasks() == old(self).tasks(),
    {
        self.counter = self.counter + 1;
    }

    /// The number of stored tasks.
    pub fn len(&self) -> (r: usize)
        ensures
            r == self.tasks().len(),
    {
        self.tasks.len()
    }

    /// Whether a stored task carries `id`.
    pub fn contains_id(&self, id: u32) -> (r: bool)
        ensures
            r == has_id(self.tasks(), id),
    {
        self.position_of(id).is_some()
    }

    /// Index of the task carrying `id`, if any.
    fn position_of(&self, id: u32) -> (r: Option<usize>)
        ensures
            r matches Some(i) ==> i < self.tasks().len() && self.tasks()[i as int].id == id,
            r is None <==> !has_id(self.tasks(), id),
    {
        let mut i: usize = 0;
        while i < self.tasks.len()
            invariant
                i <= self.tasks.len(),
                forall|k: int| 0 <= k < i ==> self.tasks()[k].id != id,
            decreases self.tasks.len() - i,
        {
            if self.tasks[i].id == id {
                return Some(i);
            }
            i = i + 1;
        }
        None
    }

    /// Appends a fully formed task. Fails with `InvalidTask`, leaving the
    /// store as it was, when its id is already taken or it lists a user
    /// twice.
    pub fn add_task(&mut self, task: Task) -> (r: Result<(), StoreError>)
        requires
            old(self).wf(),
        ensures
            final(self).wf(),
            final(self).counter() == old(self).counter(),
            r is Ok <==> !has_id(old(self).tasks(), task.id) && no_duplicates(task@.assigned_to),
            r is Ok ==> final(self).tasks() == old(self).tasks().push(task@),
            r matches Err(e) ==> e == StoreError::InvalidTask && final(self).tasks()
                == old(self).tasks(),
    {
        if self.position_of(task.id).is_some() || !users_distinct(&task.assigned_to) {
            return Err(StoreError::InvalidTask);
        }
        let ghost t = task@;
        self.tasks.push(task);
        assert(self.tasks() =~= old(self).tasks().push(t));
        Ok(())
    }

    /// Copies of all stored tasks, in insertion order.
    pub fn all_tasks(&self) -> (r: Vec<Task>)
        ensures
            tasks_view(r@) == self.tasks(),
    {
        let mut r: Vec<Task> = Vec::new();
        let mut i: usize = 0;
        while i < self.tasks.len()
            invariant
                i <= self.tasks.len(),
                tasks_view(r@) == self.tasks().subrange(0, i as int),
            decreases self.tasks.len() - i,
        {
            let t = self.tasks[i].copy();
            assert(t@ == self.tasks()[i as int]);
            let ghost before = r@;
            r.push(t);
            assert(tasks_view(r@) =~= tasks_view(before).push(t@));
            i = i + 1;
            assert(tasks_view(r@) =~= self.tasks().subrange(0, i as int));
        }
        assert(self.tasks().subrange(0, self.tasks().len() as int) =~= self.tasks());
        r
    }

    /// A copy of the task carrying `id`, or `NotFound`.
    pub fn find_by_id(&self, id: u32) -> (r: Result<Task, StoreError>)
        ensures
            r is Ok <==> has_id(self.tasks(), id),
            r matches Ok(t) ==> t@.id == id && self.tasks().contains(t@),
            r matches Err(e) ==> e == StoreError::NotFound,
    {
        match self.position_of(id) {
            Some(i) => {
                let t = self.tasks[i].copy();
                assert(self.tasks()[i as int] == t@);
                Ok(t)
            },
            None => Err(StoreError::NotFound),
        }
    }
}

} // verus!
