//! The ordered collection of tasks and its positional identifiers.
//!
//! A task is addressed by its position, counted from one, at the moment of
//! the call. Identifiers are therefore not stable: deleting a task moves every
//! later task one identifier down.

use vstd::prelude::*;
use crate::error::TodoError;
use crate::task::{Task, TaskView};

verus! {

/// Whether `id` addresses one of `tasks`: it is at least one and at most the
/// number of tasks.
pub open spec fn names_task(tasks: Seq<TaskView>, id: int) -> bool {
    1 <= id <= tasks.len()
}

/// The task that `id` addresses, if it addresses one.
pub open spec fn task_at(tasks: Seq<TaskView>, id: int) -> Option<TaskView> {
    if names_task(tasks, id) {
        Some(tasks[id - 1])
    } else {
        None
    }
}

/// The tasks after one more was created from a title and a description.
pub open spec fn with_added(tasks: Seq<TaskView>, title: Seq<char>, desc: Seq<char>) -> Seq<
    TaskView,
> {
    tasks.push(TaskView::fresh(title, desc))
}

/// The tasks after the one that `id` addresses was deleted; the same tasks
/// where `id` addresses none.
pub open spec fn with_deleted(tasks: Seq<TaskView>, id: int) -> Seq<TaskView> {
    if names_task(tasks, id) {
        tasks.remove(id - 1)
    } else {
        tasks
    }
}

/// The tasks after one was created from each pair of `entries` in turn, a
/// pair being a title and a description.
pub open spec fn with_all_added(
    tasks: Seq<TaskView>,
    entries: Seq<(Seq<char>, Seq<char>)>,
) -> Seq<TaskView>
    decreases entries.len(),
{
    if entries.len() == 0 {
        tasks
    } else {
        with_added(
            with_all_added(tasks, entries.drop_last()),
            entries.last().0,
            entries.last().1,
        )
    }
}

/// The tasks of one session, in the order in which they were added, together
/// with their number.
pub struct TaskFactory {
    tasks: Vec<Task>,
    len: u32,
}

impl View for TaskFactory {
    type V = Seq<TaskView>;

    closed spec fn view(&self) -> Seq<TaskView> {
        self.tasks@.map_values(|task: Task| task@)
    }
}

impl TaskFactory {
    /// The count is the number of tasks held.
    #[verifier::type_invariant]
    spec fn counted(self) -> bool {
        self.len == self.tasks@.len()
    }

    /// Creates a store without tasks.
    pub fn new() -> (store: TaskFactory)
        ensures
            store@ == Seq::<TaskView>::empty(),
    {
        TaskFactory { tasks: Vec::new(), len: 0 }
    }

    /// Appends a task that is not done. The first text becomes its title and
    /// the second its description.
    ///
    /// The count is a `u32`, so a store that holds `u32::MAX` tasks takes no
    /// more.
    pub fn add_task(&mut self, title: String, desc: String)
        requires
            old(self)@.len() < u32::MAX,
        ensures
            final(self)@ == with_added(old(self)@, title@, desc@),
    {
        // The count and the tasks change together, so the store is rebuilt
        // from its parts rather than altered field by field.
        let mut current = TaskFactory::new();
        core::mem::swap(self, &mut current);
        proof {
            use_type_invariant(&current);
        }
        let TaskFactory { mut tasks, len } = current;
        tasks.push(Task::new(title, desc));
        *self = TaskFactory { tasks, len: len + 1 };
    }

    /// The task that `task_id` addresses, for changing it in place, or `None`
    /// where the identifier addresses no task. Whatever the caller does to the
    /// task, the other tasks and the order stay as they are.
    pub fn get_task(&mut self, task_id: usize) -> (found: Option<&mut Task>)
        ensures
            found is Some <==> names_task(old(self)@, task_id as int),
            found is Some ==> Some(found->0@) == task_at(old(self)@, task_id as int),
            found is Some ==> final(self)@ == old(self)@.update(task_id - 1, final(found->0)@),
            found is None ==> final(self)@ == old(self)@,
    {
        proof {
            use_type_invariant(&*self);
        }
        if task_id == 0 || task_id > self.tasks.len() {
            None
        } else {
            Some(&mut self.tasks[task_id - 1])
        }
    }

    /// The task that `task_id` addresses, or `None` where the identifier
    /// addresses no task.
    pub fn view_task(&self, task_id: usize) -> (found: Option<&Task>)
        ensures
            found is Some <==> names_task(self@, task_id as int),
            found is Some ==> Some(found->0@) == task_at(self@, task_id as int),
    {
        if task_id == 0 || task_id > self.tasks.len() {
            None
        } else {
            Some(&self.tasks[task_id - 1])
        }
    }

    /// Every task with its identifier, in the order of the identifiers: what
    /// a listing shows.
    pub fn numbered(&self) -> (rows: Vec<(usize, &Task)>)
        ensures
            rows@.len() == self@.len(),
            forall|i: int|
                0 <= i < rows@.len() ==> (#[trigger] rows@[i]).0 == i + 1 && Some(rows@[i].1@)
                    == task_at(self@, i + 1),
    {
        let mut rows: Vec<(usize, &Task)> = Vec::new();
        let mut i: usize = 0;
        while i < self.tasks.len()
            invariant
                i <= self.tasks@.len(),
                rows@.len() == i,
                forall|k: int|
                    0 <= k < i ==> (#[trigger] rows@[k]).0 == k + 1 && *rows@[k].1
                        == self.tasks@[k],
            decreases self.tasks@.len() - i,
        {
            rows.push((i + 1, &self.tasks[i]));
            i += 1;
        }
        rows
    }

    /// The number of tasks.
    pub fn get_num_tasks(&self) -> (count: u32)
        ensures
            count == self@.len(),
    {
        proof {
            use_type_invariant(self);
        }
        self.len
    }

    /// Deletes the task that `task_id` addresses. Where the identifier
    /// addresses no task, nothing changes and the error says so.
    pub fn del_task(&mut self, task_id: usize) -> (outcome: Result<(), TodoError>)
        ensures
            names_task(old(self)@, task_id as int) ==> outcome == Ok::<(), TodoError>(()),
            !names_task(old(self)@, task_id as int) ==> outcome == Err::<(), TodoError>(
                TodoError::NotFound,
            ),
            final(self)@ == with_deleted(old(self)@, task_id as int),
    {
        proof {
            use_type_invariant(&*self);
        }
        if task_id == 0 || task_id > self.tasks.len() {
            return Err(TodoError::NotFound);
        }
        let mut current = TaskFactory::new();
        core::mem::swap(self, &mut current);
        let TaskFactory { mut tasks, len } = current;
        tasks.remove(task_id - 1);
        *self = TaskFactory { tasks, len: len - 1 };
        Ok(())
    }
}

/// Adding tasks one after another to any store keeps what was there and puts
/// the new tasks behind it, in the order in which they were added.
pub proof fn lemma_adds_append(tasks: Seq<TaskView>, entries: Seq<(Seq<char>, Seq<char>)>)
    ensures
        with_all_added(tasks, entries).len() == tasks.len() + entries.len(),
        forall|id: int|
            1 <= id <= tasks.len() ==> task_at(with_all_added(tasks, entries), id) == task_at(
                tasks,
                id,
            ),
        forall|k: int|
            1 <= k <= entries.len() ==> task_at(with_all_added(tasks, entries), tasks.len() + k)
                == Some(TaskView::fresh(#[trigger] entries[k - 1].0, entries[k - 1].1)),
    decreases entries.len(),
{
    if entries.len() > 0 {
        let earlier = entries.drop_last();
        lemma_adds_append(tasks, earlier);
        assert forall|k: int| 1 <= k <= entries.len() implies task_at(
            with_all_added(tasks, entries),
            tasks.len() + k,
        ) == Some(TaskView::fresh(#[trigger] entries[k - 1].0, entries[k - 1].1)) by {
            if k < entries.len() {
                assert(earlier[k - 1] == entries[k - 1]);
            }
        }
    }
}

/// After any number of adds to an empty store the count is the number of
/// adds, and identifier `id` addresses the task that was added as the
/// `id`-th, not done, with the title and the description it was given.
pub proof fn lemma_adds_in_order(entries: Seq<(Seq<char>, Seq<char>)>)
    ensures
        with_all_added(Seq::empty(), entries).len() == entries.len(),
        forall|id: int|
            1 <= id <= entries.len() ==> task_at(with_all_added(Seq::empty(), entries), id)
                == Some(TaskView::fresh(#[trigger] entries[id - 1].0, entries[id - 1].1)),
{
    lemma_adds_append(Seq::empty(), entries);
}

/// An identifier that is zero or larger than the count addresses nothing, in
/// any store.
pub proof fn lemma_out_of_range_is_not_found(tasks: Seq<TaskView>, id: int)
    requires
        id == 0 || id > tasks.len(),
    ensures
        task_at(tasks, id) is None,
        with_deleted(tasks, id) == tasks,
{
}

/// Deleting the task with identifier `k` lowers the count by one, leaves the
/// tasks before `k` where they were, and moves each later task one identifier
/// down.
pub proof fn lemma_delete_renumbers(tasks: Seq<TaskView>, k: int)
    requires
        names_task(tasks, k),
    ensures
        with_deleted(tasks, k).len() == tasks.len() - 1,
        forall|id: int|
            id < k ==> #[trigger] task_at(with_deleted(tasks, k), id) == task_at(tasks, id),
        forall|id: int|
            k <= id < tasks.len() ==> #[trigger] task_at(with_deleted(tasks, k), id) == task_at(
                tasks,
                id + 1,
            ),
{
}

} // verus!
