//! A single to-do item.

use vstd::prelude::*;

verus! {

/// The mathematical value of a [`Task`]: its two texts and its completion flag.
pub struct TaskView {
    pub title: Seq<char>,
    pub desc: Seq<char>,
    pub done: bool,
}

impl TaskView {
    /// The value of a task that was just created: not done yet.
    pub open spec fn fresh(title: Seq<char>, desc: Seq<char>) -> TaskView {
        TaskView { title, desc, done: false }
    }

    /// The same task with its completion flag inverted.
    pub open spec fn flipped(self) -> TaskView {
        TaskView { done: !self.done, ..self }
    }

    /// The same task under another title.
    pub open spec fn retitled(self, title: Seq<char>) -> TaskView {
        TaskView { title, ..self }
    }

    /// The same task with another description.
    pub open spec fn redescribed(self, desc: Seq<char>) -> TaskView {
        TaskView { desc, ..self }
    }
}

/// A to-do item: a title, a description and whether it is done.
///
/// Any text is accepted, the empty one included; whoever creates the task
/// decides what is worth storing.
pub struct Task {
    title: String,
    desc: String,
    status: bool,
}

impl View for Task {
    type V = TaskView;

    closed spec fn view(&self) -> TaskView {
        TaskView { title: self.title@, desc: self.desc@, done: self.status }
    }
}

impl Task {
    /// Creates a task that is not done.
    pub fn new(title: String, desc: String) -> (task: Task)
        ensures
            task@ == TaskView::fresh(title@, desc@),
    {
        Task { title, desc, status: false }
    }

    /// The title.
    pub fn title(&self) -> (title: &String)
        ensures
            title@ == self@.title,
    {
        &self.title
    }

    /// The description.
    pub fn desc(&self) -> (desc: &String)
        ensures
            desc@ == self@.desc,
    {
        &self.desc
    }

    /// Whether the task is done.
    pub fn status(&self) -> (done: bool)
        ensures
            done == self@.done,
    {
        self.status
    }

    /// Marks an open task as done and a done one as open.
    pub fn flip_status(&mut self)
        ensures
            final(self)@ == old(self)@.flipped(),
    {
        self.status = !self.status;
    }

    /// Replaces the title; the rest of the task stays as it was.
    pub fn change_title(&mut self, new_title: String)
        ensures
            final(self)@ == old(self)@.retitled(new_title@),
    {
        self.title = new_title;
    }

    /// Replaces the description; the rest of the task stays as it was.
    pub fn change_desc(&mut self, new_desc: String)
        ensures
            final(self)@ == old(self)@.redescribed(new_desc@),
    {
        self.desc = new_desc;
    }
}

/// Flipping the status twice gives the task back unchanged.
pub proof fn lemma_flip_twice(task: TaskView)
    ensures
        task.flipped().flipped() == task,
{
}

} // verus!
