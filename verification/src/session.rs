//! The rules of an interactive session.
//!
//! A session owns the store and knows what it is waiting for. Whoever runs
//! it shows the prompt, reads a line, hands the line to [`Session::step`] and
//! reports the notices that come back; reading and printing are not done
//! here.

use vstd::prelude::*;
use crate::command::{Choice, Command};
use crate::error::{InputFault, TodoError};
use crate::store::{names_task, with_added, with_deleted, TaskFactory};
use crate::task::TaskView;
use crate::text::{id_of, parse_id, same_text, trim, trimmed};

verus! {

/// What the session is waiting for.
#[derive(Clone, Debug, PartialEq, Eq)]
pub enum Prompt {
    /// A command.
    Command,
    /// The title of a new task.
    NewTitle,
    /// The description of a new task. The title is the line that was given
    /// for it, or `None` where that line was blank.
    NewDesc { title: Option<String> },
    /// The identifier of the task to modify.
    ModifyId,
    /// The letter that says what to change about task `id`.
    ModifyChoice { id: usize },
    /// The new title of task `id`.
    ModifyTitle { id: usize },
    /// The new description of task `id`.
    ModifyDesc { id: usize },
    /// The identifier of the task to delete.
    DeleteId,
    /// Nothing: the user has quit.
    Closed,
}

/// The mathematical value of a [`Prompt`].
pub enum PromptView {
    Command,
    NewTitle,
    NewDesc { title: Option<Seq<char>> },
    ModifyId,
    ModifyChoice { id: usize },
    ModifyTitle { id: usize },
    ModifyDesc { id: usize },
    DeleteId,
    Closed,
}

impl View for Prompt {
    type V = PromptView;

    open spec fn view(&self) -> PromptView {
        match *self {
            Prompt::Command => PromptView::Command,
            Prompt::NewTitle => PromptView::NewTitle,
            Prompt::NewDesc { title: Some(title) } => PromptView::NewDesc { title: Some(title@) },
            Prompt::NewDesc { title: None } => PromptView::NewDesc { title: None },
            Prompt::ModifyId => PromptView::ModifyId,
            Prompt::ModifyChoice { id } => PromptView::ModifyChoice { id },
            Prompt::ModifyTitle { id } => PromptView::ModifyTitle { id },
            Prompt::ModifyDesc { id } => PromptView::ModifyDesc { id },
            Prompt::DeleteId => PromptView::DeleteId,
            Prompt::Closed => PromptView::Closed,
        }
    }
}

/// Something to tell the user after a step.
#[derive(Clone, Copy, Debug, PartialEq, Eq, Structural)]
pub enum Notice {
    /// Every task with its identifier, title, description and status.
    TaskList,
    /// There is no task to list.
    NoTasksYet,
    /// There is no task to modify.
    NoTasks,
    /// The menu of commands.
    Help,
    /// The session is over.
    Bye,
    Created,
    TitleChanged,
    DescChanged,
    StatusChanged,
    Deleted,
    /// The request was refused and the store is as it was.
    Failed(TodoError),
}

/// The mathematical value of a [`Session`]: the tasks and what it waits for.
pub struct SessionView {
    pub tasks: Seq<TaskView>,
    pub prompt: PromptView,
}

impl SessionView {
    /// A session that has just begun: no tasks, waiting for a command.
    pub open spec fn initial() -> SessionView {
        SessionView { tasks: Seq::empty(), prompt: PromptView::Command }
    }

    /// The same tasks, waiting for something else.
    pub open spec fn waiting_for(self, prompt: PromptView) -> SessionView {
        SessionView { prompt, ..self }
    }

    /// The same tasks, waiting for a command, with one refusal to report.
    pub open spec fn refused(self, error: TodoError) -> (SessionView, Seq<Notice>) {
        (self.waiting_for(PromptView::Command), seq![Notice::Failed(error)])
    }

    /// Other tasks, waiting for a command, with one success to report.
    pub open spec fn done(tasks: Seq<TaskView>, notice: Notice) -> (SessionView, Seq<Notice>) {
        (SessionView { tasks, prompt: PromptView::Command }, seq![notice])
    }

    /// What a request to list the tasks is answered with.
    pub open spec fn listing(self) -> Seq<Notice> {
        if self.tasks.len() > 0 {
            seq![Notice::TaskList]
        } else {
            seq![Notice::NoTasksYet]
        }
    }

    /// Whether every identifier that the session remembers addresses a task.
    pub open spec fn ids_in_range(self) -> bool {
        match self.prompt {
            PromptView::ModifyId => self.tasks.len() > 0,
            PromptView::ModifyChoice { id } => names_task(self.tasks, id as int),
            PromptView::ModifyTitle { id } => names_task(self.tasks, id as int),
            PromptView::ModifyDesc { id } => names_task(self.tasks, id as int),
            _ => true,
        }
    }

    /// Whether the session can take a line. It cannot where the line may
    /// complete a new task and the store holds `u32::MAX` tasks already.
    pub open spec fn can_step(self) -> bool {
        self.prompt is NewDesc ==> self.tasks.len() < u32::MAX
    }

    /// What a command at the main prompt leads to.
    pub open spec fn on_command(self, command: Command) -> (SessionView, Seq<Notice>) {
        match command {
            Command::New => (self.waiting_for(PromptView::NewTitle), seq![]),
            Command::Modify => if self.tasks.len() > 0 {
                (self.waiting_for(PromptView::ModifyId), seq![])
            } else {
                (self, seq![Notice::NoTasks])
            },
            Command::Delete => (self.waiting_for(PromptView::DeleteId), seq![]),
            Command::List => (self, self.listing()),
            Command::Help => (self, seq![Notice::Help]),
            Command::Quit => (self.waiting_for(PromptView::Closed), seq![Notice::Bye]),
            Command::Unknown => self.refused(TodoError::InvalidInput(InputFault::Command)),
        }
    }

    /// The task that the line at an identifier prompt addresses. The word
    /// `view` lists the tasks and is then, like any line that is not a
    /// number, refused as an identifier.
    pub open spec fn on_id(self, word: Seq<char>) -> Result<usize, (SessionView, Seq<Notice>)> {
        if word == "view"@ {
            Err(
                (
                    self.waiting_for(PromptView::Command),
                    self.listing().push(
                        Notice::Failed(TodoError::InvalidInput(InputFault::Id)),
                    ),
                ),
            )
        } else {
            match id_of(word) {
                None => Err(self.refused(TodoError::InvalidInput(InputFault::Id))),
                Some(id) => if names_task(self.tasks, id as int) {
                    Ok(id)
                } else {
                    Err(self.refused(TodoError::NotFound))
                },
            }
        }
    }

    /// What changing task `id` into `changed` leads to: the task is replaced
    /// where the identifier addresses one, and not found otherwise.
    pub open spec fn on_change(self, id: usize, changed: TaskView, notice: Notice) -> (
        SessionView,
        Seq<Notice>,
    ) {
        if names_task(self.tasks, id as int) {
            Self::done(self.tasks.update(id - 1, changed), notice)
        } else {
            self.refused(TodoError::NotFound)
        }
    }

    /// The session after a line of input, and what to tell the user. `word`
    /// is the line without the white space around it.
    ///
    /// Titles and descriptions are stored as the line was given; the word
    /// only decides whether there is anything worth storing. Commands,
    /// identifiers and choices are read from the word. A closed session
    /// ignores every line.
    pub open spec fn step(self, line: Seq<char>, word: Seq<char>) -> (SessionView, Seq<Notice>) {
        match self.prompt {
            PromptView::Command => self.on_command(Command::of(word)),
            PromptView::NewTitle => (
                self.waiting_for(
                    PromptView::NewDesc { title: if word.len() > 0 { Some(line) } else { None } },
                ),
                seq![],
            ),
            PromptView::NewDesc { title } => if title is Some && word.len() > 0 {
                Self::done(with_added(self.tasks, title->0, line), Notice::Created)
            } else {
                self.refused(TodoError::InvalidInput(InputFault::EmptyText))
            },
            PromptView::ModifyId => match self.on_id(word) {
                Ok(id) => (self.waiting_for(PromptView::ModifyChoice { id }), seq![]),
                Err(refusal) => refusal,
            },
            PromptView::ModifyChoice { id } => match Choice::of(word) {
                Choice::Title => (self.waiting_for(PromptView::ModifyTitle { id }), seq![]),
                Choice::Desc => (self.waiting_for(PromptView::ModifyDesc { id }), seq![]),
                Choice::Status => self.on_change(
                    id,
                    self.tasks[id - 1].flipped(),
                    Notice::StatusChanged,
                ),
                Choice::Unknown => self.refused(TodoError::InvalidInput(InputFault::Choice)),
            },
            PromptView::ModifyTitle { id } => self.on_change(
                id,
                self.tasks[id - 1].retitled(line),
                Notice::TitleChanged,
            ),
            PromptView::ModifyDesc { id } => self.on_change(
                id,
                self.tasks[id - 1].redescribed(line),
                Notice::DescChanged,
            ),
            PromptView::DeleteId => match self.on_id(word) {
                Ok(id) => Self::done(with_deleted(self.tasks, id as int), Notice::Deleted),
                Err(refusal) => refusal,
            },
            PromptView::Closed => (self, seq![]),
        }
    }
}

/// A to-do list in use: the store and what is expected next.
pub struct Session {
    store: TaskFactory,
    prompt: Prompt,
}

impl View for Session {
    type V = SessionView;

    closed spec fn view(&self) -> SessionView {
        SessionView { tasks: self.store@, prompt: self.prompt@ }
    }
}

impl Session {
    /// Begins a session with an empty store.
    pub fn new() -> (session: Session)
        ensures
            session@ == SessionView::initial(),
    {
        Session { store: TaskFactory::new(), prompt: Prompt::Command }
    }

    /// The tasks, for showing them.
    pub fn store(&self) -> (store: &TaskFactory)
        ensures
            store@ == self@.tasks,
    {
        &self.store
    }

    /// What the session is waiting for, for showing the right prompt.
    pub fn prompt(&self) -> (prompt: &Prompt)
        ensures
            prompt@ == self@.prompt,
    {
        &self.prompt
    }

    /// Whether the user has quit.
    pub fn is_closed(&self) -> (closed: bool)
        ensures
            closed == (self@.prompt is Closed),
    {
        match self.prompt {
            Prompt::Closed => true,
            _ => false,
        }
    }

    /// Whether [`Session::step`] may be called.
    pub fn can_step(&self) -> (ready: bool)
        ensures
            ready == self@.can_step(),
    {
        match self.prompt {
            Prompt::NewDesc { .. } => self.store.get_num_tasks() < u32::MAX,
            _ => true,
        }
    }

    /// Takes a line of input as it was read, line end included, and returns
    /// what to tell the user, in order.
    pub fn step(&mut self, line: &str) -> (notices: Vec<Notice>)
        requires
            old(self)@.can_step(),
        ensures
            (final(self)@, notices@) == old(self)@.step(line@, trimmed(line@)),
    {
        let word = trim(line);
        self.step_trimmed(line, word)
    }

    /// Takes a line of input together with the word that is left of it when
    /// the white space around it is removed.
    pub fn step_trimmed(&mut self, line: &str, word: &str) -> (notices: Vec<Notice>)
        requires
            old(self)@.can_step(),
        ensures
            (final(self)@, notices@) == old(self)@.step(line@, word@),
    {
        let mut prompt = Prompt::Command;
        core::mem::swap(&mut self.prompt, &mut prompt);
        match prompt {
            Prompt::Command => self.run(Command::parse(word)),
            Prompt::NewTitle => {
                let title = if word.is_empty() {
                    None
                } else {
                    Some(line.to_owned())
                };
                self.prompt = Prompt::NewDesc { title };
                Vec::new()
            },
            Prompt::NewDesc { title } => self.create(title, line, word),
            Prompt::ModifyId => match self.read_id(word) {
                Ok(id) => {
                    self.prompt = Prompt::ModifyChoice { id };
                    Vec::new()
                },
                Err(notices) => notices,
            },
            Prompt::ModifyChoice { id } => match Choice::parse(word) {
                Choice::Title => {
                    self.prompt = Prompt::ModifyTitle { id };
                    Vec::new()
                },
                Choice::Desc => {
                    self.prompt = Prompt::ModifyDesc { id };
                    Vec::new()
                },
                Choice::Status => self.flip(id),
                Choice::Unknown => vec![
                    Notice::Failed(TodoError::InvalidInput(InputFault::Choice)),
                ],
            },
            Prompt::ModifyTitle { id } => self.retitle(id, line),
            Prompt::ModifyDesc { id } => self.redescribe(id, line),
            Prompt::DeleteId => match self.read_id(word) {
                Ok(id) => self.delete(id),
                Err(notices) => notices,
            },
            Prompt::Closed => {
                self.prompt = Prompt::Closed;
                Vec::new()
            },
        }
    }

    /// Completes a new task with its description, if both texts are worth
    /// storing.
    fn create(&mut self, title: Option<String>, line: &str, word: &str) -> (notices: Vec<Notice>)
        requires
            old(self)@.prompt is Command,
            old(self)@.tasks.len() < u32::MAX,
        ensures
            (final(self)@, notices@) == old(self)@.waiting_for(
                PromptView::NewDesc {
                    title: match title {
                        Some(title) => Some(title@),
                        None => None,
                    },
                },
            ).step(line@, word@),
    {
        match title {
            Some(title) => {
                if word.is_empty() {
                    vec![Notice::Failed(TodoError::InvalidInput(InputFault::EmptyText))]
                } else {
                    self.store.add_task(title, line.to_owned());
                    vec![Notice::Created]
                }
            },
            None => vec![Notice::Failed(TodoError::InvalidInput(InputFault::EmptyText))],
        }
    }

    /// Flips the status of task `id`.
    fn flip(&mut self, id: usize) -> (notices: Vec<Notice>)
        requires
            old(self)@.prompt is Command,
        ensures
            (final(self)@, notices@) == old(self)@.on_change(
                id,
                old(self)@.tasks[id - 1].flipped(),
                Notice::StatusChanged,
            ),
    {
        match self.store.get_task(id) {
            Some(task) => {
                task.flip_status();
                vec![Notice::StatusChanged]
            },
            None => vec![Notice::Failed(TodoError::NotFound)],
        }
    }

    /// Gives task `id` the line as its title.
    fn retitle(&mut self, id: usize, line: &str) -> (notices: Vec<Notice>)
        requires
            old(self)@.prompt is Command,
        ensures
            (final(self)@, notices@) == old(self)@.on_change(
                id,
                old(self)@.tasks[id - 1].retitled(line@),
                Notice::TitleChanged,
            ),
    {
        match self.store.get_task(id) {
            Some(task) => {
                task.change_title(line.to_owned());
                vec![Notice::TitleChanged]
            },
            None => vec![Notice::Failed(TodoError::NotFound)],
        }
    }

    /// Gives task `id` the line as its description.
    fn redescribe(&mut self, id: usize, line: &str) -> (notices: Vec<Notice>)
        requires
            old(self)@.prompt is Command,
        ensures
            (final(self)@, notices@) == old(self)@.on_change(
                id,
                old(self)@.tasks[id - 1].redescribed(line@),
                Notice::DescChanged,
            ),
    {
        match self.store.get_task(id) {
            Some(task) => {
                task.change_desc(line.to_owned());
                vec![Notice::DescChanged]
            },
            None => vec![Notice::Failed(TodoError::NotFound)],
        }
    }

    /// Deletes task `id`.
    fn delete(&mut self, id: usize) -> (notices: Vec<Notice>)
        requires
            old(self)@.prompt is Command,
            names_task(old(self)@.tasks, id as int),
        ensures
            (final(self)@, notices@) == SessionView::done(
                with_deleted(old(self)@.tasks, id as int),
                Notice::Deleted,
            ),
    {
        match self.store.del_task(id) {
            Ok(()) => vec![Notice::Deleted],
            Err(error) => vec![Notice::Failed(error)],
        }
    }

    /// Carries out a command given at the main prompt.
    fn run(&mut self, command: Command) -> (notices: Vec<Notice>)
        requires
            old(self)@.prompt is Command,
        ensures
            (final(self)@, notices@) == old(self)@.on_command(command),
    {
        match command {
            Command::New => {
                self.prompt = Prompt::NewTitle;
                Vec::new()
            },
            Command::Modify => {
                if self.store.get_num_tasks() > 0 {
                    self.prompt = Prompt::ModifyId;
                    Vec::new()
                } else {
                    vec![Notice::NoTasks]
                }
            },
            Command::Delete => {
                self.prompt = Prompt::DeleteId;
                Vec::new()
            },
            Command::List => self.list(),
            Command::Help => vec![Notice::Help],
            Command::Quit => {
                self.prompt = Prompt::Closed;
                vec![Notice::Bye]
            },
            Command::Unknown => vec![Notice::Failed(TodoError::InvalidInput(InputFault::Command))],
        }
    }

    /// Answers a request to list the tasks.
    fn list(&self) -> (notices: Vec<Notice>)
        ensures
            notices@ == self@.listing(),
    {
        if self.store.get_num_tasks() > 0 {
            vec![Notice::TaskList]
        } else {
            vec![Notice::NoTasksYet]
        }
    }

    /// Reads the identifier of a task of the store from a word, or says why
    /// there is none.
    fn read_id(&self, word: &str) -> (outcome: Result<usize, Vec<Notice>>)
        requires
            self@.prompt is Command,
        ensures
            match (outcome, self@.on_id(word@)) {
                (Ok(id), Ok(expected)) => id == expected,
                (Err(notices), Err(refusal)) => refusal == (self@, notices@),
                _ => false,
            },
    {
        if same_text(word, "view") {
            let mut notices = self.list();
            notices.push(Notice::Failed(TodoError::InvalidInput(InputFault::Id)));
            return Err(notices);
        }
        match parse_id(word) {
            None => Err(vec![Notice::Failed(TodoError::InvalidInput(InputFault::Id))]),
            Some(id) => {
                if id >= 1 && id <= self.store.get_num_tasks() as usize {
                    Ok(id)
                } else {
                    Err(vec![Notice::Failed(TodoError::NotFound)])
                }
            },
        }
    }
}

/// A session that has just begun remembers no identifier.
pub proof fn lemma_initial_ids_in_range()
    ensures
        SessionView::initial().ids_in_range(),
{
}

/// Whatever line comes in, the identifiers that the session remembers keep
/// addressing tasks: a task is only asked about once it was found, and no
/// task is deleted while a change to one is under way.
pub proof fn lemma_step_keeps_ids_in_range(session: SessionView, line: Seq<char>, word: Seq<char>)
    requires
        session.ids_in_range(),
    ensures
        session.step(line, word).0.ids_in_range(),
{
}

/// A step that reports a refusal leaves every task as it was and returns to
/// the main prompt.
pub proof fn lemma_refusal_changes_nothing(
    session: SessionView,
    line: Seq<char>,
    word: Seq<char>,
    i: int,
)
    requires
        0 <= i < session.step(line, word).1.len(),
        session.step(line, word).1[i] is Failed,
    ensures
        session.step(line, word).0 == session.waiting_for(PromptView::Command),
{
}

/// Once the user has quit, no line changes the session or is answered.
pub proof fn lemma_closed_stays_closed(session: SessionView, line: Seq<char>, word: Seq<char>)
    requires
        session.prompt is Closed,
    ensures
        session.step(line, word) == (session, Seq::<Notice>::empty()),
{
}

} // verus!
