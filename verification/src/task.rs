//! Tasks: a single to-do entry with a validated description, a completion
//! flag, and the transient state the board's widgets edit between frames.

use vstd::prelude::*;

verus! {

/// The errors that task and list operations can return. Validation rejects
/// exactly one thing: required text that is empty.
#[derive(Clone, Copy, Debug, PartialEq, Eq, Structural)]
pub enum TaskErrors {
    EmptyDescription,
}

/// The completion state a task can be created with; anything but
/// `Completed` makes a task that is still open.
#[derive(Clone, Copy, Debug, PartialEq, Eq, Structural)]
pub enum TaskStatus {
    NotStarted,
    InProgress,
    Completed,
}

impl TaskStatus {
    /// Whether this status counts as a completed task.
    pub open spec fn spec_is_completed(self) -> bool {
        self is Completed
    }

    /// Whether this status counts as a completed task.
    pub fn is_completed(self) -> (r: bool)
        ensures
            r == self.spec_is_completed(),
    {
        match self {
            TaskStatus::Completed => true,
            _ => false,
        }
    }
}

/// The mathematical value of a task: every field of [`Task`], with text as
/// sequences of characters.
pub ghost struct TaskView {
    /// Stable identifier, assigned by the owning list when the task is added.
    pub id: u64,
    /// Short label shown beside the completion checkbox.
    pub title: Seq<char>,
    /// The task's text; `create` and `update_description` keep it non-empty.
    pub description: Seq<char>,
    /// Whether the task has been completed.
    pub completed: bool,
    /// Name of the list the task is tagged with.
    pub list: Seq<char>,
    /// In-progress edit of the description, not yet committed.
    pub new_description: Seq<char>,
}

/// A single to-do entry.
#[derive(Debug)]
pub struct Task {
    id: u64,
    title: String,
    description: String,
    completed: bool,
    list: String,
    new_description: String,
}

impl View for Task {
    type V = TaskView;

    closed spec fn view(&self) -> TaskView {
        TaskView {
            id: self.id,
            title: self.title@,
            description: self.description@,
            completed: self.completed,
            list: self.list@,
            new_description: self.new_description@,
        }
    }
}

impl Clone for Task {
    fn clone(&self) -> (r: Self)
        ensures
            r@ == self@,
    {
        Task {
            id: self.id,
            title: self.title.clone(),
            description: self.description.clone(),
            completed: self.completed,
            list: self.list.clone(),
            new_description: self.new_description.clone(),
        }
    }
}

impl PartialEq for Task {
    fn eq(&self, other: &Task) -> (r: bool) {
        self.id == other.id && self.completed == other.completed && self.title == other.title
            && self.description == other.description && self.list == other.list
            && self.new_description == other.new_description
    }
}

impl vstd::std_specs::cmp::PartialEqSpecImpl for Task {
    open spec fn obeys_eq_spec() -> bool {
        true
    }

    open spec fn eq_spec(&self, other: &Task) -> bool {
        self@ == other@
    }
}

impl Task {
    /// The view a freshly validated task has: the given description and
    /// completion state, every other field empty or zero.
    pub open spec fn spec_new(description: Seq<char>, completed: bool, list: Seq<char>) -> TaskView {
        TaskView {
            id: 0,
            title: Seq::empty(),
            description: description,
            completed: completed,
            list: list,
            new_description: Seq::empty(),
        }
    }

    /// Validating constructor: fails exactly on an empty description,
    /// otherwise returns an open task holding that description.
    pub fn create(description: String) -> (r: Result<Task, TaskErrors>)
        ensures
            r is Ok <==> description@.len() != 0,
            r matches Ok(t) ==> t@ == Task::spec_new(description@, false, Seq::empty()),
            r matches Err(e) ==> e == TaskErrors::EmptyDescription,
    {
        if description.as_str().is_empty() {
            Err(TaskErrors::EmptyDescription)
        } else {
            Ok(Task {
                id: 0,
                title: String::new(),
                description,
                completed: false,
                list: String::new(),
                new_description: String::new(),
            })
        }
    }

    /// Validating constructor that also takes a completion status and the
    /// name of the list the task is tagged with; fails exactly on an empty
    /// description.
    pub fn new(description: String, status: TaskStatus, list: String) -> (r: Result<
        Task,
        TaskErrors,
    >)
        ensures
            r is Ok <==> description@.len() != 0,
            r matches Ok(t) ==> t@ == Task::spec_new(
                description@,
                status.spec_is_completed(),
                list@,
            ),
            r matches Err(e) ==> e == TaskErrors::EmptyDescription,
    {
        if description.as_str().is_empty() {
            Err(TaskErrors::EmptyDescription)
        } else {
            Ok(Task {
                id: 0,
                title: String::new(),
                description,
                completed: status.is_completed(),
                list,
                new_description: String::new(),
            })
        }
    }

    /// Returns the builder used to assemble a task field by field.
    pub fn builder() -> (r: TaskBuilder)
        ensures
            r@ == (TaskBuilderView {
                has_title: false,
                title: Seq::empty(),
                description: Seq::empty(),
                completed: false,
            }),
    {
        TaskBuilder { title: None, description: String::new(), completed: false }
    }

    /// Replaces the description; fails exactly on empty input and leaves
    /// the task unchanged then.
    pub fn update_description(&mut self, new_description: String) -> (r: Result<(), TaskErrors>)
        ensures
            r is Ok <==> new_description@.len() != 0,
            r is Ok ==> final(self)@ == (TaskView { description: new_description@, ..old(self)@ }),
            r is Err ==> final(self)@ == old(self)@ && r == Err::<(), TaskErrors>(
                TaskErrors::EmptyDescription,
            ),
    {
        if new_description.as_str().is_empty() {
            Err(TaskErrors::EmptyDescription)
        } else {
            self.description = new_description;
            Ok(())
        }
    }

    /// Sets the completion flag; no validation, no other change.
    pub fn set_completed(&mut self, value: bool)
        ensures
            final(self)@ == (TaskView { completed: value, ..old(self)@ }),
    {
        self.completed = value;
    }

    /// Whether the task has been completed.
    pub fn completed(&self) -> (r: bool)
        ensures
            r == self@.completed,
    {
        self.completed
    }

    /// A clone of the task's stable identifier.
    pub fn id(&self) -> (r: u64)
        ensures
            r == self@.id,
    {
        self.id
    }

    /// A clone of the task's title.
    pub fn title(&self) -> (r: String)
        ensures
            r@ == self@.title,
    {
        self.title.clone()
    }

    /// Sets the task's title.
    pub fn set_title(&mut self, title: String)
        ensures
            final(self)@ == (TaskView { title: title@, ..old(self)@ }),
    {
        self.title = title;
    }

    /// A clone of the task's description.
    pub fn description(&self) -> (r: String)
        ensures
            r@ == self@.description,
    {
        self.description.clone()
    }

    /// Sets the task's description without validation.
    pub fn set_description(&mut self, description: String)
        ensures
            final(self)@ == (TaskView { description: description@, ..old(self)@ }),
    {
        self.description = description;
    }

    /// A clone of the name of the list the task is tagged with.
    pub fn list(&self) -> (r: String)
        ensures
            r@ == self@.list,
    {
        self.list.clone()
    }

    /// A clone of the in-progress edit of the description.
    pub fn new_description(&self) -> (r: String)
        ensures
            r@ == self@.new_description,
    {
        self.new_description.clone()
    }

    /// Stores an in-progress edit of the description.
    pub fn set_new_description(&mut self, new_description: String)
        ensures
            final(self)@ == (TaskView { new_description: new_description@, ..old(self)@ }),
    {
        self.new_description = new_description;
    }

    /// Sets the task's stable identifier; only the owning list calls this,
    /// when the task is added.
    pub(crate) fn set_id(&mut self, id: u64)
        ensures
            final(self)@ == (TaskView { id: id, ..old(self)@ }),
    {
        self.id = id;
    }

    /// What one frame of the widgets does to a task's edit buffer: an empty
    /// buffer is primed with the current description, a non-empty buffer is
    /// committed as the new description.
    pub fn commit_edit(&mut self)
        ensures
            old(self)@.new_description.len() == 0 ==> final(self)@ == (TaskView {
                new_description: old(self)@.description,
                ..old(self)@
            }),
            old(self)@.new_description.len() != 0 ==> final(self)@ == (TaskView {
                description: old(self)@.new_description,
                ..old(self)@
            }),
    {
        if self.new_description.as_str().is_empty() {
            self.new_description = self.description.clone();
        } else {
            let update = self.new_description.clone();
            let _ = self.update_description(update);
        }
    }
}

/// Setting the completion flag is idempotent: setting it twice in a row
/// leaves the same task as setting it once, with no other observable
/// change. The values here are exactly what [`Task::set_completed`]'s
/// contract says the task becomes.
pub proof fn lemma_set_completed_idempotent(t: TaskView, value: bool)
    ensures
        (TaskView { completed: value, ..(TaskView { completed: value, ..t }) }) == (TaskView {
            completed: value,
            ..t
        }),
{
}

/// The mathematical value of a [`TaskBuilder`].
pub ghost struct TaskBuilderView {
    /// Whether a title has been supplied yet; `build` demands one.
    pub has_title: bool,
    /// The supplied title, empty until one is given.
    pub title: Seq<char>,
    /// The supplied description, empty by default.
    pub description: Seq<char>,
    /// The supplied completion flag, `false` by default.
    pub completed: bool,
}

/// Assembles a task field by field; only the title is required.
pub struct TaskBuilder {
    title: Option<String>,
    description: String,
    completed: bool,
}

impl View for TaskBuilder {
    type V = TaskBuilderView;

    closed spec fn view(&self) -> TaskBuilderView {
        TaskBuilderView {
            has_title: self.title is Some,
            title: if self.title is Some {
                self.title->0@
            } else {
                Seq::empty()
            },
            description: self.description@,
            completed: self.completed,
        }
    }
}

impl TaskBuilder {
    /// Supplies the task's title.
    pub fn title(self, title: String) -> (r: TaskBuilder)
        ensures
            r@ == (TaskBuilderView { has_title: true, title: title@, ..self@ }),
    {
        TaskBuilder { title: Some(title), ..self }
    }

    /// Supplies the task's description.
    pub fn description(self, description: String) -> (r: TaskBuilder)
        ensures
            r@ == (TaskBuilderView { description: description@, ..self@ }),
    {
        TaskBuilder { description, ..self }
    }

    /// Supplies the task's completion flag.
    pub fn completed(self, completed: bool) -> (r: TaskBuilder)
        ensures
            r@ == (TaskBuilderView { completed: completed, ..self@ }),
    {
        TaskBuilder { completed, ..self }
    }

    /// Finishes the task; fails exactly when no title was supplied.
    pub fn build(self) -> (r: Result<Task, TaskErrors>)
        ensures
            r is Ok <==> self@.has_title,
            r matches Ok(t) ==> t@ == (TaskView {
                id: 0,
                title: self@.title,
                description: self@.description,
                completed: self@.completed,
                list: Seq::empty(),
                new_description: Seq::empty(),
            }),
            r matches Err(e) ==> e == TaskErrors::EmptyDescription,
    {
        match self.title {
            None => Err(TaskErrors::EmptyDescription),
            Some(title) => Ok(
                Task {
                    id: 0,
                    title,
                    description: self.description,
                    completed: self.completed,
                    list: String::new(),
                    new_description: String::new(),
                },
            ),
        }
    }
}

} // verus!
