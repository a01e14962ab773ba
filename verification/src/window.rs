//! List windows: the presentation state wrapped around one list — a
//! visibility flag, the text being typed into the add-task and rename boxes,
//! the edit and delete modes, and a progress value animated one hundredth at
//! a time toward the list's real progress.

use vstd::prelude::*;

use crate::list::spec_hundredths;
use crate::list::completed_count;
use crate::list::List;
use crate::list::ListView;
use crate::task::Task;
use crate::task::TaskErrors;
use crate::task::TaskView;

verus! {

/// The mathematical value of a [`ListWindow`].
pub ghost struct WindowView {
    /// Stable identifier the board removes the window by.
    pub id: u64,
    /// The wrapped list.
    pub list: ListView,
    /// Whether the window is shown.
    pub show: bool,
    /// Contents of the add-task box.
    pub new_task_description: Seq<char>,
    /// Contents of the rename box.
    pub new_list_name: Seq<char>,
    /// Whether the window shows its editing widgets.
    pub edit_mode: bool,
    /// Whether the window shows its delete buttons.
    pub delete_mode: bool,
    /// Whether the window has asked the board to remove it.
    pub delete_requested: bool,
    /// The progress the window currently displays, in hundredths.
    pub displayed_progress: u8,
}

impl WindowView {
    /// The progress the animation is heading toward: the list's progress in
    /// whole hundredths.
    pub open spec fn target_progress(self) -> int {
        spec_hundredths(completed_count(self.list.tasks), self.list.tasks.len() as int)
    }

    /// Well-formedness: the list is well-formed and the displayed progress
    /// is a percentage.
    pub open spec fn wf(self) -> bool {
        self.list.wf() && self.displayed_progress <= 100
    }
}

/// Presentation-state wrapper around one [`List`].
pub struct ListWindow {
    id: u64,
    list: List,
    show: bool,
    new_task_description: String,
    new_list_name: String,
    edit_mode: bool,
    delete_mode: bool,
    delete_requested: bool,
    displayed_progress: u8,
}

impl Clone for ListWindow {
    fn clone(&self) -> (r: Self)
        ensures
            r@ == self@,
    {
        ListWindow {
            id: self.id,
            list: self.list.clone(),
            show: self.show,
            new_task_description: self.new_task_description.clone(),
            new_list_name: self.new_list_name.clone(),
            edit_mode: self.edit_mode,
            delete_mode: self.delete_mode,
            delete_requested: self.delete_requested,
            displayed_progress: self.displayed_progress,
        }
    }
}

impl View for ListWindow {
    type V = WindowView;

    closed spec fn view(&self) -> WindowView {
        WindowView {
            id: self.id,
            list: self.list@,
            show: self.show,
            new_task_description: self.new_task_description@,
            new_list_name: self.new_list_name@,
            edit_mode: self.edit_mode,
            delete_mode: self.delete_mode,
            delete_requested: self.delete_requested,
            displayed_progress: self.displayed_progress,
        }
    }
}

impl ListWindow {
    /// Wraps a list: shown, no modes on, the rename box primed with the
    /// list's current name, displayed progress zero, identifier zero until
    /// the board assigns one.
    pub fn new(list: List) -> (r: ListWindow)
        ensures
            r@ == (WindowView {
                id: 0,
                list: list@,
                show: true,
                new_task_description: Seq::empty(),
                new_list_name: list@.name,
                edit_mode: false,
                delete_mode: false,
                delete_requested: false,
                displayed_progress: 0,
            }),
    {
        let new_list_name = list.name();
        ListWindow {
            id: 0,
            list,
            show: true,
            new_task_description: String::new(),
            new_list_name,
            edit_mode: false,
            delete_mode: false,
            delete_requested: false,
            displayed_progress: 0,
        }
    }

    /// Returns the builder used to assemble a list window field by field.
    pub fn builder() -> (r: ListWindowBuilder)
        ensures
            r@ == (WindowBuilderView {
                has_name: false,
                name: Seq::empty(),
                id: 0,
                list: (ListView { name: Seq::empty(), tasks: Seq::empty(), next_id: 0 }),
                visible: true,
                editing: false,
            }),
    {
        ListWindowBuilder { name: None, id: 0, list: None, visible: true, editing: false }
    }

    /// Sets the window's stable identifier; only the board calls this, when
    /// the window enters the board.
    pub(crate) fn set_id(&mut self, id: u64)
        ensures
            final(self)@ == (WindowView { id: id, ..old(self)@ }),
    {
        self.id = id;
    }

    /// The window's stable identifier.
    pub fn id(&self) -> (r: u64)
        ensures
            r == self@.id,
    {
        self.id
    }

    /// The wrapped list.
    pub fn list(&self) -> (r: &List)
        ensures
            r@ == self@.list,
    {
        &self.list
    }

    /// Whether to show the window or not.
    pub fn show(&self) -> (r: bool)
        ensures
            r == self@.show,
    {
        self.show
    }

    /// Sets whether to show the window.
    pub fn set_show(&mut self, value: bool)
        ensures
            final(self)@ == (WindowView { show: value, ..old(self)@ }),
    {
        self.show = value;
    }

    /// A clone of the wrapped list's name.
    pub fn list_name(&self) -> (r: String)
        ensures
            r@ == self@.list.name,
    {
        self.list.name()
    }

    /// A clone of the wrapped list's name.
    pub fn name(&self) -> (r: String)
        ensures
            r@ == self@.list.name,
    {
        self.list.name()
    }

    /// Renames the wrapped list without validation; the validating paths
    /// are [`ListWindow::rename`] and the board's rename operation.
    pub fn set_name(&mut self, name: String)
        ensures
            final(self)@ == (WindowView {
                list: (ListView { name: name@, ..old(self)@.list }),
                ..old(self)@
            }),
    {
        self.list.set_name(name);
    }

    /// Renames the wrapped list; fails exactly on an empty name and changes
    /// nothing then.
    pub fn rename(&mut self, new_name: String) -> (r: Result<(), TaskErrors>)
        ensures
            r is Ok <==> new_name@.len() != 0,
            r is Ok ==> final(self)@ == (WindowView {
                list: (ListView { name: new_name@, ..old(self)@.list }),
                ..old(self)@
            }),
            r is Err ==> final(self)@ == old(self)@ && r == Err::<(), TaskErrors>(
                TaskErrors::EmptyDescription,
            ),
    {
        if new_name.as_str().is_empty() {
            Err(TaskErrors::EmptyDescription)
        } else {
            self.list.set_name(new_name);
            Ok(())
        }
    }

    /// A clone of the wrapped list's tasks.
    pub fn task_vec_clone(&self) -> (r: Vec<Task>)
        ensures
            crate::list::views_of(r@) == self@.list.tasks,
    {
        let source = self.list.tasks();
        let n = source.len();
        let mut out: Vec<Task> = Vec::new();
        for i in 0..n
            invariant
                n == source@.len(),
                crate::list::views_of(source@) == self@.list.tasks,
                out@.len() == i,
                forall|j: int| 0 <= j < i ==> #[trigger] out@[j]@ == source@[j]@,
        {
            out.push(source[i].clone());
        }
        proof {
            assert(crate::list::views_of(out@) =~= self@.list.tasks);
        }
        out
    }

    /// A clone of the contents of the add-task box.
    pub fn new_task_description(&self) -> (r: String)
        ensures
            r@ == self@.new_task_description,
    {
        self.new_task_description.clone()
    }

    /// A clone of the contents of the rename box.
    pub fn new_list_name(&self) -> (r: String)
        ensures
            r@ == self@.new_list_name,
    {
        self.new_list_name.clone()
    }

    /// Flips whether the editing widgets are shown.
    pub fn toggle_edit_mode(&mut self)
        ensures
            final(self)@ == (WindowView { edit_mode: !old(self)@.edit_mode, ..old(self)@ }),
    {
        self.edit_mode = !self.edit_mode;
    }

    /// Whether the editing widgets are shown.
    pub fn edit_mode(&self) -> (r: bool)
        ensures
            r == self@.edit_mode,
    {
        self.edit_mode
    }

    /// Flips whether the delete buttons are shown.
    pub fn toggle_delete_mode(&mut self)
        ensures
            final(self)@ == (WindowView { delete_mode: !old(self)@.delete_mode, ..old(self)@ }),
    {
        self.delete_mode = !self.delete_mode;
    }

    /// Whether the delete buttons are shown.
    pub fn delete_mode(&self) -> (r: bool)
        ensures
            r == self@.delete_mode,
    {
        self.delete_mode
    }

    /// Marks this window for removal; the board removes every window so
    /// marked, never the window itself.
    pub fn request_delete(&mut self)
        ensures
            final(self)@ == (WindowView { delete_requested: true, ..old(self)@ }),
    {
        self.delete_requested = true;
    }

    /// Whether the window has asked to be removed.
    pub fn delete_requested(&self) -> (r: bool)
        ensures
            r == self@.delete_requested,
    {
        self.delete_requested
    }

    /// The progress currently displayed, in hundredths.
    pub fn displayed_progress(&self) -> (r: u8)
        ensures
            r == self@.displayed_progress,
    {
        self.displayed_progress
    }

    /// One animation step: moves the displayed progress one hundredth
    /// toward the list's progress, and reports whether the renderer should
    /// schedule another frame — exactly when a step was taken.
    pub fn tick(&mut self) -> (more: bool)
        requires
            old(self)@.wf(),
        ensures
            more == (old(self)@.displayed_progress != old(self)@.target_progress()),
            old(self)@.displayed_progress == old(self)@.target_progress() ==> final(self)@ == old(
                self,
            )@,
            old(self)@.displayed_progress < old(self)@.target_progress() ==> final(self)@ == (
            WindowView { displayed_progress: (old(self)@.displayed_progress + 1) as u8, ..old(self)@ }),
            old(self)@.displayed_progress > old(self)@.target_progress() ==> final(self)@ == (
            WindowView { displayed_progress: (old(self)@.displayed_progress - 1) as u8, ..old(self)@ }),
            final(self)@.wf(),
    {
        let progress = self.list.progress();
        let target = progress.hundredths();
        let displayed: usize = self.displayed_progress as usize;
        if displayed == target {
            false
        } else if displayed < target {
            self.displayed_progress = self.displayed_progress + 1;
            true
        } else {
            self.displayed_progress = self.displayed_progress - 1;
            true
        }
    }

    /// What one frame of the add-task box does: the typed contents are
    /// kept, and when typing is finished and the contents are non-empty, a
    /// task with that description joins the list and the box is cleared.
    pub fn apply_task_entry(&mut self, contents: String, finished: bool)
        requires
            old(self)@.list.next_id < u64::MAX,
        ensures
            finished && contents@.len() != 0 ==> final(self)@ == (WindowView {
                list: (ListView {
                    tasks: old(self)@.list.tasks.push(
                        (TaskView {
                            id: old(self)@.list.next_id,
                            ..Task::spec_new(contents@, false, Seq::empty())
                        }),
                    ),
                    next_id: (old(self)@.list.next_id + 1) as u64,
                    ..old(self)@.list
                }),
                new_task_description: Seq::empty(),
                ..old(self)@
            }),
            !(finished && contents@.len() != 0) ==> final(self)@ == (WindowView {
                new_task_description: contents@,
                ..old(self)@
            }),
            old(self)@.wf() ==> final(self)@.wf(),
    {
        if finished && !contents.as_str().is_empty() {
            let task = Task::create(contents).unwrap();
            self.list.add(task);
            self.new_task_description = String::new();
        } else {
            self.new_task_description = contents;
        }
    }

    /// What one frame of the rename box does: the typed contents are kept,
    /// and when typing is finished and the contents are non-empty, the list
    /// takes them as its name.
    pub fn apply_rename_entry(&mut self, contents: String, finished: bool)
        ensures
            finished && contents@.len() != 0 ==> final(self)@ == (WindowView {
                list: (ListView { name: contents@, ..old(self)@.list }),
                new_list_name: contents@,
                ..old(self)@
            }),
            !(finished && contents@.len() != 0) ==> final(self)@ == (WindowView {
                new_list_name: contents@,
                ..old(self)@
            }),
    {
        if finished && !contents.as_str().is_empty() {
            let name = contents.clone();
            self.list.set_name(name);
        }
        self.new_list_name = contents;
    }

    /// Sets the completion flag of the task at the given position.
    pub fn set_task_completed(&mut self, index: usize, value: bool)
        requires
            index < old(self)@.list.tasks.len(),
        ensures
            final(self)@ == (WindowView {
                list: (ListView {
                    tasks: old(self)@.list.tasks.update(
                        index as int,
                        (TaskView { completed: value, ..old(self)@.list.tasks[index as int] }),
                    ),
                    ..old(self)@.list
                }),
                ..old(self)@
            }),
            old(self)@.wf() ==> final(self)@.wf(),
    {
        self.list.set_task_completed(index, value);
    }

    /// Stores an in-progress description edit on the task at the given
    /// position.
    pub fn set_task_new_description(&mut self, index: usize, contents: String)
        requires
            index < old(self)@.list.tasks.len(),
        ensures
            final(self)@ == (WindowView {
                list: (ListView {
                    tasks: old(self)@.list.tasks.update(
                        index as int,
                        (TaskView {
                            new_description: contents@,
                            ..old(self)@.list.tasks[index as int]
                        }),
                    ),
                    ..old(self)@.list
                }),
                ..old(self)@
            }),
            old(self)@.wf() ==> final(self)@.wf(),
    {
        self.list.set_task_new_description(index, contents);
    }

    /// Applies one frame of edit-buffer upkeep to the task at the given
    /// position: an empty buffer is primed with the description, a
    /// non-empty buffer is committed as the new description.
    pub fn commit_task_edit(&mut self, index: usize)
        requires
            index < old(self)@.list.tasks.len(),
        ensures
            old(self)@.list.tasks[index as int].new_description.len() == 0 ==> final(self)@ == (
            WindowView {
                list: (ListView {
                    tasks: old(self)@.list.tasks.update(
                        index as int,
                        (TaskView {
                            new_description: old(self)@.list.tasks[index as int].description,
                            ..old(self)@.list.tasks[index as int]
                        }),
                    ),
                    ..old(self)@.list
                }),
                ..old(self)@
            }),
            old(self)@.list.tasks[index as int].new_description.len() != 0 ==> final(self)@ == (
            WindowView {
                list: (ListView {
                    tasks: old(self)@.list.tasks.update(
                        index as int,
                        (TaskView {
                            description: old(self)@.list.tasks[index as int].new_description,
                            ..old(self)@.list.tasks[index as int]
                        }),
                    ),
                    ..old(self)@.list
                }),
                ..old(self)@
            }),
            old(self)@.wf() ==> final(self)@.wf(),
    {
        self.list.commit_task_edit(index);
    }

    /// Removes the first task with the given identifier, if any; in a
    /// well-formed window that is the only match.
    pub fn delete_task(&mut self, id: u64) -> (r: bool)
        ensures
            r == crate::list::has_task_with_id(old(self)@.list.tasks, id),
            !r ==> final(self)@ == old(self)@,
            r ==> crate::list::delete_task_post(
                old(self)@.list.tasks,
                final(self)@.list.tasks,
                id,
            ),
            final(self)@ == (WindowView {
                list: (ListView { tasks: final(self)@.list.tasks, ..old(self)@.list }),
                ..old(self)@
            }),
            old(self)@.wf() ==> final(self)@.wf(),
    {
        self.list.delete_task(id)
    }

    /// Removes every completed task of the wrapped list.
    pub fn delete_completed(&mut self)
        ensures
            final(self)@ == (WindowView {
                list: (ListView {
                    tasks: crate::list::without_completed(old(self)@.list.tasks),
                    ..old(self)@.list
                }),
                ..old(self)@
            }),
            old(self)@.wf() ==> final(self)@.wf(),
    {
        self.list.delete_completed();
    }

    /// Stable-partitions the wrapped list's tasks, completed ones first.
    pub fn sort_completed_first(&mut self)
        ensures
            final(self)@ == (WindowView {
                list: (ListView {
                    tasks: crate::list::only_completed(old(self)@.list.tasks)
                        + crate::list::without_completed(old(self)@.list.tasks),
                    ..old(self)@.list
                }),
                ..old(self)@
            }),
            old(self)@.wf() ==> final(self)@.wf(),
    {
        self.list.sort_completed_first();
    }
}

/// The mathematical value of a [`ListWindowBuilder`].
pub ghost struct WindowBuilderView {
    /// Whether a name has been supplied yet; `build` demands one.
    pub has_name: bool,
    /// The supplied name, empty until one is given.
    pub name: Seq<char>,
    /// The supplied identifier, zero by default.
    pub id: u64,
    /// The supplied list, empty by default.
    pub list: ListView,
    /// The supplied visibility, `true` by default.
    pub visible: bool,
    /// The supplied edit mode, `false` by default.
    pub editing: bool,
}

/// Assembles a list window field by field; only the name is required.
pub struct ListWindowBuilder {
    name: Option<String>,
    id: u64,
    list: Option<List>,
    visible: bool,
    editing: bool,
}

impl View for ListWindowBuilder {
    type V = WindowBuilderView;

    closed spec fn view(&self) -> WindowBuilderView {
        WindowBuilderView {
            has_name: self.name is Some,
            name: if self.name is Some {
                self.name->0@
            } else {
                Seq::empty()
            },
            id: self.id,
            list: if self.list is Some {
                self.list->0@
            } else {
                ListView { name: Seq::empty(), tasks: Seq::empty(), next_id: 0 }
            },
            visible: self.visible,
            editing: self.editing,
        }
    }
}

impl ListWindowBuilder {
    /// Supplies the window's name.
    pub fn name(self, name: String) -> (r: ListWindowBuilder)
        ensures
            r@ == (WindowBuilderView { has_name: true, name: name@, ..self@ }),
    {
        ListWindowBuilder { name: Some(name), ..self }
    }

    /// Supplies the window's stable identifier.
    pub fn id(self, id: u64) -> (r: ListWindowBuilder)
        ensures
            r@ == (WindowBuilderView { id: id, ..self@ }),
    {
        ListWindowBuilder { id, ..self }
    }

    /// Supplies the list the window wraps.
    pub fn list(self, list: List) -> (r: ListWindowBuilder)
        ensures
            r@ == (WindowBuilderView { list: list@, ..self@ }),
    {
        ListWindowBuilder { list: Some(list), ..self }
    }

    /// Supplies the window's visibility.
    pub fn visible(self, visible: bool) -> (r: ListWindowBuilder)
        ensures
            r@ == (WindowBuilderView { visible: visible, ..self@ }),
    {
        ListWindowBuilder { visible, ..self }
    }

    /// Supplies the window's edit mode.
    pub fn editing(self, editing: bool) -> (r: ListWindowBuilder)
        ensures
            r@ == (WindowBuilderView { editing: editing, ..self@ }),
    {
        ListWindowBuilder { editing, ..self }
    }

    /// Finishes the window; fails exactly when no name was supplied. The
    /// supplied name becomes the wrapped list's name.
    pub fn build(self) -> (r: Result<ListWindow, TaskErrors>)
        ensures
            r is Ok <==> self@.has_name,
            r matches Ok(w) ==> w@ == (WindowView {
                id: self@.id,
                list: (ListView { name: self@.name, ..self@.list }),
                show: self@.visible,
                new_task_description: Seq::empty(),
                new_list_name: self@.name,
                edit_mode: self@.editing,
                delete_mode: false,
                delete_requested: false,
                displayed_progress: 0,
            }),
            r matches Err(e) ==> e == TaskErrors::EmptyDescription,
    {
        match self.name {
            None => Err(TaskErrors::EmptyDescription),
            Some(name) => {
                let mut list = match self.list {
                    Some(l) => l,
                    None => {
                        let l = List::new(String::new(), Vec::new());
                        proof {
                            assert(l@.tasks =~= Seq::<TaskView>::empty());
                        }
                        l
                    },
                };
                list.set_name(name);
                let mut window = ListWindow::new(list);
                window.set_id(self.id);
                window.set_show(self.visible);
                if self.editing {
                    window.toggle_edit_mode();
                }
                Ok(window)
            },
        }
    }
}

} // verus!
