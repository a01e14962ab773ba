//! The board: the whole application state. It owns the list windows and the
//! top bar, hands out fresh window identifiers, and applies the buffered
//! input of one frame — adding, renaming and removing lists under one
//! consistent policy: a list name must be non-empty and not already in use.

use vstd::prelude::*;

use crate::list::List;
use crate::list::ListView;
use crate::task::Task;
use crate::task::TaskView;
use crate::window::ListWindow;
use crate::window::WindowView;

verus! {

/// The errors that board operations can return.
#[derive(Clone, Copy, Debug, PartialEq, Eq, Structural)]
pub enum BoardError {
    /// The given list name was empty.
    EmptyName,
    /// Another list already carries the given name.
    DuplicateName,
}

/// The mathematical value of an [`AddListResult`].
pub ghost struct AddListResultView {
    /// Whether the user finished typing a non-empty name, so a list is to
    /// be added.
    pub is_add: bool,
    /// The contents of the add-list box.
    pub text: Seq<char>,
}

/// The outcome of one frame of the add-list box.
pub enum AddListResult {
    /// The user has finished typing: add a list with this name.
    AddList(String),
    /// The user has not finished typing yet; keep the contents.
    ContinueTyping(String),
}

impl View for AddListResult {
    type V = AddListResultView;

    open spec fn view(&self) -> AddListResultView {
        match self {
            AddListResult::AddList(s) => AddListResultView { is_add: true, text: s@ },
            AddListResult::ContinueTyping(s) => AddListResultView { is_add: false, text: s@ },
        }
    }
}

impl AddListResult {
    /// Unwraps the string in the enum.
    pub fn unwrap(&self) -> (r: String)
        ensures
            r@ == self@.text,
    {
        match self {
            AddListResult::AddList(list) => list.clone(),
            AddListResult::ContinueTyping(list) => list.clone(),
        }
    }
}

/// What one frame of the add-list box decides: a list is added exactly when
/// typing is finished and the contents are non-empty; either way the
/// contents are kept.
pub fn list_entry_result(finished: bool, contents: String) -> (r: AddListResult)
    ensures
        r@ == (AddListResultView {
            is_add: finished && contents@.len() != 0,
            text: contents@,
        }),
{
    let empty = contents.as_str().is_empty();
    if finished && !empty {
        AddListResult::AddList(contents)
    } else {
        AddListResult::ContinueTyping(contents)
    }
}

/// The mathematical value of a [`TopBar`].
pub ghost struct TopBarView {
    /// The state of the add-list box.
    pub entry: AddListResultView,
    /// Whether the settings window is shown.
    pub show_settings: bool,
}

/// The bar across the top of the board: the add-list box and the settings
/// toggle.
pub struct TopBar {
    list_to_add: AddListResult,
    show_settings: bool,
}

impl View for TopBar {
    type V = TopBarView;

    closed spec fn view(&self) -> TopBarView {
        TopBarView { entry: self.list_to_add@, show_settings: self.show_settings }
    }
}

impl Default for TopBar {
    /// An empty add-list box, settings hidden.
    fn default() -> (r: TopBar)
        ensures
            r@ == (TopBarView {
                entry: (AddListResultView { is_add: false, text: Seq::empty() }),
                show_settings: false,
            }),
    {
        TopBar { list_to_add: AddListResult::ContinueTyping(String::new()), show_settings: false }
    }
}

impl TopBar {
    /// Whether the settings window is shown.
    pub fn show_settings(&self) -> (r: bool)
        ensures
            r == self@.show_settings,
    {
        self.show_settings
    }

    /// Flips whether the settings window is shown.
    pub fn toggle_show_settings(&mut self)
        ensures
            final(self)@ == (TopBarView {
                show_settings: !old(self)@.show_settings,
                ..old(self)@
            }),
    {
        self.show_settings = !self.show_settings;
    }

    /// A clone of the contents of the add-list box, for the renderer to
    /// seed the text field with.
    pub fn entry_text(&self) -> (r: String)
        ensures
            r@ == self@.entry.text,
    {
        self.list_to_add.unwrap()
    }

    /// Stores one frame's outcome of the add-list box. When it says to add
    /// a list, the box is cleared and the name is handed back for the board
    /// to add; otherwise the contents are kept for the next frame.
    pub fn apply_entry(&mut self, result: AddListResult) -> (r: Option<String>)
        ensures
            result@.is_add ==> final(self)@ == (TopBarView {
                entry: (AddListResultView { is_add: false, text: Seq::empty() }),
                ..old(self)@
            }) && (r matches Some(name) && name@ == result@.text),
            !result@.is_add ==> final(self)@ == (TopBarView { entry: result@, ..old(self)@ })
                && r is None,
    {
        match result {
            AddListResult::AddList(name) => {
                self.list_to_add = AddListResult::ContinueTyping(String::new());
                Some(name)
            },
            AddListResult::ContinueTyping(text) => {
                self.list_to_add = AddListResult::ContinueTyping(text);
                None
            },
        }
    }
}

/// The views of a sequence of list windows.
pub open spec fn window_views(windows: Seq<ListWindow>) -> Seq<WindowView> {
    windows.map_values(|w: ListWindow| w@)
}

/// Whether some window's list carries the name.
pub open spec fn window_named(windows: Seq<WindowView>, name: Seq<char>) -> bool {
    exists|i: int| 0 <= i < windows.len() && #[trigger] windows[i].list.name == name
}

/// Whether some window other than the one with the given identifier carries
/// the name.
pub open spec fn other_window_named(windows: Seq<WindowView>, id: u64, name: Seq<char>) -> bool {
    exists|i: int|
        0 <= i < windows.len() && #[trigger] windows[i].id != id && windows[i].list.name == name
}

/// The view of a fresh window for a newly added list: an empty list with
/// the given name, shown, the rename box primed with the name.
pub open spec fn spec_new_window(name: Seq<char>, id: u64) -> WindowView {
    WindowView {
        id: id,
        list: ListView { name: name, tasks: Seq::empty(), next_id: 0 },
        show: true,
        new_task_description: Seq::empty(),
        new_list_name: name,
        edit_mode: false,
        delete_mode: false,
        delete_requested: false,
        displayed_progress: 0,
    }
}

/// What renaming by identifier does to one window's view.
pub open spec fn spec_rename_window(w: WindowView, id: u64, name: Seq<char>) -> WindowView {
    if w.id == id {
        WindowView { list: ListView { name: name, ..w.list }, ..w }
    } else {
        w
    }
}

/// The mathematical value of a [`Board`].
pub ghost struct BoardView {
    /// The top bar's state.
    pub topbar: TopBarView,
    /// The list windows, in display order.
    pub windows: Seq<WindowView>,
    /// The identifier the next added window will get.
    pub next_id: u64,
}

impl BoardView {
    /// Well-formedness: every window is well-formed, and window
    /// identifiers are unique and below `next_id`.
    pub open spec fn wf(self) -> bool {
        &&& forall|i: int| 0 <= i < self.windows.len() ==> (#[trigger] self.windows[i]).wf()
        &&& forall|i: int, j: int|
            0 <= i < j < self.windows.len() ==> #[trigger] self.windows[i].id
                != #[trigger] self.windows[j].id
        &&& forall|i: int| 0 <= i < self.windows.len() ==> #[trigger] self.windows[i].id
            < self.next_id
    }
}

/// The board the application starts with when nothing was persisted: a
/// "Tasklist" holding three example tasks, and an empty "Second List".
pub open spec fn sample_board() -> BoardView {
    BoardView {
        topbar: TopBarView {
            entry: AddListResultView { is_add: false, text: Seq::empty() },
            show_settings: false,
        },
        windows: seq![
            WindowView {
                id: 0,
                list: ListView {
                    name: "Tasklist"@,
                    tasks: seq![
                        TaskView {
                            id: 0,
                            title: "Task One"@,
                            description: "This is the first task"@,
                            completed: false,
                            list: Seq::empty(),
                            new_description: Seq::empty(),
                        },
                        TaskView {
                            id: 1,
                            title: "Task Two"@,
                            description: "This is the second task, and still with a description"@,
                            completed: false,
                            list: Seq::empty(),
                            new_description: Seq::empty(),
                        },
                        TaskView {
                            id: 2,
                            title: "Task Three"@,
                            description: Seq::empty(),
                            completed: true,
                            list: Seq::empty(),
                            new_description: Seq::empty(),
                        },
                    ],
                    next_id: 3,
                },
                show: true,
                new_task_description: Seq::empty(),
                new_list_name: "Tasklist"@,
                edit_mode: false,
                delete_mode: false,
                delete_requested: false,
                displayed_progress: 0,
            },
            WindowView {
                id: 1,
                list: ListView { name: "Second List"@, tasks: Seq::empty(), next_id: 0 },
                show: true,
                new_task_description: Seq::empty(),
                new_list_name: "Second List"@,
                edit_mode: false,
                delete_mode: false,
                delete_requested: false,
                displayed_progress: 0,
            },
        ],
        next_id: 2,
    }
}

/// The whole application state: the top bar and the list windows.
pub struct Board {
    topbar: TopBar,
    list_windows: Vec<ListWindow>,
    next_id: u64,
}

impl View for Board {
    type V = BoardView;

    closed spec fn view(&self) -> BoardView {
        BoardView {
            topbar: self.topbar@,
            windows: window_views(self.list_windows@),
            next_id: self.next_id,
        }
    }
}

impl Default for Board {
    /// The sample board shown on first launch.
    fn default() -> (r: Board)
        ensures
            r@ == sample_board(),
            r@.wf(),
    {
        let t1 = Task::builder().title("Task One".to_owned()).description(
            "This is the first task".to_owned(),
        ).build().unwrap();
        let t2 = Task::builder().title("Task Two".to_owned()).description(
            "This is the second task, and still with a description".to_owned(),
        ).build().unwrap();
        let t3 = Task::builder().title("Task Three".to_owned()).completed(true).build().unwrap();
        let ghost t1v = t1@;
        let ghost t2v = t2@;
        let ghost t3v = t3@;
        let mut tasks: Vec<Task> = Vec::new();
        tasks.push(t1);
        tasks.push(t2);
        tasks.push(t3);
        let list = List::new("Tasklist".to_owned(), tasks);
        proof {
            assert(list@.tasks =~= sample_board().windows[0].list.tasks);
        }
        let mut w0 = ListWindow::new(list);
        w0.set_id(0);
        let second = List::new("Second List".to_owned(), Vec::new());
        proof {
            assert(second@.tasks =~= Seq::<TaskView>::empty());
        }
        let mut w1 = ListWindow::new(second);
        w1.set_id(1);
        let ghost w0v = w0@;
        let ghost w1v = w1@;
        let mut list_windows: Vec<ListWindow> = Vec::new();
        list_windows.push(w0);
        list_windows.push(w1);
        let r = Board { topbar: TopBar::default(), list_windows, next_id: 2 };
        proof {
            assert(w0v == sample_board().windows[0]);
            assert(w1v == sample_board().windows[1]);
            assert(r@.windows =~= sample_board().windows);
        }
        r
    }
}

impl Board {
    /// An empty board: no windows, default top bar.
    pub fn new() -> (r: Board)
        ensures
            r@ == (BoardView {
                topbar: (TopBarView {
                    entry: (AddListResultView { is_add: false, text: Seq::empty() }),
                    show_settings: false,
                }),
                windows: Seq::empty(),
                next_id: 0,
            }),
            r@.wf(),
    {
        let r = Board { topbar: TopBar::default(), list_windows: Vec::new(), next_id: 0 };
        proof {
            assert(window_views(r.list_windows@) =~= Seq::<WindowView>::empty());
        }
        r
    }

    /// A board holding the given windows, which are renumbered with fresh
    /// identifiers `0, 1, ...` in order; the top bar starts out default.
    pub fn from_windows(windows: Vec<ListWindow>) -> (r: Board)
        ensures
            r@.topbar == (TopBarView {
                entry: (AddListResultView { is_add: false, text: Seq::empty() }),
                show_settings: false,
            }),
            r@.windows.len() == windows@.len(),
            forall|i: int|
                0 <= i < windows@.len() ==> r@.windows[i] == (WindowView {
                    id: i as u64,
                    ..windows@[i]@
                }),
            r@.next_id == windows@.len(),
            (forall|i: int| 0 <= i < windows@.len() ==> (#[trigger] windows@[i]@).wf()) ==> r@.wf(),
    {
        let n = windows.len();
        let mut renumbered: Vec<ListWindow> = Vec::new();
        for i in 0..n
            invariant
                n == windows@.len(),
                renumbered@.len() == i,
                forall|j: int|
                    0 <= j < i ==> #[trigger] renumbered@[j]@ == (WindowView {
                        id: j as u64,
                        ..windows@[j]@
                    }),
        {
            let mut w = windows[i].clone();
            w.set_id(i as u64);
            renumbered.push(w);
        }
        proof {
            assert forall|j: int|
                0 <= j < windows@.len() implies window_views(renumbered@)[j] == (WindowView {
                id: j as u64,
                ..windows@[j]@
            }) by {
                assert(window_views(renumbered@)[j] == renumbered@[j]@);
            }
        }
        Board { topbar: TopBar::default(), list_windows: renumbered, next_id: n as u64 }
    }

    /// The top bar.
    pub fn topbar(&self) -> (r: &TopBar)
        ensures
            r@ == self@.topbar,
    {
        &self.topbar
    }

    /// Flips whether the settings window is shown.
    pub fn toggle_show_settings(&mut self)
        ensures
            final(self)@ == (BoardView {
                topbar: (TopBarView {
                    show_settings: !old(self)@.topbar.show_settings,
                    ..old(self)@.topbar
                }),
                ..old(self)@
            }),
    {
        self.topbar.toggle_show_settings();
    }

    /// The identifier the next added window will get.
    pub fn next_id(&self) -> (r: u64)
        ensures
            r == self@.next_id,
    {
        self.next_id
    }

    /// How many windows the board holds.
    pub fn window_count(&self) -> (r: usize)
        ensures
            r == self@.windows.len(),
    {
        self.list_windows.len()
    }

    /// The window at the given position.
    pub fn window(&self, index: usize) -> (r: &ListWindow)
        requires
            index < self@.windows.len(),
        ensures
            r@ == self@.windows[index as int],
    {
        &self.list_windows[index]
    }

    /// Removes and returns the window at the given position, so that the
    /// renderer can feed one frame of interactions into it; it comes back
    /// through [`Board::put_window`].
    pub fn take_window(&mut self, index: usize) -> (r: ListWindow)
        requires
            index < old(self)@.windows.len(),
        ensures
            r@ == old(self)@.windows[index as int],
            final(self)@ == (BoardView {
                windows: old(self)@.windows.remove(index as int),
                ..old(self)@
            }),
    {
        let w = self.list_windows.remove(index);
        proof {
            assert(window_views(self.list_windows@) =~= old(self)@.windows.remove(index as int));
        }
        w
    }

    /// Puts a window back at the given position.
    pub fn put_window(&mut self, index: usize, window: ListWindow)
        requires
            index <= old(self)@.windows.len(),
        ensures
            final(self)@ == (BoardView {
                windows: old(self)@.windows.insert(index as int, window@),
                ..old(self)@
            }),
    {
        self.list_windows.insert(index, window);
        proof {
            assert(window_views(self.list_windows@) =~= old(self)@.windows.insert(
                index as int,
                window@,
            ));
        }
    }

    /// Adds a new, empty list with the given name, under the board's one
    /// naming policy: the name must be non-empty and not already in use.
    /// The new window gets a fresh identifier.
    #[verifier::loop_isolation(false)]
    pub fn add_list(&mut self, name: String) -> (r: Result<(), BoardError>)
        requires
            old(self)@.next_id < u64::MAX,
        ensures
            r is Ok <==> name@.len() != 0 && !window_named(old(self)@.windows, name@),
            r is Ok ==> final(self)@ == (BoardView {
                windows: old(self)@.windows.push(spec_new_window(name@, old(self)@.next_id)),
                next_id: (old(self)@.next_id + 1) as u64,
                ..old(self)@
            }),
            r is Err ==> final(self)@ == old(self)@,
            r == Err::<(), BoardError>(BoardError::EmptyName) <==> name@.len() == 0,
            r == Err::<(), BoardError>(BoardError::DuplicateName) <==> name@.len() != 0
                && window_named(old(self)@.windows, name@),
            old(self)@.wf() ==> final(self)@.wf(),
    {
        if name.as_str().is_empty() {
            return Err(BoardError::EmptyName);
        }
        let n = self.list_windows.len();
        for i in 0..n
            invariant
                n == self@.windows.len(),
                self@ == old(self)@,
                name@.len() != 0,
                forall|j: int| 0 <= j < i ==> #[trigger] self@.windows[j].list.name != name@,
        {
            proof {
                assert(self@.windows[i as int] == self.list_windows@[i as int]@);
            }
            if self.list_windows[i].list_name() == name {
                proof {
                    assert(self@.windows[i as int].list.name == name@);
                    assert(window_named(old(self)@.windows, name@));
                }
                return Err(BoardError::DuplicateName);
            }
        }
        let ghost name_view = name@;
        let list = List::new(name, Vec::new());
        proof {
            assert(list@.tasks =~= Seq::<TaskView>::empty());
            assert(list@ == (ListView { name: name_view, tasks: Seq::empty(), next_id: 0 }));
        }
        let mut window = ListWindow::new(list);
        window.set_id(self.next_id);
        proof {
            assert(window@ == spec_new_window(name_view, self.next_id));
        }
        self.list_windows.push(window);
        self.next_id = self.next_id + 1;
        proof {
            assert(window_views(self.list_windows@) =~= old(self)@.windows.push(
                spec_new_window(name_view, old(self)@.next_id),
            ));
        }
        Ok(())
    }

    /// Removes every window whose identifier matches; under a well-formed
    /// board that is at most one.
    pub fn remove_list(&mut self, id: u64)
        ensures
            final(self)@ == (BoardView {
                windows: old(self)@.windows.filter(|w: WindowView| w.id != id),
                ..old(self)@
            }),
            old(self)@.wf() ==> final(self)@.wf(),
    {
        let ghost all = old(self)@.windows;
        let n = self.list_windows.len();
        let mut kept: Vec<ListWindow> = Vec::new();
        for i in 0..n
            invariant
                n == all.len(),
                all == window_views(self.list_windows@),
                self@ == old(self)@,
                window_views(kept@) == all.subrange(0, i as int).filter(
                    |w: WindowView| w.id != id,
                ),
        {
            proof {
                assert(all.subrange(0, i + 1).drop_last() =~= all.subrange(0, i as int));
                reveal(Seq::filter);
            }
            if self.list_windows[i].id() != id {
                kept.push(self.list_windows[i].clone());
            }
            proof {
                assert(window_views(kept@) =~= all.subrange(0, i + 1).filter(
                    |w: WindowView| w.id != id,
                ));
            }
        }
        self.list_windows = kept;
        proof {
            assert(all.subrange(0, n as int) =~= all);
            if old(self)@.wf() {
                lemma_window_filter_keeps_wf(all, |w: WindowView| w.id != id, old(self)@.next_id);
            }
        }
    }

    /// Removes every window that has asked to be removed.
    pub fn remove_requested(&mut self)
        ensures
            final(self)@ == (BoardView {
                windows: old(self)@.windows.filter(|w: WindowView| !w.delete_requested),
                ..old(self)@
            }),
            old(self)@.wf() ==> final(self)@.wf(),
    {
        let ghost all = old(self)@.windows;
        let n = self.list_windows.len();
        let mut kept: Vec<ListWindow> = Vec::new();
        for i in 0..n
            invariant
                n == all.len(),
                all == window_views(self.list_windows@),
                self@ == old(self)@,
                window_views(kept@) == all.subrange(0, i as int).filter(
                    |w: WindowView| !w.delete_requested,
                ),
        {
            proof {
                assert(all.subrange(0, i + 1).drop_last() =~= all.subrange(0, i as int));
                reveal(Seq::filter);
            }
            if !self.list_windows[i].delete_requested() {
                kept.push(self.list_windows[i].clone());
            }
            proof {
                assert(window_views(kept@) =~= all.subrange(0, i + 1).filter(
                    |w: WindowView| !w.delete_requested,
                ));
            }
        }
        self.list_windows = kept;
        proof {
            assert(all.subrange(0, n as int) =~= all);
            if old(self)@.wf() {
                lemma_window_filter_keeps_wf(
                    all,
                    |w: WindowView| !w.delete_requested,
                    old(self)@.next_id,
                );
            }
        }
    }

    /// Renames the list of the window with the given identifier, under the
    /// same policy as adding: the new name must be non-empty and not
    /// carried by any other window.
    #[verifier::loop_isolation(false)]
    pub fn rename_list(&mut self, id: u64, new_name: String) -> (r: Result<(), BoardError>)
        ensures
            r is Ok <==> new_name@.len() != 0 && !other_window_named(
                old(self)@.windows,
                id,
                new_name@,
            ),
            r is Ok ==> final(self)@ == (BoardView {
                windows: old(self)@.windows.map_values(
                    |w: WindowView| spec_rename_window(w, id, new_name@),
                ),
                ..old(self)@
            }),
            r is Err ==> final(self)@ == old(self)@,
            r == Err::<(), BoardError>(BoardError::EmptyName) <==> new_name@.len() == 0,
            r == Err::<(), BoardError>(BoardError::DuplicateName) <==> new_name@.len() != 0
                && other_window_named(old(self)@.windows, id, new_name@),
            old(self)@.wf() ==> final(self)@.wf(),
    {
        if new_name.as_str().is_empty() {
            return Err(BoardError::EmptyName);
        }
        let n = self.list_windows.len();
        for i in 0..n
            invariant
                n == self@.windows.len(),
                self@ == old(self)@,
                new_name@.len() != 0,
                forall|j: int|
                    0 <= j < i ==> !(#[trigger] self@.windows[j].id != id
                        && self@.windows[j].list.name == new_name@),
        {
            proof {
                assert(self@.windows[i as int] == self.list_windows@[i as int]@);
            }
            let candidate = self.list_windows[i].list_name();
            if self.list_windows[i].id() != id && candidate == new_name {
                proof {
                    assert(self@.windows[i as int].id != id && self@.windows[i as int].list.name
                        == new_name@);
                    assert(other_window_named(old(self)@.windows, id, new_name@));
                }
                return Err(BoardError::DuplicateName);
            }
        }
        let ghost all = old(self)@.windows;
        for i in 0..n
            invariant
                n == all.len(),
                n == self@.windows.len(),
                n == self.list_windows@.len(),
                self@.topbar == old(self)@.topbar,
                self@.next_id == old(self)@.next_id,
                forall|j: int|
                    0 <= j < i ==> #[trigger] self@.windows[j] == spec_rename_window(
                        all[j],
                        id,
                        new_name@,
                    ),
                forall|j: int| i <= j < n ==> #[trigger] self@.windows[j] == all[j],
        {
            proof {
                assert(self@.windows[i as int] == self.list_windows@[i as int]@);
            }
            if self.list_windows[i].id() == id {
                let ghost before = self.list_windows@;
                let mut w = self.list_windows[i].clone();
                w.set_name(new_name.clone());
                let ghost wv = w@;
                self.list_windows.set(i, w);
                proof {
                    assert(wv == spec_rename_window(all[i as int], id, new_name@));
                    assert forall|j: int| 0 <= j < n implies #[trigger] self@.windows[j] == (
                    if 0 <= j <= i {
                        spec_rename_window(all[j], id, new_name@)
                    } else {
                        all[j]
                    }) by {
                        assert(self@.windows[j] == self.list_windows@[j]@);
                        if j == i {
                            assert(self.list_windows@[j]@ == wv);
                        } else {
                            assert(self.list_windows@[j] == before[j]);
                            assert(window_views(before)[j] == before[j]@);
                        }
                    }
                }
            } else {
                proof {
                    assert(self@.windows[i as int] == all[i as int]);
                    assert(self@.windows[i as int] == spec_rename_window(
                        all[i as int],
                        id,
                        new_name@,
                    ));
                }
            }
        }
        proof {
            assert(self@.windows =~= all.map_values(
                |w: WindowView| spec_rename_window(w, id, new_name@),
            ));
            if old(self)@.wf() {
                assert forall|j: int| 0 <= j < n implies (#[trigger] self@.windows[j]).wf() by {
                    assert(all[j].wf());
                }
            }
        }
        Ok(())
    }

    /// Applies one frame of the top bar: the add-list box outcome is stored,
    /// and when it says to add a list, the board adds it under its naming
    /// policy.
    pub fn apply_topbar_entry(&mut self, contents: String, finished: bool) -> (r: Result<
        (),
        BoardError,
    >)
        requires
            old(self)@.next_id < u64::MAX,
        ensures
            r is Ok <==> !(finished && contents@.len() != 0 && window_named(
                old(self)@.windows,
                contents@,
            )),
            !(finished && contents@.len() != 0) ==> final(self)@ == (BoardView {
                topbar: (TopBarView {
                    entry: (AddListResultView { is_add: false, text: contents@ }),
                    ..old(self)@.topbar
                }),
                ..old(self)@
            }),
            finished && contents@.len() != 0 && !window_named(old(self)@.windows, contents@)
                ==> final(self)@ == (BoardView {
                topbar: (TopBarView {
                    entry: (AddListResultView { is_add: false, text: Seq::empty() }),
                    ..old(self)@.topbar
                }),
                windows: old(self)@.windows.push(spec_new_window(contents@, old(self)@.next_id)),
                next_id: (old(self)@.next_id + 1) as u64,
            }),
            finished && contents@.len() != 0 && window_named(old(self)@.windows, contents@)
                ==> r == Err::<(), BoardError>(BoardError::DuplicateName) && final(self)@ == (
            BoardView {
                topbar: (TopBarView {
                    entry: (AddListResultView { is_add: false, text: Seq::empty() }),
                    ..old(self)@.topbar
                }),
                ..old(self)@
            }),
            old(self)@.wf() ==> final(self)@.wf(),
    {
        let decision = list_entry_result(finished, contents);
        match self.topbar.apply_entry(decision) {
            Some(name) => self.add_list(name),
            None => Ok(()),
        }
    }
}

/// Filtering the windows keeps every window well-formed and keeps the
/// identifiers unique and below the bound.
proof fn lemma_window_filter_keeps_wf(
    windows: Seq<WindowView>,
    pred: spec_fn(WindowView) -> bool,
    bound: u64,
)
    requires
        forall|i: int| 0 <= i < windows.len() ==> (#[trigger] windows[i]).wf(),
        forall|i: int, j: int|
            0 <= i < j < windows.len() ==> #[trigger] windows[i].id != #[trigger] windows[j].id,
        forall|i: int| 0 <= i < windows.len() ==> #[trigger] windows[i].id < bound,
    ensures
        forall|i: int| 0 <= i < windows.filter(pred).len() ==> (#[trigger] windows.filter(
            pred,
        )[i]).wf(),
        forall|i: int, j: int|
            0 <= i < j < windows.filter(pred).len() ==> #[trigger] windows.filter(pred)[i].id
                != #[trigger] windows.filter(pred)[j].id,
        forall|i: int| 0 <= i < windows.filter(pred).len() ==> #[trigger] windows.filter(
            pred,
        )[i].id < bound,
    decreases windows.len(),
{
    reveal(Seq::filter);
    if windows.len() > 0 {
        let prefix = windows.drop_last();
        assert(forall|i: int| 0 <= i < prefix.len() ==> prefix[i] == windows[i]);
        lemma_window_filter_keeps_wf(prefix, pred, bound);
        if pred(windows.last()) {
            let out = prefix.filter(pred).push(windows.last());
            lemma_window_filter_elements_contained(prefix, pred);
            assert forall|i: int, j: int|
                0 <= i < j < out.len() implies #[trigger] out[i].id != #[trigger] out[j].id by {
                if j == out.len() - 1 {
                    let k = choose|k: int| 0 <= k < prefix.len() && prefix[k] == out[i];
                    assert(windows[k] == out[i]);
                    assert(windows[k].id != windows[windows.len() - 1].id);
                }
            }
        }
    }
}

/// Every element of a filtered window sequence occurs in the original.
proof fn lemma_window_filter_elements_contained(
    windows: Seq<WindowView>,
    pred: spec_fn(WindowView) -> bool,
)
    ensures
        forall|k: int|
            0 <= k < windows.filter(pred).len() ==> windows.contains(
                #[trigger] windows.filter(pred)[k],
            ),
    decreases windows.len(),
{
    reveal(Seq::filter);
    if windows.len() > 0 {
        let prefix = windows.drop_last();
        lemma_window_filter_elements_contained(prefix, pred);
        assert forall|k: int|
            0 <= k < windows.filter(pred).len() implies windows.contains(
            #[trigger] windows.filter(pred)[k],
        ) by {
            if k < prefix.filter(pred).len() {
                assert(prefix.filter(pred)[k] == windows.filter(pred)[k]);
                let i = choose|i: int| 0 <= i < prefix.len() && prefix[i] == prefix.filter(pred)[k];
                assert(windows[i] == windows.filter(pred)[k]);
            } else {
                assert(windows[windows.len() - 1] == windows.filter(pred)[k]);
            }
        }
    }
}

} // verus!
