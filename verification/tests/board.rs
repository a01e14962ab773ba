//! Tests for the board, the top bar and the list windows: the naming
//! policy, window removal, the add boxes, and the progress animation.

use rusty_taskboard::AddListResult;
use rusty_taskboard::Board;
use rusty_taskboard::BoardError;
use rusty_taskboard::List;
use rusty_taskboard::ListWindow;
use rusty_taskboard::Task;
use rusty_taskboard::TaskErrors;

fn task(description: &str, done: bool) -> Task {
    let mut t = Task::create(description.to_string()).unwrap();
    t.set_completed(done);
    t
}

#[test]
fn adding_a_duplicate_list_name_is_rejected() {
    let mut board = Board::new();
    board.add_list("Main".to_string()).unwrap();
    assert_eq!(
        board.add_list("Main".to_string()).unwrap_err(),
        BoardError::DuplicateName
    );
    assert_eq!(board.window_count(), 1);
}

#[test]
fn adding_an_empty_list_name_is_rejected() {
    let mut board = Board::new();
    assert_eq!(
        board.add_list(String::new()).unwrap_err(),
        BoardError::EmptyName
    );
    assert_eq!(board.window_count(), 0);
}

#[test]
fn renaming_applies_the_same_policy_as_adding() {
    let mut board = Board::new();
    board.add_list("Main".to_string()).unwrap();
    board.add_list("Other".to_string()).unwrap();
    let other_id = board.window(1).id();

    assert_eq!(
        board.rename_list(other_id, "Main".to_string()).unwrap_err(),
        BoardError::DuplicateName
    );
    assert_eq!(board.window(1).list_name(), "Other".to_string());

    assert_eq!(
        board.rename_list(other_id, String::new()).unwrap_err(),
        BoardError::EmptyName
    );

    board.rename_list(other_id, "Renamed".to_string()).unwrap();
    assert_eq!(board.window(1).list_name(), "Renamed".to_string());

    // Renaming a window to its own current name is allowed.
    board.rename_list(other_id, "Renamed".to_string()).unwrap();
}

#[test]
fn remove_list_uses_the_stable_identifier() {
    let mut board = Board::new();
    board.add_list("First".to_string()).unwrap();
    board.add_list("Second".to_string()).unwrap();
    let first_id = board.window(0).id();
    board.remove_list(first_id);
    assert_eq!(board.window_count(), 1);
    assert_eq!(board.window(0).list_name(), "Second".to_string());
}

#[test]
fn remove_requested_removes_exactly_the_marked_windows() {
    let mut board = Board::new();
    board.add_list("Keep".to_string()).unwrap();
    board.add_list("Drop".to_string()).unwrap();
    let mut w = board.take_window(1);
    w.request_delete();
    board.put_window(1, w);
    board.remove_requested();
    assert_eq!(board.window_count(), 1);
    assert_eq!(board.window(0).list_name(), "Keep".to_string());
}

#[test]
fn topbar_entry_adds_a_list_only_when_typing_finished() {
    let mut board = Board::new();
    board.apply_topbar_entry("Ma".to_string(), false).unwrap();
    assert_eq!(board.window_count(), 0);
    assert_eq!(board.topbar().entry_text(), "Ma".to_string());

    board.apply_topbar_entry("Main".to_string(), true).unwrap();
    assert_eq!(board.window_count(), 1);
    assert_eq!(board.window(0).list_name(), "Main".to_string());
    assert_eq!(board.topbar().entry_text(), String::new());

    assert_eq!(
        board.apply_topbar_entry("Main".to_string(), true).unwrap_err(),
        BoardError::DuplicateName
    );
    assert_eq!(board.window_count(), 1);
}

#[test]
fn topbar_settings_toggle_flips() {
    let mut board = Board::new();
    assert!(!board.topbar().show_settings());
    board.toggle_show_settings();
    assert!(board.topbar().show_settings());
    board.toggle_show_settings();
    assert!(!board.topbar().show_settings());
}

#[test]
fn add_list_result_unwrap_returns_the_text() {
    assert_eq!(
        AddListResult::AddList("Main".to_string()).unwrap(),
        "Main".to_string()
    );
    assert_eq!(
        AddListResult::ContinueTyping("Ma".to_string()).unwrap(),
        "Ma".to_string()
    );
}

#[test]
fn default_board_holds_the_sample_lists() {
    let board = Board::default();
    assert_eq!(board.window_count(), 2);
    let first = board.window(0);
    assert_eq!(first.list_name(), "Tasklist".to_string());
    let tasks = first.task_vec_clone();
    assert_eq!(tasks.len(), 3);
    assert_eq!(tasks[0].title(), "Task One".to_string());
    assert_eq!(tasks[0].description(), "This is the first task".to_string());
    assert!(!tasks[0].completed());
    assert_eq!(tasks[1].title(), "Task Two".to_string());
    assert!(!tasks[1].completed());
    assert_eq!(tasks[2].title(), "Task Three".to_string());
    assert!(tasks[2].completed());
    let second = board.window(1);
    assert_eq!(second.list_name(), "Second List".to_string());
    assert_eq!(second.task_vec_clone().len(), 0);
    assert!(!board.topbar().show_settings());
}

#[test]
fn window_task_entry_adds_only_finished_nonempty_text() {
    let list = List::new("Main".to_string(), Vec::new());
    let mut window = ListWindow::new(list);

    window.apply_task_entry("Buy mil".to_string(), false);
    assert_eq!(window.list().len(), 0);

    window.apply_task_entry(String::new(), true);
    assert_eq!(window.list().len(), 0);

    window.apply_task_entry("Buy milk".to_string(), true);
    assert_eq!(window.list().len(), 1);
    assert_eq!(window.list().tasks()[0].description(), "Buy milk".to_string());
}

#[test]
fn window_rename_entry_keeps_text_and_renames_when_finished() {
    let list = List::new("Main".to_string(), Vec::new());
    let mut window = ListWindow::new(list);
    window.apply_rename_entry("Re".to_string(), false);
    assert_eq!(window.list_name(), "Main".to_string());
    window.apply_rename_entry("Renamed".to_string(), true);
    assert_eq!(window.list_name(), "Renamed".to_string());
    window.apply_rename_entry(String::new(), true);
    assert_eq!(window.list_name(), "Renamed".to_string());
}

#[test]
fn window_rename_rejects_empty_name() {
    let list = List::new("Main".to_string(), Vec::new());
    let mut window = ListWindow::new(list);
    assert_eq!(
        window.rename(String::new()).unwrap_err(),
        TaskErrors::EmptyDescription
    );
    assert_eq!(window.list_name(), "Main".to_string());
    window.rename("Renamed".to_string()).unwrap();
    assert_eq!(window.list_name(), "Renamed".to_string());
}

#[test]
fn tick_animates_one_hundredth_per_frame_toward_the_target() {
    let list = List::new(
        "Main".to_string(),
        vec![task("A", true), task("B", false)],
    );
    let mut window = ListWindow::new(list);
    assert_eq!(window.displayed_progress(), 0);

    // The target is 50 hundredths; each tick moves one step and asks for
    // another frame.
    assert!(window.tick());
    assert_eq!(window.displayed_progress(), 1);
    for _ in 0..49 {
        window.tick();
    }
    assert_eq!(window.displayed_progress(), 50);
    assert!(!window.tick());
    assert_eq!(window.displayed_progress(), 50);

    // Deleting the completed task drops the target to 0: the animation
    // walks back down.
    window.delete_completed();
    assert!(window.tick());
    assert_eq!(window.displayed_progress(), 49);
}

#[test]
fn window_modes_and_delete_request() {
    let list = List::new("Main".to_string(), Vec::new());
    let mut window = ListWindow::new(list);
    assert!(!window.edit_mode());
    window.toggle_edit_mode();
    assert!(window.edit_mode());
    assert!(!window.delete_mode());
    window.toggle_delete_mode();
    assert!(window.delete_mode());
    assert!(window.show());
    window.set_show(false);
    assert!(!window.show());
    assert!(!window.delete_requested());
    window.request_delete();
    assert!(window.delete_requested());
}

#[test]
fn window_builder_requires_a_name() {
    assert_eq!(
        ListWindow::builder().build().err(),
        Some(TaskErrors::EmptyDescription)
    );
    let list = List::new(String::new(), vec![task("A", false)]);
    let window = ListWindow::builder()
        .name("Tasklist".to_string())
        .list(list)
        .id(7)
        .build()
        .unwrap();
    assert_eq!(window.list_name(), "Tasklist".to_string());
    assert_eq!(window.id(), 7);
    assert!(window.show());
    assert_eq!(window.list().len(), 1);
}

#[test]
fn window_per_task_edits_work_by_position() {
    let list = List::new(
        "Main".to_string(),
        vec![task("A", false), task("B", false)],
    );
    let mut window = ListWindow::new(list);
    window.set_task_completed(1, true);
    assert!(!window.list().tasks()[0].completed());
    assert!(window.list().tasks()[1].completed());

    window.set_task_new_description(0, "A2".to_string());
    window.commit_task_edit(0);
    assert_eq!(window.list().tasks()[0].description(), "A2".to_string());

    let id0 = window.list().tasks()[0].id();
    assert!(window.delete_task(id0));
    assert_eq!(window.list().len(), 1);
    assert_eq!(window.list().tasks()[0].description(), "B".to_string());
}
