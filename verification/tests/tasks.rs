//! Tests for tasks and lists: validation, progress, and the list-editing
//! operations.

use rusty_taskboard::List;
use rusty_taskboard::Task;
use rusty_taskboard::TaskErrors;
use rusty_taskboard::TaskStatus;

#[test]
fn builder_works() {
    let task = Task::builder().title("Testing".to_string()).build().unwrap();
    assert_eq!(task.completed(), false);
    assert_eq!(task.description(), String::new());
}

#[test]
fn filter_tasks_works() {
    let tasks_vec = vec![
        Task::new(
            String::from("A basic task"),
            TaskStatus::Completed,
            String::from("Main"),
        )
        .unwrap(),
        Task::new(
            String::from("Another basic task"),
            TaskStatus::Completed,
            String::from("Main"),
        )
        .unwrap(),
        Task::new(
            String::from("A basic task"),
            TaskStatus::Completed,
            String::from("Other"),
        )
        .unwrap(),
        Task::new(
            String::from("A basic task"),
            TaskStatus::Completed,
            String::from("Another"),
        )
        .unwrap(),
    ];

    let filtered_vecs = rusty_taskboard::filter_task_vec(tasks_vec, "Main");

    assert_eq!(
        filtered_vecs.0,
        vec![
            Task::new(
                String::from("A basic task"),
                TaskStatus::Completed,
                String::from("Main"),
            )
            .unwrap(),
            Task::new(
                String::from("Another basic task"),
                TaskStatus::Completed,
                String::from("Main"),
            )
            .unwrap(),
        ]
    );

    assert_eq!(
        filtered_vecs.1,
        vec![
            Task::new(
                String::from("A basic task"),
                TaskStatus::Completed,
                String::from("Other"),
            )
            .unwrap(),
            Task::new(
                String::from("A basic task"),
                TaskStatus::Completed,
                String::from("Another"),
            )
            .unwrap(),
        ]
    );
}

#[test]
fn create_keeps_any_nonempty_description() {
    for s in ["x", "Buy milk", "  ", "a longer description with spaces"] {
        let task = Task::create(s.to_string()).unwrap();
        assert_eq!(task.description(), s.to_string());
        assert_eq!(task.completed(), false);
    }
}

#[test]
fn create_rejects_empty_description() {
    assert_eq!(
        Task::create(String::new()).unwrap_err(),
        TaskErrors::EmptyDescription
    );
}

#[test]
fn update_description_rejects_empty_and_changes_nothing() {
    let mut task = Task::create("Original".to_string()).unwrap();
    task.set_title("Title".to_string());
    let err = task.update_description(String::new()).unwrap_err();
    assert_eq!(err, TaskErrors::EmptyDescription);
    assert_eq!(task.description(), "Original".to_string());
    assert_eq!(task.title(), "Title".to_string());
    assert_eq!(task.completed(), false);

    task.update_description("Replaced".to_string()).unwrap();
    assert_eq!(task.description(), "Replaced".to_string());
}

#[test]
fn builder_without_title_fails() {
    assert_eq!(
        Task::builder().description("text".to_string()).build().unwrap_err(),
        TaskErrors::EmptyDescription
    );
}

#[test]
fn set_completed_twice_is_idempotent() {
    let mut task = Task::create("One".to_string()).unwrap();
    task.set_completed(true);
    let description = task.description();
    let title = task.title();
    let id = task.id();
    task.set_completed(true);
    assert_eq!(task.completed(), true);
    assert_eq!(task.description(), description);
    assert_eq!(task.title(), title);
    assert_eq!(task.id(), id);
}

fn task(description: &str, done: bool) -> Task {
    let mut t = Task::create(description.to_string()).unwrap();
    t.set_completed(done);
    t
}

#[test]
fn progress_of_half_done_list_is_fifty_hundredths() {
    let list = List::new(
        "Main".to_string(),
        vec![task("A", true), task("B", false)],
    );
    let progress = list.progress();
    assert_eq!(progress.completed, 1);
    assert_eq!(progress.total, 2);
    assert_eq!(progress.hundredths(), 50);
}

#[test]
fn progress_stays_in_unit_range() {
    let mut tasks = Vec::new();
    for i in 0..7 {
        tasks.push(task("t", i % 3 == 0));
    }
    let list = List::new("Main".to_string(), tasks);
    let progress = list.progress();
    assert!(progress.completed <= progress.total);
    let hundredths = progress.hundredths();
    assert!(hundredths <= 100);
}

#[test]
fn progress_of_empty_list_is_zero() {
    let list = List::new("Main".to_string(), Vec::new());
    let progress = list.progress();
    assert_eq!(progress.completed, 0);
    assert_eq!(progress.total, 0);
    assert_eq!(progress.hundredths(), 0);
}

#[test]
fn delete_completed_removes_exactly_the_done_tasks() {
    let mut list = List::new(
        "Main".to_string(),
        vec![task("A", true), task("B", false), task("C", true)],
    );
    list.delete_completed();
    assert_eq!(list.len(), 1);
    assert_eq!(list.tasks()[0].description(), "B".to_string());
    assert_eq!(list.tasks()[0].completed(), false);
}

#[test]
fn delete_completed_twice_equals_once() {
    let mut once = List::new(
        "Main".to_string(),
        vec![task("A", true), task("B", false), task("C", true), task("D", false)],
    );
    once.delete_completed();
    let mut twice = List::new(
        "Main".to_string(),
        vec![task("A", true), task("B", false), task("C", true), task("D", false)],
    );
    twice.delete_completed();
    twice.delete_completed();
    assert_eq!(once.tasks(), twice.tasks());
}

#[test]
fn delete_removes_only_the_selected_identical_task() {
    let mut list = List::new(
        "Main".to_string(),
        vec![task("Same", false), task("Same", false)],
    );
    let first_id = list.tasks()[0].id();
    let second_id = list.tasks()[1].id();
    assert_ne!(first_id, second_id);

    let removed = list.delete_task(second_id);
    assert!(removed);
    assert_eq!(list.len(), 1);
    assert_eq!(list.tasks()[0].id(), first_id);
    assert_eq!(list.tasks()[0].description(), "Same".to_string());
}

#[test]
fn delete_task_reports_missing_identifier() {
    let mut list = List::new("Main".to_string(), vec![task("A", false)]);
    assert!(!list.delete_task(999));
    assert_eq!(list.len(), 1);
}

#[test]
fn add_gives_fresh_identifiers_after_deletes() {
    let mut list = List::new(
        "Main".to_string(),
        vec![task("A", false), task("B", false)],
    );
    let b_id = list.tasks()[1].id();
    assert!(list.delete_task(list.tasks()[0].id()));
    list.add(task("C", false));
    let c_id = list.tasks()[1].id();
    assert_ne!(b_id, c_id);
    assert_eq!(list.tasks()[0].id(), b_id);
}

#[test]
fn sort_completed_first_is_a_stable_partition() {
    let mut list = List::new(
        "Main".to_string(),
        vec![task("A", false), task("B", true), task("C", false), task("D", true)],
    );
    list.sort_completed_first();
    let descriptions: Vec<String> =
        list.tasks().iter().map(|t| t.description()).collect();
    assert_eq!(
        descriptions,
        vec!["B".to_string(), "D".to_string(), "A".to_string(), "C".to_string()]
    );
    let completed: Vec<bool> = list.tasks().iter().map(|t| t.completed()).collect();
    assert_eq!(completed, vec![true, true, false, false]);
}

#[test]
fn commit_edit_primes_and_commits_the_buffer() {
    let mut t = task("Old", false);
    t.commit_edit();
    assert_eq!(t.new_description(), "Old".to_string());
    t.set_new_description("New".to_string());
    t.commit_edit();
    assert_eq!(t.description(), "New".to_string());
}
