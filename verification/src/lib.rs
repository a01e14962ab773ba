//! Domain model of a to-do task board: tasks with validated descriptions,
//! named lists that track completion progress, presentation windows around
//! each list, and a board that owns the windows and applies user
//! interactions one frame at a time.

use vstd::prelude::*;

pub mod board;
pub mod list;
pub mod task;
pub mod window;

pub use board::AddListResult;
pub use board::Board;
pub use board::BoardError;
pub use board::TopBar;
pub use list::List;
pub use list::ListView;
pub use list::Progress;
pub use task::Task;
pub use task::TaskBuilder;
pub use task::TaskErrors;
pub use task::TaskStatus;
pub use window::ListWindow;
pub use window::ListWindowBuilder;

verus! {

/// Consumes the given vec and returns two vecs of tasks, with the first one
/// containing all the tasks tagged with the current list, and the second
/// containing the rest of the tasks.
pub fn filter_task_vec(task_vec: Vec<Task>, current_list: &str) -> (r: (Vec<Task>, Vec<Task>))
    ensures
        r.0@.map_values(|t: Task| t@) == task_vec@.map_values(|t: Task| t@).filter(
            |t: task::TaskView| t.list == current_list@,
        ),
        r.1@.map_values(|t: Task| t@) == task_vec@.map_values(|t: Task| t@).filter(
            |t: task::TaskView| t.list != current_list@,
        ),
{
    let mut tagged_tasks: Vec<Task> = Vec::new();
    let mut other_tasks: Vec<Task> = Vec::new();

    let current: String = current_list.to_owned();
    let n = task_vec.len();
    let mut task_vec = task_vec;
    let ghost all: Seq<task::TaskView> = task_vec@.map_values(|t: Task| t@);

    for i in 0..n
        invariant
            task_vec@.len() == n,
            all == task_vec@.map_values(|t: Task| t@),
            current@ == current_list@,
            tagged_tasks@.map_values(|t: Task| t@) == all.subrange(0, i as int).filter(
                |t: task::TaskView| t.list == current_list@,
            ),
            other_tasks@.map_values(|t: Task| t@) == all.subrange(0, i as int).filter(
                |t: task::TaskView| t.list != current_list@,
            ),
    {
        let task = task_vec[i].clone();
        proof {
            assert(all.subrange(0, i + 1 as int).drop_last() =~= all.subrange(0, i as int));
            reveal(Seq::filter);
        }
        if task.list() == current {
            tagged_tasks.push(task);
        } else {
            other_tasks.push(task);
        }
        proof {
            assert(tagged_tasks@.map_values(|t: Task| t@) =~= all.subrange(0, i + 1 as int).filter(
                |t: task::TaskView| t.list == current_list@,
            ));
            assert(other_tasks@.map_values(|t: Task| t@) =~= all.subrange(0, i + 1 as int).filter(
                |t: task::TaskView| t.list != current_list@,
            ));
        }
    }
    proof {
        assert(all.subrange(0, n as int) =~= all);
    }
    (tagged_tasks, other_tasks)
}

} // verus!
