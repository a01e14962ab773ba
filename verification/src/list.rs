//! Lists: a named, ordered collection of tasks. The list assigns every task
//! a stable identifier when it enters, so that deleting one of two otherwise
//! identical tasks is unambiguous, and it reports its completion progress as
//! an exact pair of counts.

use vstd::prelude::*;

use crate::task::Task;
use crate::task::TaskView;

verus! {

/// The views of a sequence of tasks.
pub open spec fn views_of(tasks: Seq<Task>) -> Seq<TaskView> {
    tasks.map_values(|t: Task| t@)
}

/// No two tasks of the sequence share an identifier.
pub open spec fn unique_ids(tasks: Seq<TaskView>) -> bool {
    forall|i: int, j: int|
        0 <= i < j < tasks.len() ==> #[trigger] tasks[i].id != #[trigger] tasks[j].id
}

/// Every identifier of the sequence lies below the bound.
pub open spec fn ids_below(tasks: Seq<TaskView>, bound: u64) -> bool {
    forall|i: int| 0 <= i < tasks.len() ==> #[trigger] tasks[i].id < bound
}

/// How many tasks of the sequence are completed.
pub open spec fn completed_count(tasks: Seq<TaskView>) -> int
    decreases tasks.len(),
{
    if tasks.len() == 0 {
        0
    } else {
        completed_count(tasks.drop_last()) + if tasks.last().completed {
            1int
        } else {
            0int
        }
    }
}

/// The tasks of the sequence that are not completed, in order.
pub open spec fn without_completed(tasks: Seq<TaskView>) -> Seq<TaskView> {
    tasks.filter(|t: TaskView| !t.completed)
}

/// The tasks of the sequence that are completed, in order.
pub open spec fn only_completed(tasks: Seq<TaskView>) -> Seq<TaskView> {
    tasks.filter(|t: TaskView| t.completed)
}

/// Whether some task of the sequence carries the identifier.
pub open spec fn has_task_with_id(tasks: Seq<TaskView>, id: u64) -> bool {
    exists|i: int| 0 <= i < tasks.len() && #[trigger] tasks[i].id == id
}

/// What deleting by identifier does to a task sequence: the first task
/// carrying the identifier is removed, the rest keep their order.
pub open spec fn delete_task_post(before: Seq<TaskView>, after: Seq<TaskView>, id: u64) -> bool {
    exists|i: int|
        {
            &&& 0 <= i < before.len()
            &&& #[trigger] before[i].id == id
            &&& (forall|j: int| 0 <= j < i ==> before[j].id != id)
            &&& after == before.remove(i)
        }
}

/// The completed count never leaves `0 ..= len`.
pub proof fn lemma_completed_count_bounds(tasks: Seq<TaskView>)
    ensures
        0 <= completed_count(tasks) <= tasks.len(),
    decreases tasks.len(),
{
    if tasks.len() > 0 {
        lemma_completed_count_bounds(tasks.drop_last());
    }
}

/// Every element of a filtered sequence occurs in the original.
proof fn lemma_filter_elements_contained(tasks: Seq<TaskView>, pred: spec_fn(TaskView) -> bool)
    ensures
        forall|k: int|
            0 <= k < tasks.filter(pred).len() ==> tasks.contains(#[trigger] tasks.filter(pred)[k]),
    decreases tasks.len(),
{
    reveal(Seq::filter);
    if tasks.len() > 0 {
        let prefix = tasks.drop_last();
        lemma_filter_elements_contained(prefix, pred);
        assert forall|k: int|
            0 <= k < tasks.filter(pred).len() implies tasks.contains(
            #[trigger] tasks.filter(pred)[k],
        ) by {
            if k < prefix.filter(pred).len() {
                assert(prefix.filter(pred)[k] == tasks.filter(pred)[k]);
                let i = choose|i: int| 0 <= i < prefix.len() && prefix[i] == prefix.filter(pred)[k];
                assert(tasks[i] == tasks.filter(pred)[k]);
            } else {
                assert(tasks[tasks.len() - 1] == tasks.filter(pred)[k]);
            }
        }
    }
}

/// Filtering keeps identifiers unique and below any bound they were below.
proof fn lemma_filter_keeps_wf(tasks: Seq<TaskView>, pred: spec_fn(TaskView) -> bool, bound: u64)
    requires
        unique_ids(tasks),
        ids_below(tasks, bound),
    ensures
        unique_ids(tasks.filter(pred)),
        ids_below(tasks.filter(pred), bound),
    decreases tasks.len(),
{
    reveal(Seq::filter);
    if tasks.len() > 0 {
        let prefix = tasks.drop_last();
        assert(unique_ids(prefix) && ids_below(prefix, bound)) by {
            assert(forall|i: int| 0 <= i < prefix.len() ==> prefix[i] == tasks[i]);
        }
        lemma_filter_keeps_wf(prefix, pred, bound);
        if pred(tasks.last()) {
            let out = prefix.filter(pred).push(tasks.last());
            lemma_filter_elements_contained(prefix, pred);
            assert forall|i: int, j: int|
                0 <= i < j < out.len() implies #[trigger] out[i].id != #[trigger] out[j].id by {
                if j == out.len() - 1 {
                    let k = choose|k: int| 0 <= k < prefix.len() && prefix[k] == out[i];
                    assert(tasks[k] == out[i]);
                    assert(tasks[k].id != tasks[tasks.len() - 1].id);
                }
            }
        }
    }
}

/// Filtering a sequence whose elements all satisfy the predicate returns it
/// unchanged.
proof fn lemma_filter_of_satisfying(tasks: Seq<TaskView>, pred: spec_fn(TaskView) -> bool)
    requires
        forall|i: int| 0 <= i < tasks.len() ==> pred(#[trigger] tasks[i]),
    ensures
        tasks.filter(pred) == tasks,
    decreases tasks.len(),
{
    reveal(Seq::filter);
    if tasks.len() > 0 {
        let prefix = tasks.drop_last();
        assert(forall|i: int| 0 <= i < prefix.len() ==> prefix[i] == tasks[i]);
        lemma_filter_of_satisfying(prefix, pred);
        assert(tasks.filter(pred) =~= tasks);
    } else {
        assert(tasks.filter(pred) =~= tasks);
    }
}

/// Deleting the completed tasks is idempotent: a second pass removes
/// nothing, because the first pass left only open tasks behind.
pub proof fn lemma_delete_completed_idempotent(tasks: Seq<TaskView>)
    ensures
        without_completed(without_completed(tasks)) == without_completed(tasks),
{
    let pred = |t: TaskView| !t.completed;
    assert forall|i: int| 0 <= i < tasks.filter(pred).len() implies pred(
        #[trigger] tasks.filter(pred)[i],
    ) by {
        tasks.lemma_filter_pred(pred, i);
    }
    lemma_filter_of_satisfying(tasks.filter(pred), pred);
}

/// With unique identifiers, the task at the selected position is the only
/// match for its identifier: deleting by that identifier removes exactly
/// the selected task, even beside structurally identical ones.
pub proof fn lemma_delete_removes_only_selected(tasks: Seq<TaskView>, after: Seq<TaskView>, k: int)
    requires
        unique_ids(tasks),
        0 <= k < tasks.len(),
        delete_task_post(tasks, after, tasks[k].id),
    ensures
        after == tasks.remove(k),
{
    let id = tasks[k].id;
    let i = choose|i: int|
        {
            &&& 0 <= i < tasks.len()
            &&& #[trigger] tasks[i].id == id
            &&& (forall|j: int| 0 <= j < i ==> tasks[j].id != id)
            &&& after == tasks.remove(i)
        };
    assert(i == k);
}

/// The mathematical value of a [`List`].
pub ghost struct ListView {
    /// The list's name.
    pub name: Seq<char>,
    /// The list's tasks, in display order.
    pub tasks: Seq<TaskView>,
    /// The identifier the next added task will get; every present task's
    /// identifier lies below it.
    pub next_id: u64,
}

impl ListView {
    /// Well-formedness: task identifiers are unique and below `next_id`.
    pub open spec fn wf(self) -> bool {
        unique_ids(self.tasks) && ids_below(self.tasks, self.next_id)
    }
}

/// A named, ordered collection of tasks.
pub struct List {
    name: String,
    tasks: Vec<Task>,
    next_id: u64,
}

impl Clone for List {
    fn clone(&self) -> (r: Self)
        ensures
            r@ == self@,
    {
        let n = self.tasks.len();
        let mut tasks: Vec<Task> = Vec::new();
        for i in 0..n
            invariant
                n == self.tasks@.len(),
                tasks@.len() == i,
                forall|j: int| 0 <= j < i ==> #[trigger] tasks@[j]@ == self.tasks@[j]@,
        {
            tasks.push(self.tasks[i].clone());
        }
        proof {
            assert(views_of(tasks@) =~= views_of(self.tasks@));
        }
        List { name: self.name.clone(), tasks, next_id: self.next_id }
    }
}

impl View for List {
    type V = ListView;

    closed spec fn view(&self) -> ListView {
        ListView { name: self.name@, tasks: views_of(self.tasks@), next_id: self.next_id }
    }
}

/// The exact completion progress of a list: how many of its tasks are done.
/// The fraction it stands for is `completed / total`, read as zero when the
/// list is empty.
pub struct Progress {
    /// How many tasks are completed.
    pub completed: usize,
    /// How many tasks the list holds in all.
    pub total: usize,
}

/// The whole-percent floor of the fraction `completed / total`, in
/// hundredths; zero when there is nothing to count.
pub open spec fn spec_hundredths(completed: int, total: int) -> int {
    if total == 0 {
        0
    } else {
        completed * 100 / total
    }
}

impl Progress {
    /// Validity: no more tasks are completed than exist.
    pub open spec fn wf(self) -> bool {
        self.completed <= self.total
    }

    /// The progress as a whole number of hundredths (percent), between 0
    /// and 100.
    pub fn hundredths(&self) -> (r: usize)
        requires
            self.wf(),
        ensures
            r == spec_hundredths(self.completed as int, self.total as int),
            0 <= r <= 100,
    {
        if self.total == 0 {
            0
        } else {
            let c: u128 = self.completed as u128;
            let t: u128 = self.total as u128;
            proof {
                assert((c * 100) as int == self.completed * 100);
                vstd::arithmetic::div_mod::lemma_div_is_ordered(
                    self.completed * 100,
                    self.total * 100,
                    self.total as int,
                );
                vstd::arithmetic::div_mod::lemma_div_multiples_vanish(100, self.total as int);
                vstd::arithmetic::div_mod::lemma_div_pos_is_pos(
                    self.completed * 100,
                    self.total as int,
                );
            }
            ((c * 100) / t) as usize
        }
    }
}

/// The fraction a list's progress stands for never leaves the unit
/// interval: with at least one task, `0 <= completed <= total` and the
/// percentage lies between 0 and 100; with no tasks it is exactly 0.
pub proof fn lemma_progress_in_unit_range(tasks: Seq<TaskView>)
    ensures
        0 <= completed_count(tasks) <= tasks.len(),
        0 <= spec_hundredths(completed_count(tasks), tasks.len() as int) <= 100,
        tasks.len() == 0 ==> spec_hundredths(completed_count(tasks), tasks.len() as int) == 0,
{
    lemma_completed_count_bounds(tasks);
    if tasks.len() > 0 {
        vstd::arithmetic::div_mod::lemma_div_is_ordered(
            completed_count(tasks) * 100,
            (tasks.len() as int) * 100,
            tasks.len() as int,
        );
        vstd::arithmetic::div_mod::lemma_div_multiples_vanish(100, tasks.len() as int);
        vstd::arithmetic::div_mod::lemma_div_pos_is_pos(
            completed_count(tasks) * 100,
            tasks.len() as int,
        );
    }
}

impl List {
    /// Creates a list with the given name holding the given tasks, which
    /// are renumbered with fresh identifiers `0, 1, ...` in order.
    pub fn new(name: String, tasks: Vec<Task>) -> (r: List)
        ensures
            r@.name == name@,
            r@.tasks.len() == tasks@.len(),
            forall|i: int|
                0 <= i < tasks@.len() ==> r@.tasks[i] == (TaskView {
                    id: i as u64,
                    ..tasks@[i]@
                }),
            r@.next_id == tasks@.len(),
            r@.wf(),
    {
        let n = tasks.len();
        let mut renumbered: Vec<Task> = Vec::new();
        for i in 0..n
            invariant
                n == tasks@.len(),
                renumbered@.len() == i,
                forall|j: int|
                    0 <= j < i ==> #[trigger] renumbered@[j]@ == (TaskView {
                        id: j as u64,
                        ..tasks@[j]@
                    }),
        {
            let mut t = tasks[i].clone();
            t.set_id(i as u64);
            renumbered.push(t);
        }
        proof {
            assert forall|j: int|
                0 <= j < tasks@.len() implies views_of(renumbered@)[j] == (TaskView {
                id: j as u64,
                ..tasks@[j]@
            }) by {
                assert(views_of(renumbered@)[j] == renumbered@[j]@);
            }
        }
        List { name, tasks: renumbered, next_id: n as u64 }
    }

    /// A clone of the list's name.
    pub fn name(&self) -> (r: String)
        ensures
            r@ == self@.name,
    {
        self.name.clone()
    }

    /// Renames the list; no validation here, the board and window
    /// operations validate before they call this.
    pub fn set_name(&mut self, name: String)
        ensures
            final(self)@ == (ListView { name: name@, ..old(self)@ }),
    {
        self.name = name;
    }

    /// The list's tasks, in display order.
    pub fn tasks(&self) -> (r: &Vec<Task>)
        ensures
            views_of(r@) == self@.tasks,
    {
        &self.tasks
    }

    /// The identifier the next added task will get.
    pub fn next_id(&self) -> (r: u64)
        ensures
            r == self@.next_id,
    {
        self.next_id
    }

    /// How many tasks the list holds.
    pub fn len(&self) -> (r: usize)
        ensures
            r == self@.tasks.len(),
    {
        self.tasks.len()
    }

    /// Appends the task, giving it the next fresh identifier.
    pub fn add(&mut self, task: Task)
        requires
            old(self)@.next_id < u64::MAX,
        ensures
            final(self)@.name == old(self)@.name,
            final(self)@.tasks == old(self)@.tasks.push(
                (TaskView { id: old(self)@.next_id, ..task@ }),
            ),
            final(self)@.next_id == old(self)@.next_id + 1,
            old(self)@.wf() ==> final(self)@.wf(),
    {
        let mut t = task;
        t.set_id(self.next_id);
        self.tasks.push(t);
        self.next_id = self.next_id + 1;
        proof {
            assert(views_of(self.tasks@) =~= old(self)@.tasks.push(
                (TaskView { id: old(self)@.next_id, ..t@ }),
            ));
        }
    }

    /// The list's exact progress: the completed and total task counts.
    pub fn progress(&self) -> (p: Progress)
        ensures
            p.completed == completed_count(self@.tasks),
            p.total == self@.tasks.len(),
            p.wf(),
    {
        let ghost all = self@.tasks;
        let n = self.tasks.len();
        let mut completed: usize = 0;
        for i in 0..n
            invariant
                n == all.len(),
                all == views_of(self.tasks@),
                completed == completed_count(all.subrange(0, i as int)),
                completed <= i,
        {
            proof {
                assert(all.subrange(0, i + 1).drop_last() =~= all.subrange(0, i as int));
                assert(all.subrange(0, i + 1).last() == all[i as int]);
            }
            if self.tasks[i].completed() {
                completed = completed + 1;
            }
        }
        proof {
            assert(all.subrange(0, n as int) =~= all);
        }
        Progress { completed, total: n }
    }

    /// Removes the first task with the given identifier, if any; reports
    /// whether one was removed. Identifiers are unique in a well-formed
    /// list, so this removes exactly the selected task.
    pub fn delete_task(&mut self, id: u64) -> (r: bool)
        ensures
            r == has_task_with_id(old(self)@.tasks, id),
            !r ==> final(self)@ == old(self)@,
            r ==> delete_task_post(old(self)@.tasks, final(self)@.tasks, id),
            final(self)@.name == old(self)@.name,
            final(self)@.next_id == old(self)@.next_id,
            old(self)@.wf() ==> final(self)@.wf(),
    {
        let ghost all = old(self)@.tasks;
        let n = self.tasks.len();
        let mut i: usize = 0;
        while i < n
            invariant
                n == all.len(),
                all == views_of(self.tasks@),
                self@ == old(self)@,
                0 <= i <= n,
                forall|j: int| 0 <= j < i ==> all[j].id != id,
            decreases n - i,
        {
            if self.tasks[i].id() == id {
                proof {
                    assert(all[i as int] == self.tasks@[i as int]@);
                }
                self.tasks.remove(i);
                proof {
                    let ghost wi = i as int;
                    assert(views_of(self.tasks@) =~= all.remove(i as int));
                    assert(0 <= wi < all.len() && all[wi].id == id && (forall|j: int|
                        0 <= j < wi ==> all[j].id != id) && views_of(self.tasks@) == all.remove(wi));
                    assert(old(self)@.tasks == all);
                    assert(old(self)@.tasks[wi].id == id);
                    assert(has_task_with_id(old(self)@.tasks, id));
                    assert(self@.tasks == old(self)@.tasks.remove(wi));
                    assert(delete_task_post(old(self)@.tasks, self@.tasks, id));
                    assert forall|p: int, q: int|
                        0 <= p < q < all.remove(i as int).len() && unique_ids(all) implies all
                        .remove(i as int)[p].id != all.remove(i as int)[q].id by {
                        assert(all.remove(i as int)[p] == if p < i {
                            all[p]
                        } else {
                            all[p + 1]
                        });
                        assert(all.remove(i as int)[q] == if q < i {
                            all[q]
                        } else {
                            all[q + 1]
                        });
                    }
                }
                return true;
            }
            i = i + 1;
        }
        false
    }

    /// Removes every completed task, keeping the open ones in order.
    pub fn delete_completed(&mut self)
        ensures
            final(self)@.tasks == without_completed(old(self)@.tasks),
            final(self)@.name == old(self)@.name,
            final(self)@.next_id == old(self)@.next_id,
            old(self)@.wf() ==> final(self)@.wf(),
    {
        let ghost all = old(self)@.tasks;
        let ghost pred = |t: TaskView| !t.completed;
        let n = self.tasks.len();
        let mut kept: Vec<Task> = Vec::new();
        for i in 0..n
            invariant
                n == all.len(),
                all == views_of(self.tasks@),
                self@ == old(self)@,
                views_of(kept@) == all.subrange(0, i as int).filter(|t: TaskView| !t.completed),
        {
            proof {
                assert(all.subrange(0, i + 1).drop_last() =~= all.subrange(0, i as int));
                reveal(Seq::filter);
            }
            if !self.tasks[i].completed() {
                kept.push(self.tasks[i].clone());
            }
            proof {
                assert(views_of(kept@) =~= all.subrange(0, i + 1).filter(
                    |t: TaskView| !t.completed,
                ));
            }
        }
        self.tasks = kept;
        proof {
            assert(all.subrange(0, n as int) =~= all);
            if old(self)@.wf() {
                lemma_filter_keeps_wf(all, pred, old(self)@.next_id);
            }
        }
    }

    /// Sets the completion flag of the task at the given position.
    pub fn set_task_completed(&mut self, index: usize, value: bool)
        requires
            index < old(self)@.tasks.len(),
        ensures
            final(self)@ == (ListView {
                tasks: old(self)@.tasks.update(
                    index as int,
                    (TaskView { completed: value, ..old(self)@.tasks[index as int] }),
                ),
                ..old(self)@
            }),
            old(self)@.wf() ==> final(self)@.wf(),
    {
        let mut t = self.tasks[index].clone();
        t.set_completed(value);
        self.tasks.set(index, t);
        proof {
            lemma_update_wf_glue(old(self)@, self@, index as int);
        }
    }

    /// Stores an in-progress description edit on the task at the given
    /// position.
    pub fn set_task_new_description(&mut self, index: usize, contents: String)
        requires
            index < old(self)@.tasks.len(),
        ensures
            final(self)@ == (ListView {
                tasks: old(self)@.tasks.update(
                    index as int,
                    (TaskView { new_description: contents@, ..old(self)@.tasks[index as int] }),
                ),
                ..old(self)@
            }),
            old(self)@.wf() ==> final(self)@.wf(),
    {
        let mut t = self.tasks[index].clone();
        t.set_new_description(contents);
        self.tasks.set(index, t);
        proof {
            lemma_update_wf_glue(old(self)@, self@, index as int);
        }
    }

    /// Applies one frame of edit-buffer upkeep to the task at the given
    /// position: an empty buffer is primed with the description, a
    /// non-empty buffer is committed as the new description.
    pub fn commit_task_edit(&mut self, index: usize)
        requires
            index < old(self)@.tasks.len(),
        ensures
            old(self)@.tasks[index as int].new_description.len() == 0 ==> final(self)@ == (
            ListView {
                tasks: old(self)@.tasks.update(
                    index as int,
                    (TaskView {
                        new_description: old(self)@.tasks[index as int].description,
                        ..old(self)@.tasks[index as int]
                    }),
                ),
                ..old(self)@
            }),
            old(self)@.tasks[index as int].new_description.len() != 0 ==> final(self)@ == (
            ListView {
                tasks: old(self)@.tasks.update(
                    index as int,
                    (TaskView {
                        description: old(self)@.tasks[index as int].new_description,
                        ..old(self)@.tasks[index as int]
                    }),
                ),
                ..old(self)@
            }),
            old(self)@.wf() ==> final(self)@.wf(),
    {
        let mut t = self.tasks[index].clone();
        t.commit_edit();
        self.tasks.set(index, t);
        proof {
            lemma_update_wf_glue(old(self)@, self@, index as int);
        }
    }

    /// Stable partition: every completed task first, then every open one,
    /// each side keeping its relative order.
    pub fn sort_completed_first(&mut self)
        ensures
            final(self)@.tasks == only_completed(old(self)@.tasks) + without_completed(
                old(self)@.tasks,
            ),
            final(self)@.name == old(self)@.name,
            final(self)@.next_id == old(self)@.next_id,
            old(self)@.wf() ==> final(self)@.wf(),
    {
        let ghost all = old(self)@.tasks;
        let n = self.tasks.len();
        let mut done: Vec<Task> = Vec::new();
        let mut open_tasks: Vec<Task> = Vec::new();
        for i in 0..n
            invariant
                n == all.len(),
                all == views_of(self.tasks@),
                self@ == old(self)@,
                views_of(done@) == all.subrange(0, i as int).filter(|t: TaskView| t.completed),
                views_of(open_tasks@) == all.subrange(0, i as int).filter(
                    |t: TaskView| !t.completed,
                ),
        {
            proof {
                assert(all.subrange(0, i + 1).drop_last() =~= all.subrange(0, i as int));
                reveal(Seq::filter);
            }
            if self.tasks[i].completed() {
                done.push(self.tasks[i].clone());
            } else {
                open_tasks.push(self.tasks[i].clone());
            }
            proof {
                assert(views_of(done@) =~= all.subrange(0, i + 1).filter(
                    |t: TaskView| t.completed,
                ));
                assert(views_of(open_tasks@) =~= all.subrange(0, i + 1).filter(
                    |t: TaskView| !t.completed,
                ));
            }
        }
        let mut merged = done;
        let mut rest = open_tasks;
        merged.append(&mut rest);
        self.tasks = merged;
        proof {
            assert(all.subrange(0, n as int) =~= all);
            assert(views_of(self.tasks@) =~= only_completed(all) + without_completed(all));
            if old(self)@.wf() {
                lemma_sorted_partition_keeps_wf(all, old(self)@.next_id);
            }
        }
    }
}

/// The stable partition of a well-formed task sequence is well-formed: the
/// two halves keep unique identifiers, and no identifier occurs in both.
proof fn lemma_sorted_partition_keeps_wf(tasks: Seq<TaskView>, bound: u64)
    requires
        unique_ids(tasks),
        ids_below(tasks, bound),
    ensures
        unique_ids(only_completed(tasks) + without_completed(tasks)),
        ids_below(only_completed(tasks) + without_completed(tasks), bound),
{
    let done = only_completed(tasks);
    let open_tasks = without_completed(tasks);
    let merged = done + open_tasks;
    lemma_filter_keeps_wf(tasks, |t: TaskView| t.completed, bound);
    lemma_filter_keeps_wf(tasks, |t: TaskView| !t.completed, bound);
    lemma_filter_elements_contained(tasks, |t: TaskView| t.completed);
    lemma_filter_elements_contained(tasks, |t: TaskView| !t.completed);
    assert forall|i: int, j: int|
        0 <= i < j < merged.len() implies #[trigger] merged[i].id != #[trigger] merged[j].id by {
        if i < done.len() && j >= done.len() {
            let a = merged[i];
            let b = merged[j];
            assert(a == done[i]);
            assert(b == open_tasks[j - done.len()]);
            tasks.lemma_filter_pred(|t: TaskView| t.completed, i);
            tasks.lemma_filter_pred(|t: TaskView| !t.completed, j - done.len());
            let p = choose|p: int| 0 <= p < tasks.len() && tasks[p] == a;
            let q = choose|q: int| 0 <= q < tasks.len() && tasks[q] == b;
            assert(a.completed && !b.completed);
            assert(p != q);
        }
    }
    assert forall|i: int| 0 <= i < merged.len() implies #[trigger] merged[i].id < bound by {
        if i < done.len() {
            assert(merged[i] == done[i]);
        } else {
            assert(merged[i] == open_tasks[i - done.len()]);
        }
    }
}

/// Replacing the task at one position with a task carrying the same
/// identifier relates the old and new list views: the new task sequence is
/// the pointwise update, and well-formedness is kept.
proof fn lemma_update_wf_glue(before: ListView, after: ListView, i: int)
    requires
        0 <= i < before.tasks.len(),
        after.tasks.len() == before.tasks.len(),
        after.tasks[i].id == before.tasks[i].id,
        forall|j: int| 0 <= j < before.tasks.len() && j != i ==> after.tasks[j] == before.tasks[j],
        after.next_id == before.next_id,
    ensures
        after.tasks == before.tasks.update(i, after.tasks[i]),
        before.wf() ==> (unique_ids(after.tasks) && ids_below(after.tasks, after.next_id)),
{
    assert(after.tasks =~= before.tasks.update(i, after.tasks[i]));
    if before.wf() {
        assert forall|p: int, q: int|
            0 <= p < q < after.tasks.len() implies #[trigger] after.tasks[p].id
            != #[trigger] after.tasks[q].id by {
            assert(after.tasks[p].id == before.tasks[p].id);
            assert(after.tasks[q].id == before.tasks[q].id);
        }
        assert forall|p: int| 0 <= p < after.tasks.len() implies #[trigger] after.tasks[p].id
            < after.next_id by {
            assert(after.tasks[p].id == before.tasks[p].id);
        }
    }
}

} // verus!
