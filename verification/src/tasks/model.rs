//! The mathematical model of a task store: a sequence of task values, in the
//! order in which the store lists them, with lookup by id.

use vstd::prelude::*;
use crate::tasks::domain::{Task, TaskId, TaskView};

verus! {

/// The values of a sequence of tasks, position by position.
pub open spec fn task_views(tasks: Seq<Task>) -> Seq<TaskView> {
    Seq::new(tasks.len(), |i: int| tasks[i]@)
}

/// Some stored task has the id `id`.
pub open spec fn contains_id(tasks: Seq<TaskView>, id: TaskId) -> bool {
    exists|i: int| 0 <= i < tasks.len() && tasks[i].id == id
}

/// `i` is the position of the first task whose id is `id`.
pub open spec fn is_first_with_id(tasks: Seq<TaskView>, id: TaskId, i: int) -> bool {
    &&& 0 <= i < tasks.len()
    &&& tasks[i].id == id
    &&& forall|j: int| 0 <= j < i ==> tasks[j].id != id
}

/// The position of the first task whose id is `id`, where there is one.
pub open spec fn first_with_id(tasks: Seq<TaskView>, id: TaskId) -> int {
    choose|i: int| is_first_with_id(tasks, id, i)
}

/// The task that a lookup of `id` finds: the first one with that id, or
/// `None` where the store holds none.
pub open spec fn find_by_id(tasks: Seq<TaskView>, id: TaskId) -> Option<TaskView> {
    if contains_id(tasks, id) {
        Some(tasks[first_with_id(tasks, id)])
    } else {
        None
    }
}

/// The task `task` once it is done: nothing but `done` differs.
pub open spec fn completed(task: TaskView) -> TaskView {
    TaskView { id: task.id, name: task.name, done: true }
}

/// The store after the task that a lookup of `id` finds has been marked as
/// done; the store itself where it holds no such task.
pub open spec fn mark_done(tasks: Seq<TaskView>, id: TaskId) -> Seq<TaskView> {
    if contains_id(tasks, id) {
        let i = first_with_id(tasks, id);
        tasks.update(i, completed(tasks[i]))
    } else {
        tasks
    }
}

/// `after` is `before` with `task` put in at some position, the tasks of
/// `before` keeping their order.
pub open spec fn inserted(before: Seq<TaskView>, after: Seq<TaskView>, task: TaskView) -> bool {
    exists|i: int| 0 <= i <= before.len() && after == #[trigger] before.insert(i, task)
}

/// No two stored tasks share an id.
pub open spec fn ids_unique(tasks: Seq<TaskView>) -> bool {
    forall|i: int, j: int|
        0 <= i < tasks.len() && 0 <= j < tasks.len() && tasks[i].id == tasks[j].id ==> i == j
}

/// A call that may change a store.
pub enum Change {
    /// A save of the task.
    Save(TaskView),
    /// An update of the id.
    Update(TaskId),
}

/// The store `tasks` after one call on a store that appends what it saves.
pub open spec fn apply(tasks: Seq<TaskView>, change: Change) -> Seq<TaskView> {
    match change {
        Change::Save(task) => tasks.push(task),
        Change::Update(id) => mark_done(tasks, id),
    }
}

/// The store that the calls `changes` leave, made in this order on an empty
/// store that appends what it saves.
pub open spec fn replay(changes: Seq<Change>) -> Seq<TaskView>
    decreases changes.len(),
{
    if changes.len() == 0 {
        Seq::empty()
    } else {
        apply(replay(changes.drop_last()), changes.last())
    }
}

/// `change` saves a task under the id `id`.
pub open spec fn is_save_of(change: Change, id: TaskId) -> bool {
    change matches Change::Save(task) && task.id == id
}

/// Some call among `changes` saves a task under the id `id`.
pub open spec fn saves_id(changes: Seq<Change>, id: TaskId) -> bool {
    exists|k: int| 0 <= k < changes.len() && is_save_of(#[trigger] changes[k], id)
}

/// The number of saves among `changes`.
pub open spec fn save_count(changes: Seq<Change>) -> nat
    decreases changes.len(),
{
    if changes.len() == 0 {
        0
    } else if changes.last() is Save {
        save_count(changes.drop_last()) + 1
    } else {
        save_count(changes.drop_last())
    }
}

/// A store that holds a task with the id `id` has a first one, below any
/// position `bound` at which such a task stands.
pub proof fn lemma_first_exists(tasks: Seq<TaskView>, id: TaskId, bound: int)
    requires
        0 <= bound < tasks.len(),
        tasks[bound].id == id,
    ensures
        is_first_with_id(tasks, id, first_with_id(tasks, id)),
        first_with_id(tasks, id) <= bound,
    decreases bound,
{
    if exists|j: int| 0 <= j < bound && tasks[j].id == id {
        let j = choose|j: int| 0 <= j < bound && tasks[j].id == id;
        lemma_first_exists(tasks, id, j);
    } else {
        assert(is_first_with_id(tasks, id, bound));
        let first = first_with_id(tasks, id);
        assert(is_first_with_id(tasks, id, first));
        if first > bound {
            assert(tasks[bound].id != id);
        }
    }
}

/// A store that holds a task with the id `id` has a first one, and that is
/// the task that a lookup finds.
pub proof fn lemma_first_of_contained(tasks: Seq<TaskView>, id: TaskId)
    requires
        contains_id(tasks, id),
    ensures
        is_first_with_id(tasks, id, first_with_id(tasks, id)),
        find_by_id(tasks, id) == Some(tasks[first_with_id(tasks, id)]),
{
    let witness = choose|i: int| 0 <= i < tasks.len() && tasks[i].id == id;
    lemma_first_exists(tasks, id, witness);
}

/// The first position of an id is the only position that is first.
pub proof fn lemma_first_is_unique(tasks: Seq<TaskView>, id: TaskId, i: int)
    requires
        is_first_with_id(tasks, id, i),
    ensures
        contains_id(tasks, id),
        first_with_id(tasks, id) == i,
        find_by_id(tasks, id) == Some(tasks[i]),
{
    let first = first_with_id(tasks, id);
    assert(is_first_with_id(tasks, id, first));
    if first < i {
        assert(tasks[first].id != id);
    }
    if i < first {
        assert(tasks[i].id != id);
    }
}

/// A store in which no position holds the id `id` has no task with it.
pub proof fn lemma_absent(tasks: Seq<TaskView>, id: TaskId)
    requires
        forall|j: int| 0 <= j < tasks.len() ==> tasks[j].id != id,
    ensures
        !contains_id(tasks, id),
        find_by_id(tasks, id) is None,
        mark_done(tasks, id) == tasks,
{
}

} // verus!
