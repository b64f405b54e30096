//! What holds of every store that behaves as the model says: the laws that
//! relate saving, looking up and updating.

use vstd::prelude::*;
use crate::tasks::domain::{TaskId, TaskView};
use crate::tasks::model::{
    apply, completed, contains_id, find_by_id, first_with_id, ids_unique, inserted, is_first_with_id,
    is_save_of, lemma_absent, lemma_first_is_unique, lemma_first_of_contained, mark_done, replay,
    save_count, saves_id, Change,
};

verus! {

/// A task appended to a store is the task that a lookup of its id finds,
/// unless the store already held another task under that id: the lookup
/// finds the first, so the older entry.
pub proof fn lemma_saved_task_is_found(stored: Seq<TaskView>, task: TaskView)
    requires
        find_by_id(stored, task.id) is None || find_by_id(stored, task.id) == Some(task),
    ensures
        find_by_id(stored.push(task), task.id) == Some(task),
{
    let after = stored.push(task);
    if contains_id(stored, task.id) {
        lemma_first_of_contained(stored, task.id);
        let first = first_with_id(stored, task.id);
        assert(is_first_with_id(after, task.id, first)) by {
            assert(forall|j: int| 0 <= j <= first ==> after[j] == stored[j]);
        }
        lemma_first_is_unique(after, task.id, first);
    } else {
        let last = stored.len() as int;
        assert(is_first_with_id(after, task.id, last)) by {
            assert(forall|j: int| 0 <= j < last ==> after[j] == stored[j]);
        }
        lemma_first_is_unique(after, task.id, last);
    }
}

/// In any store, wherever it puts a new task among the others, a task saved
/// under an id that the store did not hold is the task that a lookup of its
/// id finds.
pub proof fn lemma_saved_task_is_found_in_any_store(
    before: Seq<TaskView>,
    after: Seq<TaskView>,
    task: TaskView,
)
    requires
        inserted(before, after, task),
        !contains_id(before, task.id),
    ensures
        find_by_id(after, task.id) == Some(task),
{
    let at = choose|i: int| 0 <= i <= before.len() && after == #[trigger] before.insert(i, task);
    assert(is_first_with_id(after, task.id, at)) by {
        assert(after[at] == task);
        assert forall|j: int| 0 <= j < at implies after[j].id != task.id by {
            assert(after[j] == before[j]);
        }
    }
    lemma_first_is_unique(after, task.id, at);
}

/// In any store a save adds one entry, the saved task, and loses none of
/// the tasks that the store held.
pub proof fn lemma_save_adds_one_entry(
    before: Seq<TaskView>,
    after: Seq<TaskView>,
    task: TaskView,
)
    requires
        inserted(before, after, task),
    ensures
        after.len() == before.len() + 1,
        after.contains(task),
        forall|held: TaskView| before.contains(held) ==> after.contains(held),
        forall|id: TaskId| contains_id(after, id) <==> contains_id(before, id) || task.id == id,
{
    let at = choose|i: int| 0 <= i <= before.len() && after == #[trigger] before.insert(i, task);
    assert(after[at] == task);
    assert forall|held: TaskView| before.contains(held) implies after.contains(held) by {
        let k = choose|k: int| 0 <= k < before.len() && before[k] == held;
        if k < at {
            assert(after[k] == held);
        } else {
            assert(after[k + 1] == held);
        }
    }
    assert forall|id: TaskId| contains_id(after, id) <==> contains_id(before, id) || task.id
        == id by {
        if contains_id(before, id) {
            let k = choose|k: int| 0 <= k < before.len() && before[k].id == id;
            if k < at {
                assert(after[k].id == id);
            } else {
                assert(after[k + 1].id == id);
            }
        }
        if task.id == id {
            assert(after[at].id == id);
        }
        if contains_id(after, id) && task.id != id {
            let k = choose|k: int| 0 <= k < after.len() && after[k].id == id;
            if k < at {
                assert(before[k].id == id);
            } else {
                assert(k != at);
                assert(before[k - 1].id == id);
            }
        }
    }
}

/// Saving a task leaves the lookup of every other id as it was.
pub proof fn lemma_save_keeps_other_lookups(stored: Seq<TaskView>, task: TaskView, id: TaskId)
    requires
        id != task.id,
    ensures
        find_by_id(stored.push(task), id) == find_by_id(stored, id),
        contains_id(stored.push(task), id) == contains_id(stored, id),
{
    let after = stored.push(task);
    if contains_id(stored, id) {
        lemma_first_of_contained(stored, id);
        let first = first_with_id(stored, id);
        assert(is_first_with_id(after, id, first)) by {
            assert(forall|j: int| 0 <= j <= first ==> after[j] == stored[j]);
        }
        lemma_first_is_unique(after, id, first);
    } else {
        assert forall|j: int| 0 <= j < after.len() implies after[j].id != id by {
            if j < stored.len() {
                assert(after[j] == stored[j]);
            }
        }
        lemma_absent(after, id);
    }
}

/// A store holds a task under an id after a save exactly if it held one
/// before or the saved task carries that id.
pub proof fn lemma_ids_after_save(stored: Seq<TaskView>, task: TaskView, id: TaskId)
    ensures
        contains_id(stored.push(task), id) <==> contains_id(stored, id) || task.id == id,
{
    let after = stored.push(task);
    if id != task.id {
        lemma_save_keeps_other_lookups(stored, task, id);
    } else {
        assert(after[stored.len() as int].id == id);
    }
}

/// An update changes one task at most, and of that task nothing but `done`,
/// which it sets: ids and names stay, no task leaves or joins, and no task
/// that was done becomes undone.
pub proof fn lemma_update_changes_only_done(stored: Seq<TaskView>, id: TaskId)
    ensures
        mark_done(stored, id).len() == stored.len(),
        forall|i: int|
            0 <= i < stored.len() ==> {
                &&& (#[trigger] mark_done(stored, id)[i]).id == stored[i].id
                &&& mark_done(stored, id)[i].name == stored[i].name
                &&& stored[i].done ==> mark_done(stored, id)[i].done
                &&& stored[i].id != id ==> mark_done(stored, id)[i] == stored[i]
            },
        forall|other: TaskId| contains_id(mark_done(stored, id), other) == contains_id(stored, other),
{
    if contains_id(stored, id) {
        lemma_first_of_contained(stored, id);
    }
    let after = mark_done(stored, id);
    assert forall|other: TaskId| contains_id(after, other) == contains_id(stored, other) by {
        if contains_id(stored, other) {
            let w = choose|i: int| 0 <= i < stored.len() && stored[i].id == other;
            assert(after[w].id == other);
        }
        if contains_id(after, other) {
            let w = choose|i: int| 0 <= i < after.len() && after[i].id == other;
            assert(stored[w].id == other);
        }
    }
}

/// After an update of an id that the store holds, a lookup of that id finds
/// the task that it found before, now done; the store still holds the id, so
/// a further update succeeds, and it changes nothing.
pub proof fn lemma_updated_task_is_done(stored: Seq<TaskView>, id: TaskId)
    requires
        contains_id(stored, id),
    ensures
        find_by_id(mark_done(stored, id), id) == Some(completed(find_by_id(stored, id).unwrap())),
        find_by_id(mark_done(stored, id), id).unwrap().done,
        contains_id(mark_done(stored, id), id),
        mark_done(mark_done(stored, id), id) == mark_done(stored, id),
{
    lemma_first_of_contained(stored, id);
    let first = first_with_id(stored, id);
    let after = mark_done(stored, id);
    assert(is_first_with_id(after, id, first)) by {
        assert(forall|j: int| 0 <= j < first ==> after[j] == stored[j]);
    }
    lemma_first_is_unique(after, id, first);
    assert(mark_done(after, id) =~= after);
}

/// An update leaves the lookup of every other id as it was.
pub proof fn lemma_update_keeps_other_lookups(stored: Seq<TaskView>, id: TaskId, other: TaskId)
    requires
        other != id,
    ensures
        find_by_id(mark_done(stored, id), other) == find_by_id(stored, other),
{
    lemma_update_changes_only_done(stored, id);
    let after = mark_done(stored, id);
    if contains_id(stored, other) {
        lemma_first_of_contained(stored, other);
        let first = first_with_id(stored, other);
        assert(is_first_with_id(after, other, first)) by {
            assert(forall|j: int| 0 <= j <= first ==> (#[trigger] after[j]).id == stored[j].id);
        }
        lemma_first_is_unique(after, other, first);
    }
}

/// A store without two tasks under one id stays so when a task is saved
/// under an id that it does not hold.
pub proof fn lemma_save_keeps_ids_unique(stored: Seq<TaskView>, task: TaskView)
    requires
        ids_unique(stored),
        !contains_id(stored, task.id),
    ensures
        ids_unique(stored.push(task)),
{
    let saved = stored.push(task);
    assert forall|i: int, j: int|
        0 <= i < saved.len() && 0 <= j < saved.len() && saved[i].id == saved[j].id implies i
        == j by {
        if i < stored.len() && j < stored.len() {
            assert(stored[i].id == stored[j].id);
        }
    }
}

/// A store without two tasks under one id stays so through every update.
pub proof fn lemma_update_keeps_ids_unique(stored: Seq<TaskView>, id: TaskId)
    requires
        ids_unique(stored),
    ensures
        ids_unique(mark_done(stored, id)),
{
    lemma_update_changes_only_done(stored, id);
    let updated = mark_done(stored, id);
    assert forall|i: int, j: int|
        0 <= i < updated.len() && 0 <= j < updated.len() && updated[i].id
            == updated[j].id implies i == j by {
        assert(stored[i].id == stored[j].id);
    }
}

/// A store holds a task under an id exactly if one was saved under it: a
/// lookup or an update of an id that was never saved finds nothing, and no
/// task ever leaves.
pub proof fn lemma_held_ids_are_saved_ids(changes: Seq<Change>, id: TaskId)
    ensures
        contains_id(replay(changes), id) <==> saves_id(changes, id),
        !saves_id(changes, id) ==> find_by_id(replay(changes), id) is None,
    decreases changes.len(),
{
    if changes.len() > 0 {
        let earlier = changes.drop_last();
        let stored = replay(earlier);
        lemma_held_ids_are_saved_ids(earlier, id);
        match changes.last() {
            Change::Save(task) => {
                lemma_ids_after_save(stored, task, id);
            },
            Change::Update(updated) => {
                lemma_update_changes_only_done(stored, updated);
            },
        }
        assert(replay(changes) == apply(stored, changes.last()));
        if saves_id(earlier, id) {
            let k = choose|k: int| 0 <= k < earlier.len() && is_save_of(#[trigger] earlier[k], id);
            assert(is_save_of(changes[k], id));
        }
        if saves_id(changes, id) && !is_save_of(changes.last(), id) {
            let k = choose|k: int| 0 <= k < changes.len() && is_save_of(#[trigger] changes[k], id);
            assert(is_save_of(earlier[k], id));
        }
        if is_save_of(changes.last(), id) {
            assert(is_save_of(changes[changes.len() - 1], id));
        }
    }
}

/// A store holds one entry for each save made on it: no save is lost, and
/// nothing else adds or removes an entry.
pub proof fn lemma_one_entry_per_save(changes: Seq<Change>)
    ensures
        replay(changes).len() == save_count(changes),
    decreases changes.len(),
{
    if changes.len() > 0 {
        lemma_one_entry_per_save(changes.drop_last());
        match changes.last() {
            Change::Save(_) => {},
            Change::Update(updated) => {
                lemma_update_changes_only_done(replay(changes.drop_last()), updated);
            },
        }
    }
}

/// A task is done only if it was saved so or its id was updated: where
/// every save among `changes` stores a task that is not done and none of
/// them updates `id`, no stored task with that id is done.
pub proof fn lemma_done_needs_update(changes: Seq<Change>, id: TaskId)
    requires
        forall|k: int|
            0 <= k < changes.len() ==> match #[trigger] changes[k] {
                Change::Save(task) => !task.done,
                Change::Update(updated) => updated != id,
            },
    ensures
        forall|i: int|
            0 <= i < replay(changes).len() && (#[trigger] replay(changes)[i]).id == id
                ==> !replay(changes)[i].done,
    decreases changes.len(),
{
    if changes.len() > 0 {
        let earlier = changes.drop_last();
        assert forall|k: int| 0 <= k < earlier.len() implies match #[trigger] earlier[k] {
            Change::Save(task) => !task.done,
            Change::Update(updated) => updated != id,
        } by {
            assert(earlier[k] == changes[k]);
        }
        lemma_done_needs_update(earlier, id);
        let stored = replay(earlier);
        let after = replay(changes);
        let last = changes[changes.len() - 1];
        assert(after == apply(stored, last));
        if let Change::Update(updated) = last {
            lemma_update_changes_only_done(stored, updated);
        }
        assert forall|i: int| 0 <= i < after.len() && (#[trigger] after[i]).id == id implies !after[
            i
        ].done by {
            match last {
                Change::Save(task) => {
                    if i < stored.len() {
                        assert(after[i] == stored[i]);
                    }
                },
                Change::Update(updated) => {
                    assert(mark_done(stored, updated)[i].id == stored[i].id);
                },
            }
        }
    }
}

} // verus!
