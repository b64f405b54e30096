use std::sync::{Arc, Mutex};

use todo_ish::tasks::domain::{Task, TaskError, TaskId};
use todo_ish::tasks::repository::{
    get_all_outcome, get_all_statement, get_by_id_outcome, get_by_id_statement, map_to_task_error,
    save_outcome, save_statement, update_outcome, update_statement, InMemoryTaskRepository, Param,
    Statement, TaskRepository, INSERT_TASK, SELECT_TASK, SELECT_TASKS, UPDATE_TASK,
};

fn task(id: u128, name: &str, done: bool) -> Task {
    Task { id: TaskId(id), name: name.to_string(), done }
}

#[test]
fn test_task_is_persisted() {
    let mut repo = InMemoryTaskRepository::new();

    let task = Task { id: TaskId::new_v4(), name: "Test task".into(), done: false };

    repo.save(&task).unwrap();

    let count = repo.get_all().unwrap().iter().filter(|t| t.id == task.id).count();

    assert_eq!(1, count);
}

#[test]
fn task_is_updated() {
    let mut repo = InMemoryTaskRepository::new();

    let task = Task { id: TaskId::new_v4(), name: "Feed the cow".into(), done: false };

    repo.save(&task).unwrap();
    repo.update(&task.id).unwrap();

    let stored = repo.get_by_id(&task.id).unwrap();

    assert!(stored.done);
}

#[test]
fn task_is_retrieved() {
    let id = TaskId::new_v4();
    let row = Task::from_row(id, "another one".to_owned(), true);

    let task = get_by_id_outcome::<()>(Ok(row)).unwrap();

    assert_eq!(task.id, id);
    assert_eq!(task.name, "another one".to_owned());
    assert!(task.done);
}

#[test]
fn saved_task_is_returned_as_it_was_saved() {
    let mut repo = InMemoryTaskRepository::new();
    let first = task(1, "first", false);
    let second = task(2, "second", true);
    assert_eq!(repo.save(&first), Ok(()));
    assert_eq!(repo.save(&second), Ok(()));
    assert_eq!(repo.get_by_id(&TaskId(1)), Ok(task(1, "first", false)));
    assert_eq!(repo.get_by_id(&TaskId(2)), Ok(task(2, "second", true)));
}

#[test]
fn unsaved_id_is_not_found() {
    let mut repo = InMemoryTaskRepository::new();
    assert_eq!(repo.get_by_id(&TaskId(9)), Err(TaskError::IdNotFound));
    assert_eq!(repo.update(&TaskId(9)), Err(TaskError::IdNotFound));
    repo.save(&task(1, "one", false)).unwrap();
    assert_eq!(repo.get_by_id(&TaskId(9)), Err(TaskError::IdNotFound));
    assert_eq!(repo.update(&TaskId(9)), Err(TaskError::IdNotFound));
    assert_eq!(repo.get_all().unwrap(), vec![task(1, "one", false)]);
}

#[test]
fn update_sets_done_and_can_be_repeated() {
    let mut repo = InMemoryTaskRepository::new();
    repo.save(&task(5, "water the plants", false)).unwrap();
    assert_eq!(repo.update(&TaskId(5)), Ok(()));
    assert_eq!(repo.get_by_id(&TaskId(5)), Ok(task(5, "water the plants", true)));
    assert_eq!(repo.update(&TaskId(5)), Ok(()));
    assert_eq!(repo.get_by_id(&TaskId(5)), Ok(task(5, "water the plants", true)));
}

#[test]
fn update_changes_no_other_task() {
    let mut repo = InMemoryTaskRepository::new();
    repo.save(&task(1, "a", false)).unwrap();
    repo.save(&task(2, "b", false)).unwrap();
    repo.save(&task(3, "c", true)).unwrap();
    repo.update(&TaskId(2)).unwrap();
    assert_eq!(
        repo.get_all().unwrap(),
        vec![task(1, "a", false), task(2, "b", true), task(3, "c", true)]
    );
}

#[test]
fn empty_store_lists_nothing() {
    let repo = InMemoryTaskRepository::new();
    assert_eq!(repo.get_all(), Ok(Vec::new()));
}

#[test]
fn get_all_lists_in_the_order_of_saving() {
    let mut repo = InMemoryTaskRepository::new();
    repo.save(&task(3, "c", false)).unwrap();
    repo.save(&task(1, "a", false)).unwrap();
    repo.save(&task(2, "b", false)).unwrap();
    assert_eq!(
        repo.get_all().unwrap(),
        vec![task(3, "c", false), task(1, "a", false), task(2, "b", false)]
    );
}

#[test]
fn get_all_returns_a_snapshot() {
    let mut repo = InMemoryTaskRepository::new();
    repo.save(&task(1, "a", false)).unwrap();
    let snapshot = repo.get_all().unwrap();
    repo.save(&task(2, "b", false)).unwrap();
    repo.update(&TaskId(1)).unwrap();
    assert_eq!(snapshot, vec![task(1, "a", false)]);
    assert_eq!(repo.get_all().unwrap().len(), 2);
}

#[test]
fn second_task_under_an_id_is_kept_behind_the_first() {
    let mut repo = InMemoryTaskRepository::new();
    repo.save(&task(7, "older", false)).unwrap();
    assert_eq!(repo.save(&task(7, "newer", false)), Ok(()));
    assert_eq!(repo.get_all().unwrap().len(), 2);
    assert_eq!(repo.get_by_id(&TaskId(7)), Ok(task(7, "older", false)));
    repo.update(&TaskId(7)).unwrap();
    assert_eq!(
        repo.get_all().unwrap(),
        vec![task(7, "older", true), task(7, "newer", false)]
    );
}

#[test]
fn every_save_adds_one_entry() {
    let mut repo = InMemoryTaskRepository::new();
    for n in 0..50u128 {
        assert_eq!(repo.save(&task(n, "task", false)), Ok(()));
    }
    let all = repo.get_all().unwrap();
    assert_eq!(all.len(), 50);
    for n in 0..50u128 {
        assert_eq!(repo.get_by_id(&TaskId(n)), Ok(task(n, "task", false)));
    }
}

#[test]
fn saves_through_handles_of_one_lock_are_all_kept() {
    let shared = Arc::new(Mutex::new(InMemoryTaskRepository::new()));
    let handles: Vec<Arc<Mutex<InMemoryTaskRepository>>> =
        (0..16).map(|_| Arc::clone(&shared)).collect();
    for (n, handle) in handles.iter().enumerate() {
        let saved = handle.lock().unwrap().save(&task(n as u128, "shared", false));
        assert_eq!(saved, Ok(()));
    }
    let all = shared.lock().unwrap().get_all().unwrap();
    assert_eq!(all.len(), 16);
    for n in 0..16u128 {
        assert_eq!(all.iter().filter(|t| t.id == TaskId(n)).count(), 1);
    }
}

#[test]
fn new_task_starts_not_done() {
    let t = Task::new(TaskId(11), "write".to_string());
    assert_eq!(t, task(11, "write", false));
}

#[test]
fn clone_keeps_every_field() {
    let t = task(12, "copy me", true);
    assert_eq!(t.clone(), t);
}

#[test]
fn fresh_ids_are_random_uuids() {
    let a = TaskId::new_v4();
    let b = TaskId::new_v4();
    assert!(a.is_random());
    assert!(b.is_random());
    assert_ne!(a, b);
    let uuid = uuid::Uuid::from_u128(a.as_u128());
    assert_eq!(uuid.get_version_num(), 4);
    assert_eq!(uuid.get_variant(), uuid::Variant::RFC4122);
}

#[test]
fn id_keeps_its_bits() {
    let bits = 0xa1a2a3a4_b1b2_c1c2_d1d2_d3d4d5d6d7d8u128;
    assert_eq!(TaskId::from_u128(bits).as_u128(), bits);
    assert_eq!(TaskId::from_u128(bits), TaskId(bits));
    assert!(!TaskId(0).is_random());
    assert!(TaskId(0x4000_8000_0000_0000_0000).is_random());
    assert!(!TaskId(0x5000_8000_0000_0000_0000).is_random());
    assert!(!TaskId(0x4000_c000_0000_0000_0000).is_random());
}

#[test]
fn store_failure_keeps_the_error_of_the_operation() {
    assert_eq!(map_to_task_error("connection reset", TaskError::DbError), TaskError::DbError);
    assert_eq!(map_to_task_error(5, TaskError::CreationError), TaskError::CreationError);
}

#[test]
fn insert_outcome() {
    assert_eq!(save_outcome::<&str>(Ok(1)), Ok(()));
    assert_eq!(save_outcome::<&str>(Ok(0)), Ok(()));
    assert_eq!(save_outcome(Err("duplicate key")), Err(TaskError::CreationError));
}

#[test]
fn select_all_outcome() {
    let rows = vec![task(2, "newest", false), task(1, "oldest", true)];
    assert_eq!(
        get_all_outcome::<&str>(Ok(rows)),
        Ok(vec![task(2, "newest", false), task(1, "oldest", true)])
    );
    assert_eq!(get_all_outcome::<&str>(Ok(Vec::new())), Ok(Vec::new()));
    assert_eq!(get_all_outcome(Err("pool closed")), Err(TaskError::GetTaskError));
}

#[test]
fn select_one_outcome() {
    assert_eq!(get_by_id_outcome::<&str>(Ok(task(4, "found", false))), Ok(task(4, "found", false)));
    assert_eq!(get_by_id_outcome(Err("no rows")), Err(TaskError::IdNotFound));
    assert_eq!(get_by_id_outcome(Err("connection refused")), Err(TaskError::IdNotFound));
}

#[test]
fn update_outcome_inspects_the_rows_affected() {
    assert_eq!(update_outcome::<&str>(Ok(0)), Err(TaskError::IdNotFound));
    assert_eq!(update_outcome::<&str>(Ok(1)), Ok(()));
    assert_eq!(update_outcome::<&str>(Ok(u64::MAX)), Ok(()));
    assert_eq!(update_outcome(Err("timeout")), Err(TaskError::DbError));
}

#[test]
fn statements_of_the_relational_store() {
    assert_eq!(INSERT_TASK, "INSERT INTO tasks(id, name, done) VALUES ($1, $2, $3)");
    assert_eq!(SELECT_TASKS, "SELECT id, name, done FROM tasks ORDER BY created_at DESC");
    assert_eq!(SELECT_TASK, "SELECT id, name, done FROM tasks WHERE id = $1");
    assert_eq!(UPDATE_TASK, "UPDATE tasks SET done = 't' WHERE id = $1");
}

#[test]
fn insert_carries_the_task() {
    assert_eq!(
        save_statement(&task(21, "Test task", false)),
        Statement {
            sql: "INSERT INTO tasks(id, name, done) VALUES ($1, $2, $3)",
            params: vec![
                Param::Id(TaskId(21)),
                Param::Text("Test task".to_string()),
                Param::Flag(false),
            ],
        }
    );
    assert_eq!(
        save_statement(&task(22, "", true)).params,
        vec![Param::Id(TaskId(22)), Param::Text(String::new()), Param::Flag(true)]
    );
}

#[test]
fn select_of_all_tasks_carries_nothing() {
    assert_eq!(
        get_all_statement(),
        Statement {
            sql: "SELECT id, name, done FROM tasks ORDER BY created_at DESC",
            params: Vec::new(),
        }
    );
}

#[test]
fn select_and_update_of_one_task_carry_its_id() {
    assert_eq!(
        get_by_id_statement(&TaskId(23)),
        Statement {
            sql: "SELECT id, name, done FROM tasks WHERE id = $1",
            params: vec![Param::Id(TaskId(23))],
        }
    );
    assert_eq!(
        update_statement(&TaskId(24)),
        Statement {
            sql: "UPDATE tasks SET done = 't' WHERE id = $1",
            params: vec![Param::Id(TaskId(24))],
        }
    );
}
