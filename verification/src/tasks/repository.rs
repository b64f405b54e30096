//! The repository contract and the store that keeps its tasks in memory.

use vstd::prelude::*;
use crate::tasks::domain::{Task, TaskError, TaskId, TaskView};
use crate::tasks::model::{
    contains_id, find_by_id, inserted, is_first_with_id, lemma_absent, lemma_first_is_unique,
    mark_done, task_views,
};

verus! {

/// Storage of tasks. Every implementation keeps to the same outcomes, so
/// that its callers need not know which one they hold.
pub trait TaskRepository {
    /// The stored tasks, in the order in which `get_all` lists them.
    spec fn tasks(&self) -> Seq<TaskView>;

    /// Stores `task` as a new entry under the id that it carries. A store
    /// that rejects the write fails with `CreationError` and is unchanged.
    fn save(&mut self, task: &Task) -> (outcome: Result<(), TaskError>)
        ensures
            match outcome {
                Ok(_) => inserted(old(self).tasks(), final(self).tasks(), task@),
                Err(e) => e == TaskError::CreationError && final(self).tasks() == old(
                    self,
                ).tasks(),
            },
    ;

    /// Lists every stored task, or fails with `GetTaskError`.
    fn get_all(&self) -> (outcome: Result<Vec<Task>, TaskError>)
        ensures
            match outcome {
                Ok(listed) => task_views(listed@) == self.tasks(),
                Err(e) => e == TaskError::GetTaskError,
            },
    ;

    /// Looks up the task with the id `id`. Every failure is `IdNotFound`,
    /// and a store without such a task fails.
    fn get_by_id(&self, id: &TaskId) -> (outcome: Result<Task, TaskError>)
        ensures
            match outcome {
                Ok(task) => find_by_id(self.tasks(), *id) == Some(task@),
                Err(e) => e == TaskError::IdNotFound,
            },
    ;

    /// Marks the task with the id `id` as done. A store without such a task
    /// fails with `IdNotFound`, unless the write itself fails, which is a
    /// `DbError`; either way the store is unchanged.
    fn update(&mut self, id: &TaskId) -> (outcome: Result<(), TaskError>)
        ensures
            match outcome {
                Ok(_) => contains_id(old(self).tasks(), *id) && final(self).tasks() == mark_done(
                    old(self).tasks(),
                    *id,
                ),
                Err(e) => {
                    &&& final(self).tasks() == old(self).tasks()
                    &&& e == TaskError::IdNotFound || e == TaskError::DbError
                    &&& e == TaskError::IdNotFound ==> !contains_id(old(self).tasks(), *id)
                },
            },
    ;
}

/// The statement by which the relational store saves a task: its id, its
/// name and whether it is done, in this order.
pub const INSERT_TASK: &'static str = "INSERT INTO tasks(id, name, done) VALUES ($1, $2, $3)";

/// The statement by which the relational store lists its tasks, the one
/// created last first.
pub const SELECT_TASKS: &'static str = "SELECT id, name, done FROM tasks ORDER BY created_at DESC";

/// The statement by which the relational store looks up the task with an id.
pub const SELECT_TASK: &'static str = "SELECT id, name, done FROM tasks WHERE id = $1";

/// The statement by which the relational store marks the task with an id
/// as done.
pub const UPDATE_TASK: &'static str = "UPDATE tasks SET done = 't' WHERE id = $1";

/// A value that a statement carries for one of its placeholders.
#[derive(Debug, PartialEq, Eq)]
pub enum Param {
    /// The id of a task.
    Id(TaskId),
    /// A text, such as the name of a task.
    Text(String),
    /// A truth value, such as whether a task is done.
    Flag(bool),
}

/// The mathematical value of a [`Param`].
pub enum ParamView {
    Id(TaskId),
    Text(Seq<char>),
    Flag(bool),
}

impl View for Param {
    type V = ParamView;

    open spec fn view(&self) -> ParamView {
        match self {
            Param::Id(id) => ParamView::Id(*id),
            Param::Text(text) => ParamView::Text(text@),
            Param::Flag(flag) => ParamView::Flag(*flag),
        }
    }
}

/// What the relational store asks of the database: the text of a
/// statement, and the values for its placeholders `$1`, `$2`, .. in order.
#[derive(Debug, PartialEq, Eq)]
pub struct Statement {
    pub sql: &'static str,
    pub params: Vec<Param>,
}

/// The values of the parameters of a statement, position by position.
pub open spec fn param_views(params: Seq<Param>) -> Seq<ParamView> {
    Seq::new(params.len(), |i: int| params[i]@)
}

/// The statement that saves `task`: one insert, with the id, the name and
/// `done` of the task.
pub fn save_statement(task: &Task) -> (statement: Statement)
    ensures
        statement.sql == INSERT_TASK,
        param_views(statement.params@) == seq![
            ParamView::Id(task.id),
            ParamView::Text(task.name@),
            ParamView::Flag(task.done),
        ],
{
    let mut params: Vec<Param> = Vec::new();
    params.push(Param::Id(task.id));
    params.push(Param::Text(task.name.clone()));
    params.push(Param::Flag(task.done));
    assert(param_views(params@) =~= seq![
        ParamView::Id(task.id),
        ParamView::Text(task.name@),
        ParamView::Flag(task.done),
    ]);
    Statement { sql: INSERT_TASK, params }
}

/// The statement that lists the tasks: one select, without parameters.
pub fn get_all_statement() -> (statement: Statement)
    ensures
        statement.sql == SELECT_TASKS,
        statement.params@.len() == 0,
{
    Statement { sql: SELECT_TASKS, params: Vec::new() }
}

/// The statement that looks up the task with the id `id`: one select, with
/// the id.
pub fn get_by_id_statement(id: &TaskId) -> (statement: Statement)
    ensures
        statement.sql == SELECT_TASK,
        param_views(statement.params@) == seq![ParamView::Id(*id)],
{
    let mut params: Vec<Param> = Vec::new();
    params.push(Param::Id(*id));
    assert(param_views(params@) =~= seq![ParamView::Id(*id)]);
    Statement { sql: SELECT_TASK, params }
}

/// The statement that marks the task with the id `id` as done: one update,
/// with the id.
pub fn update_statement(id: &TaskId) -> (statement: Statement)
    ensures
        statement.sql == UPDATE_TASK,
        param_views(statement.params@) == seq![ParamView::Id(*id)],
{
    let mut params: Vec<Param> = Vec::new();
    params.push(Param::Id(*id));
    assert(param_views(params@) =~= seq![ParamView::Id(*id)]);
    Statement { sql: UPDATE_TASK, params }
}

/// The task error that stands for a failure `e` of the store in the
/// operation that fails with `task_error`: the cause is dropped.
pub fn map_to_task_error<E>(e: E, task_error: TaskError) -> (mapped: TaskError)
    ensures
        mapped == task_error,
{
    task_error
}

/// What `save` answers once the relational store has run its insert:
/// success where it ran, whatever the number of rows, and `CreationError`
/// where it failed, as it does for an id that the table holds already.
pub fn save_outcome<E>(executed: Result<u64, E>) -> (outcome: Result<(), TaskError>)
    ensures
        executed is Ok ==> outcome is Ok,
        executed is Err ==> outcome == Err::<(), TaskError>(TaskError::CreationError),
{
    match executed {
        Ok(_) => Ok(()),
        Err(e) => Err(map_to_task_error(e, TaskError::CreationError)),
    }
}

/// What `get_all` answers once the relational store has run its select:
/// the tasks of the rows, in their order, and `GetTaskError` where it
/// failed.
pub fn get_all_outcome<E>(fetched: Result<Vec<Task>, E>) -> (outcome: Result<Vec<Task>, TaskError>)
    ensures
        match fetched {
            Ok(tasks) => outcome == Ok::<Vec<Task>, TaskError>(tasks),
            Err(_) => outcome == Err::<Vec<Task>, TaskError>(TaskError::GetTaskError),
        },
{
    match fetched {
        Ok(tasks) => Ok(tasks),
        Err(e) => Err(map_to_task_error(e, TaskError::GetTaskError)),
    }
}

/// What `get_by_id` answers once the relational store has run its select
/// for one row: the task of the row, and `IdNotFound` where there was no
/// row or the statement failed; the two are not told apart.
pub fn get_by_id_outcome<E>(fetched: Result<Task, E>) -> (outcome: Result<Task, TaskError>)
    ensures
        match fetched {
            Ok(task) => outcome == Ok::<Task, TaskError>(task),
            Err(_) => outcome == Err::<Task, TaskError>(TaskError::IdNotFound),
        },
{
    match fetched {
        Ok(task) => Ok(task),
        Err(e) => Err(map_to_task_error(e, TaskError::IdNotFound)),
    }
}

/// What `update` answers once the relational store has run its update:
/// `DbError` where it failed, `IdNotFound` where it changed no row, success
/// where it changed one or more.
pub fn update_outcome<E>(executed: Result<u64, E>) -> (outcome: Result<(), TaskError>)
    ensures
        match executed {
            Ok(rows_affected) => if rows_affected == 0 {
                outcome == Err::<(), TaskError>(TaskError::IdNotFound)
            } else {
                outcome is Ok
            },
            Err(_) => outcome == Err::<(), TaskError>(TaskError::DbError),
        },
{
    match executed {
        Ok(rows_affected) => if rows_affected == 0 {
            Err(TaskError::IdNotFound)
        } else {
            Ok(())
        },
        Err(e) => Err(map_to_task_error(e, TaskError::DbError)),
    }
}

/// A store that keeps its tasks in memory, in the order in which they were
/// saved. Nothing in it can fail but a lookup of an id that it does not hold.
pub struct InMemoryTaskRepository {
    tasks: Vec<Task>,
}

impl InMemoryTaskRepository {
    /// An empty store.
    pub fn new() -> (store: Self)
        ensures
            store.tasks() == Seq::<TaskView>::empty(),
    {
        let store = InMemoryTaskRepository { tasks: Vec::new() };
        assert(store.tasks() =~= Seq::<TaskView>::empty());
        store
    }
}

impl TaskRepository for InMemoryTaskRepository {
    closed spec fn tasks(&self) -> Seq<TaskView> {
        task_views(self.tasks@)
    }

    /// Appends `task`; never fails.
    fn save(&mut self, task: &Task) -> (outcome: Result<(), TaskError>)
        ensures
            outcome is Ok,
            final(self).tasks() == old(self).tasks().push(task@),
    {
        self.tasks.push(task.clone());
        proof {
            assert(self.tasks() =~= old(self).tasks().push(task@));
            assert(old(self).tasks().push(task@) =~= old(self).tasks().insert(
                old(self).tasks().len() as int,
                task@,
            ));
        }
        Ok(())
    }

    /// A copy of the stored tasks, in the order in which they were saved;
    /// never fails.
    fn get_all(&self) -> (outcome: Result<Vec<Task>, TaskError>)
        ensures
            outcome matches Ok(listed) && listed.len() == self.tasks().len(),
    {
        let mut listed: Vec<Task> = Vec::new();
        let mut i: usize = 0;
        while i < self.tasks.len()
            invariant
                i <= self.tasks.len(),
                listed.len() == i,
                forall|k: int| 0 <= k < i ==> listed[k] == self.tasks[k],
            decreases self.tasks.len() - i,
        {
            listed.push(self.tasks[i].clone());
            i += 1;
        }
        assert(task_views(listed@) =~= self.tasks());
        Ok(listed)
    }

    /// The first stored task with the id `id`; fails exactly where the store
    /// holds none.
    fn get_by_id(&self, id: &TaskId) -> (outcome: Result<Task, TaskError>)
        ensures
            outcome is Ok <==> contains_id(self.tasks(), *id),
    {
        let mut i: usize = 0;
        while i < self.tasks.len()
            invariant
                i <= self.tasks.len(),
                forall|k: int| 0 <= k < i ==> self.tasks()[k].id != *id,
            decreases self.tasks.len() - i,
        {
            if self.tasks[i].id == *id {
                proof {
                    assert(self.tasks()[i as int] == self.tasks[i as int]@);
                    assert(is_first_with_id(self.tasks(), *id, i as int));
                    lemma_first_is_unique(self.tasks(), *id, i as int);
                }
                return Ok(self.tasks[i].clone());
            }
            assert(self.tasks()[i as int] == self.tasks[i as int]@);
            i += 1;
        }
        proof {
            lemma_absent(self.tasks(), *id);
        }
        Err(TaskError::IdNotFound)
    }

    /// Marks the first stored task with the id `id` as done; fails, with
    /// `IdNotFound`, exactly where the store holds none.
    fn update(&mut self, id: &TaskId) -> (outcome: Result<(), TaskError>)
        ensures
            outcome is Ok <==> contains_id(old(self).tasks(), *id),
            outcome matches Err(e) ==> e == TaskError::IdNotFound,
            final(self).tasks() == mark_done(old(self).tasks(), *id),
    {
        let mut i: usize = 0;
        while i < self.tasks.len()
            invariant
                i <= self.tasks.len(),
                *self == *old(self),
                forall|k: int| 0 <= k < i ==> self.tasks()[k].id != *id,
            decreases self.tasks.len() - i,
        {
            if self.tasks[i].id == *id {
                proof {
                    assert(self.tasks()[i as int] == self.tasks[i as int]@);
                    assert(is_first_with_id(self.tasks(), *id, i as int));
                    lemma_first_is_unique(self.tasks(), *id, i as int);
                }
                self.tasks[i].done = true;
                assert(self.tasks() =~= mark_done(old(self).tasks(), *id));
                return Ok(());
            }
            assert(self.tasks()[i as int] == self.tasks[i as int]@);
            i += 1;
        }
        proof {
            lemma_absent(self.tasks(), *id);
        }
        Err(TaskError::IdNotFound)
    }
}

} // verus!
