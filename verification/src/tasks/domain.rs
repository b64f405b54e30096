//! The task entity, its identity and the error kinds of task storage.

use vstd::prelude::*;

verus! {

/// Identity of a task: the 128 bits of a UUID, most significant byte first.
///
/// The creator of a task assigns its id; a store neither generates nor
/// changes one.
#[derive(Clone, Copy, Debug, PartialEq, Eq, Hash, Structural)]
pub struct TaskId(pub u128);

/// The bits that say how a UUID was made: the version, four bits, and the
/// variant, two bits.
pub const UUID_KIND_MASK: u128 = 0xF000_C000_0000_0000_0000;

/// The value of those bits in a random UUID: version 4, variant `10`.
pub const UUID_RANDOM_KIND: u128 = 0x4000_8000_0000_0000_0000;

/// `value` is a UUID marked as random: its version is 4 and its variant is
/// the one of RFC 9562.
pub open spec fn is_random_uuid(value: u128) -> bool {
    value & UUID_KIND_MASK == UUID_RANDOM_KIND
}

/// `uuid::Uuid::new_v4`, as the 128 bits that `Uuid::as_u128` gives for it.
/// The crate draws 128 bits from the operating system, clears the version
/// and variant bits and sets them to version 4 and variant `10`; nothing
/// else is claimed of the result. It panics where the operating system
/// gives no random bytes.
#[verifier::external_body]
fn random_uuid() -> (value: u128)
    ensures
        is_random_uuid(value),
{
    uuid::Uuid::new_v4().as_u128()
}

impl TaskId {
    /// The id with the 128 bits `value`.
    pub fn from_u128(value: u128) -> (id: TaskId)
        ensures
            id == TaskId(value),
    {
        TaskId(value)
    }

    /// The 128 bits of the id.
    pub fn as_u128(&self) -> (value: u128)
        ensures
            value == self.0,
    {
        self.0
    }

    /// A fresh id: a random UUID.
    pub fn new_v4() -> (id: TaskId)
        ensures
            is_random_uuid(id.0),
    {
        TaskId(random_uuid())
    }

    /// Whether the id is marked as a random UUID.
    pub fn is_random(&self) -> (random: bool)
        ensures
            random == is_random_uuid(self.0),
    {
        self.0 & UUID_KIND_MASK == UUID_RANDOM_KIND
    }
}

/// A task: its identity, its name and whether it is done.
#[derive(Debug, PartialEq, Eq)]
pub struct Task {
    pub id: TaskId,
    pub name: String,
    pub done: bool,
}

/// The mathematical value of a [`Task`].
pub struct TaskView {
    pub id: TaskId,
    pub name: Seq<char>,
    pub done: bool,
}

impl View for Task {
    type V = TaskView;

    open spec fn view(&self) -> TaskView {
        TaskView { id: self.id, name: self.name@, done: self.done }
    }
}

impl Task {
    /// A task that is not done yet, under the id `id`.
    pub fn new(id: TaskId, name: String) -> (task: Task)
        ensures
            task.id == id,
            task.name == name,
            !task.done,
    {
        Task { id, name, done: false }
    }

    /// The task that a stored row with these three columns stands for.
    pub fn from_row(id: TaskId, name: String, done: bool) -> (task: Task)
        ensures
            task.id == id,
            task.name == name,
            task.done == done,
    {
        Task { id, name, done }
    }
}

impl Clone for Task {
    fn clone(&self) -> (copy: Self)
        ensures
            copy == *self,
    {
        Task { id: self.id, name: self.name.clone(), done: self.done }
    }
}

/// Why a storage operation on tasks failed. The underlying cause is never
/// part of the error.
#[derive(Clone, Copy, Debug, PartialEq, Eq, Structural)]
pub enum TaskError {
    /// The task looked up or updated does not exist.
    IdNotFound,
    /// A new task could not be persisted.
    CreationError,
    /// The stored tasks could not be retrieved.
    GetTaskError,
    /// The store failed while updating.
    DbError,
}

} // verus!
