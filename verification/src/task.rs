//! Task identifiers as the file system sees them: opaque 32-bit values
//! issued by the task manager; the file system only receives them.
use vstd::prelude::*;

verus! {

/// The identifier of a task, owned and issued by the task manager.
#[derive(Clone, Copy, Debug, Hash, PartialEq, Eq, PartialOrd, Ord, Structural)]
pub struct Task_identifier_type(pub u32);

/// A handle on one task, as far as the file system needs one: its
/// identifier.
#[derive(Clone, Copy, Debug, PartialEq, Eq, Structural)]
pub struct Task_type {
    pub Identifier: Task_identifier_type,
}

impl Task_type {
    pub fn New(Identifier: Task_identifier_type) -> (Result: Self)
        ensures
            Result.Identifier == Identifier,
    {
        Task_type { Identifier }
    }

    pub fn Get_identifier(&self) -> (Result: Task_identifier_type)
        ensures
            Result == self.Identifier,
    {
        self.Identifier
    }
}

} // verus!
