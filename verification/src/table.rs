//! The handle multiplexer: an open-handle table that maps combined
//! task-and-file identifiers to a backend resource. Every driver owns one
//! and applies the same allocation, lookup and bulk-close rules.
use vstd::prelude::*;

use std::collections::HashMap;

use crate::error::{Error_type, Result_type};
use crate::identifier::{Get_local_file_identifier, Is_task_key, Task_key};
use crate::task::Task_identifier_type;
use crate::types::File_identifier_type;

verus! {

broadcast use vstd::std_specs::hash::group_hash_axioms;

/// Whether `File` is the lowest local identifier of `Task` that is free in
/// the table `Map_view`: the slot the allocator hands out next.
pub open spec fn Is_first_free_file_identifier<T>(
    Map_view: Map<u64, T>,
    Task: Task_identifier_type,
    File: File_identifier_type,
) -> bool {
    &&& !Map_view.contains_key(Task_key(Task, File.0))
    &&& forall|Lower: u16| Lower < File.0 ==> Map_view.contains_key(#[trigger] Task_key(Task, Lower))
}

/// Whether `Value` is the backend resource of some handle of `Task` in the
/// table `Map_view`.
pub open spec fn Is_value_of_task<T>(
    Map_view: Map<u64, T>,
    Task: Task_identifier_type,
    Value: T,
) -> bool {
    exists|Local: u16|
        Map_view.contains_key(#[trigger] Task_key(Task, Local)) && Value == Map_view[Task_key(
            Task,
            Local,
        )]
}

/// The open-handle table of one driver: combined identifier to backend
/// resource. Entries are inserted on open, removed on close; a task's
/// entries all lie in its own 16-bit range of the key space.
pub struct Open_file_table_type<T: Copy> {
    Table: HashMap<u64, T>,
}

impl<T: Copy> View for Open_file_table_type<T> {
    type V = Map<u64, T>;

    closed spec fn view(&self) -> Map<u64, T> {
        self.Table@
    }
}

impl<T: Copy> Open_file_table_type<T> {
    /// An empty table.
    pub fn New() -> (Result: Self)
        ensures
            Result@ == Map::<u64, T>::empty(),
    {
        Open_file_table_type { Table: HashMap::new() }
    }

    /// How many handles are open, over all tasks.
    pub fn Get_count(&self) -> (Result: usize)
        ensures
            Result == self@.dom().len(),
    {
        self.Table.len()
    }

    /// The lowest free local identifier of `Task`, or `None` if the task's
    /// whole 16-bit space is taken.
    pub fn Get_new_file_identifier(&self, Task: Task_identifier_type) -> (Result: Option<
        File_identifier_type,
    >)
        ensures
            match Result {
                Some(File) => Is_first_free_file_identifier(self@, Task, File),
                None => forall|Local: u16| self@.contains_key(#[trigger] Task_key(Task, Local)),
            },
    {
        let mut Local: u32 = 0;
        while Local < 0x10000
            invariant
                Local <= 0x10000,
                forall|Lower: u16|
                    Lower < Local ==> self@.contains_key(#[trigger] Task_key(Task, Lower)),
            decreases 0x10000 - Local,
        {
            let File = File_identifier_type(Local as u16);
            let Key = Get_local_file_identifier(Task, File);
            if !self.Table.contains_key(&Key) {
                return Some(File);
            }
            Local = Local + 1;
        }
        None
    }

    /// Register a backend resource for `Task` under a fresh local
    /// identifier; fails only when the task's identifier space is full.
    pub fn Register_file(&mut self, Task: Task_identifier_type, Value: T) -> (Result: Result_type<
        File_identifier_type,
    >)
        ensures
            match Result {
                Ok(File) => {
                    &&& Is_first_free_file_identifier(old(self)@, Task, File)
                    &&& final(self)@ == old(self)@.insert(Task_key(Task, File.0), Value)
                },
                Err(Error) => {
                    &&& Error == Error_type::Too_many_open_files
                    &&& final(self)@ == old(self)@
                    &&& forall|Local: u16|
                        old(self)@.contains_key(#[trigger] Task_key(Task, Local))
                },
            },
    {
        match self.Get_new_file_identifier(Task) {
            Some(File) => {
                let Key = Get_local_file_identifier(Task, File);
                self.Table.insert(Key, Value);
                Ok(File)
            },
            None => Err(Error_type::Too_many_open_files),
        }
    }

    /// Remove the handle of `Task` named by `File` and hand its backend
    /// resource back.
    pub fn Unregister_file(&mut self, Task: Task_identifier_type, File: File_identifier_type) -> (Result:
        Result_type<T>)
        ensures
            match Result {
                Ok(Value) => {
                    &&& old(self)@.contains_key(Task_key(Task, File.0))
                    &&& Value == old(self)@[Task_key(Task, File.0)]
                    &&& final(self)@ == old(self)@.remove(Task_key(Task, File.0))
                },
                Err(Error) => {
                    &&& Error == Error_type::Invalid_identifier
                    &&& !old(self)@.contains_key(Task_key(Task, File.0))
                    &&& final(self)@ == old(self)@
                },
            },
    {
        let Key = Get_local_file_identifier(Task, File);
        match self.Table.remove(&Key) {
            Some(Value) => Ok(Value),
            None => Err(Error_type::Invalid_identifier),
        }
    }

    /// The backend resource of the handle of `Task` named by `File`.
    pub fn Get(&self, Task: Task_identifier_type, File: File_identifier_type) -> (Result: Option<T>)
        ensures
            match Result {
                Some(Value) => self@.contains_key(Task_key(Task, File.0)) && Value == self@[Task_key(
                    Task,
                    File.0,
                )],
                None => !self@.contains_key(Task_key(Task, File.0)),
            },
    {
        let Key = Get_local_file_identifier(Task, File);
        match self.Table.get(&Key) {
            Some(Value) => Some(*Value),
            None => None,
        }
    }

    /// Replace the backend resource of an existing handle.
    pub fn Update(&mut self, Task: Task_identifier_type, File: File_identifier_type, Value: T) -> (Result:
        Result_type<()>)
        ensures
            match Result {
                Ok(Unit) => {
                    &&& old(self)@.contains_key(Task_key(Task, File.0))
                    &&& final(self)@ == old(self)@.insert(Task_key(Task, File.0), Value)
                },
                Err(Error) => {
                    &&& Error == Error_type::Invalid_identifier
                    &&& !old(self)@.contains_key(Task_key(Task, File.0))
                    &&& final(self)@ == old(self)@
                },
            },
    {
        let Key = Get_local_file_identifier(Task, File);
        if self.Table.contains_key(&Key) {
            self.Table.insert(Key, Value);
            Ok(())
        } else {
            Err(Error_type::Invalid_identifier)
        }
    }

    /// Remove every handle owned by `Task` in one sweep, whatever their
    /// number (possibly none), and hand back the backend resources that
    /// were removed. Handles of every other task are untouched.
    pub fn Close_all(&mut self, Task: Task_identifier_type) -> (Result: Vec<T>)
        ensures
            forall|Local: u16| !final(self)@.contains_key(#[trigger] Task_key(Task, Local)),
            forall|Key: u64|
                !Is_task_key(Task, Key) && old(self)@.contains_key(Key)
                    ==> final(self)@.contains_key(Key) && final(self)@[Key] == old(self)@[Key],
            forall|Key: u64| #[trigger]
                final(self)@.contains_key(Key) ==> old(self)@.contains_key(Key) && final(self)@[Key]
                    == old(self)@[Key] && !Is_task_key(Task, Key),
            forall|Index: int|
                0 <= Index < Result@.len() ==> Is_value_of_task(
                    old(self)@,
                    Task,
                    #[trigger] Result@[Index],
                ),
            forall|Local: u16|
                old(self)@.contains_key(#[trigger] Task_key(Task, Local)) ==> Result@.contains(
                    old(self)@[Task_key(Task, Local)],
                ),
    {
        let Ghost(Original) = Ghost(self@);
        let mut Removed: Vec<T> = Vec::new();
        let mut Local: u32 = 0;
        while Local < 0x10000
            invariant
                Local <= 0x10000,
                forall|Lower: u16|
                    Lower < Local ==> !self@.contains_key(#[trigger] Task_key(Task, Lower)),
                forall|Lower: u16|
                    Lower >= Local && Original.contains_key(#[trigger] Task_key(Task, Lower))
                        ==> self@.contains_key(Task_key(Task, Lower)),
                forall|Key: u64|
                    !Is_task_key(Task, Key) && Original.contains_key(Key) ==> self@.contains_key(
                        Key,
                    ) && self@[Key] == Original[Key],
                forall|Key: u64| #[trigger]
                    self@.contains_key(Key) ==> Original.contains_key(Key) && self@[Key]
                        == Original[Key],
                forall|Index: int|
                    0 <= Index < Removed@.len() ==> Is_value_of_task(
                        Original,
                        Task,
                        #[trigger] Removed@[Index],
                    ),
                forall|Lower: u16|
                    Lower < Local && Original.contains_key(#[trigger] Task_key(Task, Lower))
                        ==> Removed@.contains(Original[Task_key(Task, Lower)]),
            decreases 0x10000 - Local,
        {
            let Ghost(Previous_removed) = Ghost(Removed@);
            let Ghost(Mid) = Ghost(self@);
            let File = File_identifier_type(Local as u16);
            let Key = Get_local_file_identifier(Task, File);
            let Removed_value = self.Table.remove(&Key);
            match Removed_value {
                Some(Value) => {
                    proof {
                        assert(Mid.contains_key(Key) && Value == Mid[Key]);
                        assert(Original.contains_key(Key) && Value == Original[Key]);
                    }
                    Removed.push(Value);
                },
                None => {
                    proof {
                        assert(self@ =~= Mid);
                    }
                },
            }
            proof {
                assert forall|Index: int| 0 <= Index < Removed@.len() implies Is_value_of_task(
                    Original,
                    Task,
                    #[trigger] Removed@[Index],
                ) by {
                    if Index < Previous_removed.len() {
                        assert(Removed@[Index] == Previous_removed[Index]);
                        assert(Is_value_of_task(Original, Task, Previous_removed[Index]));
                    } else {
                        assert(Removed@[Index] == Original[Task_key(Task, Local as u16)]);
                        assert(Original.contains_key(Task_key(Task, Local as u16)));
                    }
                }
                assert forall|Lower: u16|
                    Lower < Local + 1 && Original.contains_key(
                        #[trigger] Task_key(Task, Lower),
                    ) implies Removed@.contains(Original[Task_key(Task, Lower)]) by {
                    if Lower < Local {
                        let Index = choose|Index: int|
                            0 <= Index < Previous_removed.len() && Previous_removed[Index]
                                == Original[Task_key(Task, Lower)];
                        assert(Removed@[Index] == Original[Task_key(Task, Lower)]);
                    } else {
                        assert(Mid.contains_key(Task_key(Task, Lower)));
                        assert(Removed@.len() > 0);
                        assert(Removed@[Removed@.len() - 1] == Original[Task_key(Task, Lower)]);
                    }
                }
            }
            Local = Local + 1;
        }
        proof {
            assert forall|Key: u64| #[trigger]
                self@.contains_key(Key) implies old(self)@.contains_key(Key)
                && self@[Key] == old(self)@[Key] && !Is_task_key(Task, Key) by {
                if Is_task_key(Task, Key) {
                    crate::identifier::Lemma_task_key_covers(Task, Key);
                    let Lower = choose|Lower: u16| Key == #[trigger] Task_key(Task, Lower);
                    assert(!self@.contains_key(Task_key(Task, Lower)));
                }
            }
        }
        Removed
    }

    /// Reassign an open handle from one task to another under a fresh
    /// local identifier of the new task. The fresh identifier is chosen
    /// before the old handle is released, as the allocator's scan sees it.
    pub fn Transfert_file_identifier(
        &mut self,
        Old_task: Task_identifier_type,
        New_task: Task_identifier_type,
        File: File_identifier_type,
    ) -> (Result: Result_type<File_identifier_type>)
        ensures
            match Result {
                Ok(New_file) => {
                    &&& old(self)@.contains_key(Task_key(Old_task, File.0))
                    &&& Is_first_free_file_identifier(old(self)@, New_task, New_file)
                    &&& final(self)@ == old(self)@.remove(Task_key(Old_task, File.0)).insert(
                        Task_key(New_task, New_file.0),
                        old(self)@[Task_key(Old_task, File.0)],
                    )
                },
                Err(Error) => {
                    &&& final(self)@ == old(self)@
                    &&& (Error == Error_type::Too_many_open_files || Error
                        == Error_type::Invalid_identifier)
                    &&& (Error == Error_type::Too_many_open_files <==> forall|Local: u16|
                        old(self)@.contains_key(#[trigger] Task_key(New_task, Local)))
                    &&& (Error == Error_type::Invalid_identifier ==> !old(self)@.contains_key(
                        Task_key(Old_task, File.0),
                    ))
                },
            },
    {
        let New_file = match self.Get_new_file_identifier(New_task) {
            Some(New_file) => New_file,
            None => {
                return Err(Error_type::Too_many_open_files);
            },
        };
        let Value = match self.Unregister_file(Old_task, File) {
            Ok(Value) => Value,
            Err(Error) => {
                return Err(Error);
            },
        };
        let New_key = Get_local_file_identifier(New_task, New_file);
        self.Table.insert(New_key, Value);
        Ok(New_file)
    }
}

} // verus!
