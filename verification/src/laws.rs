//! Laws of the driver contract, proved once and for all against the
//! reference driver's specifications: each function here performs the
//! operations it speaks of, and its contract states what must come out.
use vstd::prelude::*;

use crate::error::{Error_type, Result_type};
use crate::flags::{Flags_type, Mode_type};
use crate::identifier::Task_key;
use crate::memory::{Entry_at, File_system_type, Has_entry, Read_result, Write_result};
use crate::path::Path_type;
use crate::task::Task_identifier_type;
use crate::types::{File_identifier_type, Position_type, Size_type, Type_type};

verus! {

/// Law: opening the same path twice read-only succeeds twice, and the
/// two handles are independent: distinct identifiers, each with its own
/// offset at zero. Holds whenever the path names a file and the task has
/// at least two local identifiers free.
pub fn Law_open_twice_independent(
    File_system: &mut File_system_type,
    Task: Task_identifier_type,
    Path: &Path_type,
) -> (Result: (Result_type<File_identifier_type>, Result_type<File_identifier_type>))
    requires
        old(File_system).Is_well_formed(),
        Has_entry(old(File_system).Namespace(), old(File_system).Full_path(Path@)),
        Entry_at(old(File_system).Namespace(), old(File_system).Full_path(Path@)).Kind
            == Type_type::File,
        exists|First: u16, Second: u16|
            First != Second && !old(File_system).Handles().contains_key(
                #[trigger] Task_key(Task, First),
            ) && !old(File_system).Handles().contains_key(#[trigger] Task_key(Task, Second)),
    ensures
        ({
            &&& Result.0 matches Ok(First)
            &&& Result.1 matches Ok(Second)
            &&& (Result.0 matches Ok(First) && Result.1 matches Ok(Second) ==> {
                &&& First != Second
                &&& final(File_system).Handles().contains_key(Task_key(Task, First.0))
                &&& final(File_system).Handles().contains_key(Task_key(Task, Second.0))
                &&& final(File_system).Handles()[Task_key(Task, First.0)].Position == 0
                &&& final(File_system).Handles()[Task_key(Task, Second.0)].Position == 0
            })
        }),
{
    let Flags = Flags_type::New(Mode_type::Read_only, false);
    let First = File_system.Open(Task, Path, Flags);
    proof {
        let (Free_1, Free_2) = choose|First: u16, Second: u16|
            First != Second && !old(File_system).Handles().contains_key(
                #[trigger] Task_key(Task, First),
            ) && !old(File_system).Handles().contains_key(#[trigger] Task_key(Task, Second));
        assert(First is Ok);
        let Taken = First->Ok_0;
        if Taken.0 != Free_1 {
            assert(!File_system.Handles().contains_key(Task_key(Task, Free_1)));
            crate::identifier::Lemma_local_file_identifier_injective(
                Task,
                File_identifier_type(Free_1),
                Task,
                Taken,
            );
        } else {
            assert(!File_system.Handles().contains_key(Task_key(Task, Free_2)));
            crate::identifier::Lemma_local_file_identifier_injective(
                Task,
                File_identifier_type(Free_2),
                Task,
                Taken,
            );
        }
    }
    let Second = File_system.Open(Task, Path, Flags);
    proof {
        assert(Second is Ok);
        let First_file = First->Ok_0;
        let Second_file = Second->Ok_0;
        assert(!old(File_system).Handles().insert(
            Task_key(Task, First_file.0),
            final(File_system).Handles()[Task_key(Task, First_file.0)],
        ).contains_key(Task_key(Task, Second_file.0)));
        crate::identifier::Lemma_local_file_identifier_injective(
            Task,
            First_file,
            Task,
            Second_file,
        );
    }
    (First, Second)
}

/// Law: opening a path with nothing under it fails with `Not_found`, and
/// the file system is untouched.
pub fn Law_open_missing_not_found(
    File_system: &mut File_system_type,
    Task: Task_identifier_type,
    Path: &Path_type,
    Flags: Flags_type,
) -> (Result: Result_type<File_identifier_type>)
    requires
        old(File_system).Is_well_formed(),
        !Has_entry(old(File_system).Namespace(), old(File_system).Full_path(Path@)),
    ensures
        Result == Result_type::<File_identifier_type>::Err(Error_type::Not_found),
        final(File_system).Namespace() == old(File_system).Namespace(),
        final(File_system).Contents() == old(File_system).Contents(),
        final(File_system).Handles() == old(File_system).Handles(),
{
    File_system.Open(Task, Path, Flags)
}

/// Law: after a successful `Create_file`, `Exists` reports the path.
pub fn Law_create_file_then_exists(
    File_system: &mut File_system_type,
    Task: Task_identifier_type,
    Path: &Path_type,
) -> (Result: (Result_type<()>, Result_type<bool>))
    requires
        old(File_system).Is_well_formed(),
    ensures
        Result.0 is Ok ==> Result.1 == Result_type::<bool>::Ok(true),
{
    let Created = File_system.Create_file(Task, Path);
    let Found = File_system.Exists(Path);
    (Created, Found)
}

/// Law: after a successful `Delete`, `Exists` no longer reports the path.
pub fn Law_delete_then_exists(File_system: &mut File_system_type, Path: &Path_type) -> (Result: (
    Result_type<()>,
    Result_type<bool>,
))
    requires
        old(File_system).Is_well_formed(),
    ensures
        Result.0 is Ok ==> Result.1 == Result_type::<bool>::Ok(false),
{
    let Deleted = File_system.Delete(Path);
    let Found = File_system.Exists(Path);
    (Deleted, Found)
}

/// Law: writing bytes to a fresh, empty file and reading them back from
/// offset zero returns exactly those bytes, and the size reported for
/// the file is exactly their number. Holds whenever the path names an
/// empty file and the task has a local identifier free.
pub fn Law_write_read_roundtrip(
    File_system: &mut File_system_type,
    Task: Task_identifier_type,
    Path: &Path_type,
    Bytes: &Vec<u8>,
) -> (Result: (Result_type<Size_type>, Vec<u8>, Result_type<Size_type>))
    requires
        old(File_system).Is_well_formed(),
        Has_entry(old(File_system).Namespace(), old(File_system).Full_path(Path@)),
        Entry_at(old(File_system).Namespace(), old(File_system).Full_path(Path@)).Kind
            == Type_type::File,
        old(File_system).Contents()[Entry_at(
            old(File_system).Namespace(),
            old(File_system).Full_path(Path@),
        ).Inode].len() == 0,
        exists|Free: u16|
            !old(File_system).Handles().contains_key(#[trigger] Task_key(Task, Free)),
    ensures
        Result.0 == Result_type::<Size_type>::Ok(Size_type(Bytes@.len() as u64)),
        Result.1@ == Bytes@,
        Result.2 == Result_type::<Size_type>::Ok(Size_type(Bytes@.len() as u64)),
{
    let Byte_count = Bytes.len();
    let Flags = Flags_type::New(Mode_type::Read_write, false);
    let File = match File_system.Open(Task, Path, Flags) {
        Ok(File) => File,
        Err(Error) => {
            proof {
                let Free = choose|Free: u16|
                    !old(File_system).Handles().contains_key(#[trigger] Task_key(Task, Free));
                assert(false);
            }
            File_identifier_type(0)
        },
    };
    let Ghost(Opened) = Ghost(*File_system);
    let Written = File_system.Write(Task, File, Bytes);
    proof {
        let Key = Task_key(Task, File.0);
        let Inode = Entry_at(
            old(File_system).Namespace(),
            old(File_system).Full_path(Path@),
        ).Inode;
        assert(Opened.Handles().contains_key(Key));
        assert(Opened.Handles()[Key].Flags.Allows_write());
        assert(Opened.Handles()[Key].Position == 0);
        assert(Opened.Handles()[Key].Inode == Inode);
        assert(Opened.Contents()[Inode].len() == 0);
        assert(Opened.Contents()[Inode] =~= Seq::<u8>::empty());
        assert(Written == Result_type::<Size_type>::Ok(Size_type(Bytes@.len() as u64)));
        assert(Write_result(Seq::<u8>::empty(), 0, Bytes@) =~= Bytes@);
    }
    let Position = Position_type::Start(0);
    let Moved = File_system.Set_position(Task, File, &Position);
    proof {
        assert(Moved is Ok);
    }
    let mut Buffer: Vec<u8> = vec![0u8; Bytes.len()];
    let Readback = File_system.Read(Task, File, &mut Buffer);
    proof {
        let Inode = Entry_at(
            old(File_system).Namespace(),
            old(File_system).Full_path(Path@),
        ).Inode;
        assert(Read_result(Bytes@, 0, Bytes@.len() as nat) =~= Bytes@);
        assert(Buffer@ =~= Bytes@);
    }
    let Size = File_system.Get_size(Task, Path);
    proof {
        crate::memory::Lemma_entry_is_unique(
            File_system.Namespace(),
            crate::memory::Entry_index(old(File_system).Namespace(), old(File_system).Full_path(Path@)),
            old(File_system).Full_path(Path@),
        );
    }
    (Readback, Buffer, Size)
}

/// Law: after `Close_all` on a task, any operation through one of its
/// previously valid handles fails with `Invalid_identifier`, whatever the
/// handle was.
pub fn Law_close_all_invalidates(
    File_system: &mut File_system_type,
    Task: Task_identifier_type,
    File: File_identifier_type,
    Buffer: &mut Vec<u8>,
) -> (Result: (Result_type<()>, Result_type<Size_type>, Result_type<()>))
    requires
        old(File_system).Is_well_formed(),
    ensures
        Result.0 is Ok,
        Result.1 == Result_type::<Size_type>::Err(Error_type::Invalid_identifier),
        Result.2 == Result_type::<()>::Err(Error_type::Invalid_identifier),
{
    let Closed = File_system.Close_all(Task);
    let Readback = File_system.Read(Task, File, Buffer);
    let Closed_again = File_system.Close(Task, File);
    (Closed, Readback, Closed_again)
}

/// Law: a handle transferred from one task to another keeps its inode,
/// its offset and its flags, so a read under the new task observes the
/// same underlying data the old task would have observed. Holds whenever
/// the handle exists, is readable, and the new task has a local
/// identifier free.
pub fn Law_transfer_preserves_data(
    File_system: &mut File_system_type,
    Old_task: Task_identifier_type,
    New_task: Task_identifier_type,
    File: File_identifier_type,
    Buffer: &mut Vec<u8>,
) -> (Result: (Result_type<File_identifier_type>, Result_type<Size_type>))
    requires
        old(File_system).Is_well_formed(),
        old(File_system).Handles().contains_key(Task_key(Old_task, File.0)),
        old(File_system).Handles()[Task_key(Old_task, File.0)].Flags.Allows_read(),
        exists|Free: u16|
            !old(File_system).Handles().contains_key(#[trigger] Task_key(New_task, Free)),
    ensures
        ({
            let Handle = old(File_system).Handles()[Task_key(Old_task, File.0)];
            let Data = old(File_system).Contents()[Handle.Inode];
            let Bytes = Read_result(Data, Handle.Position, old(Buffer)@.len());
            &&& Result.0 is Ok
            &&& Result.1 == Result_type::<Size_type>::Ok(Size_type(Bytes.len() as u64))
            &&& final(Buffer)@ == Bytes + old(Buffer)@.skip(Bytes.len() as int)
        }),
{
    let Transferred = File_system.Transfert_file_identifier(Old_task, New_task, File);
    let New_file = match Transferred {
        Ok(New_file) => New_file,
        Err(Error) => {
            proof {
                let Free = choose|Free: u16|
                    !old(File_system).Handles().contains_key(#[trigger] Task_key(New_task, Free));
                assert(false);
            }
            File_identifier_type(0)
        },
    };
    let Readback = File_system.Read(New_task, New_file, Buffer);
    (Ok(New_file), Readback)
}

} // verus!
