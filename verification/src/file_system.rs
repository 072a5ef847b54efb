//! The driver contract: the operation set every backend, file or device,
//! must implement, and the conformance battery that certifies a backend
//! against it without backend-specific tests.
use vstd::prelude::*;

use crate::error::Result_type;
use crate::flags::{Flags_type, Mode_type};
use crate::identifier::Local_file_identifier_spec;
use crate::path::Path_type;
use crate::permissions::Permissions_type;
use crate::task::Task_identifier_type;
use crate::types::{File_identifier_type, Position_type, Size_type, Type_type};
use crate::users::{Group_identifier_type, User_identifier_type};

verus! {

/// The contract every driver implements: files and devices are consumed
/// identically by any caller that only knows these operations. `Is_valid`
/// is the backend's own well-formedness; every operation keeps it.
pub trait File_system_traits: Sized {
    /// The internal consistency of the backend.
    spec fn Is_valid(&self) -> bool;

    /// What the backend's namespace shows under a caller path: whether
    /// anything is there. `Exists` reports it; creation and deletion
    /// change it.
    spec fn Sees(&self, Path: Seq<Seq<char>>) -> bool;

    /// The bytes of the file under a caller path; empty where there is no
    /// file. `Get_size` reports its length; an open handle reads it.
    spec fn Bytes_of(&self, Path: Seq<Seq<char>>) -> Seq<u8>;

    /// The bytes still ahead of an open handle's offset; what `Read`
    /// consumes.
    spec fn Stream_of(&self, Task: Task_identifier_type, File: File_identifier_type) -> Seq<u8>;

    /// Whether something exists under the path. Never errors on a path
    /// that is merely absent.
    fn Exists(&self, Path: &Path_type) -> (Result: Result_type<bool>)
        requires
            self.Is_valid(),
        ensures
            Result matches Ok(Found) ==> Found == self.Sees(Path@),
    ;

    /// Create a file under the path: on success the path was free and now
    /// shows an empty file.
    fn Create_file(&mut self, Task: Task_identifier_type, Path: &Path_type) -> (Result: Result_type<
        (),
    >)
        requires
            old(self).Is_valid(),
        ensures
            final(self).Is_valid(),
            Result is Ok ==> !old(self).Sees(Path@) && final(self).Sees(Path@) && final(self).Bytes_of(Path@) == Seq::<u8>::empty(),
    ;

    /// Create a directory under the path: on success the path was free
    /// and now shows the directory.
    fn Create_directory(&mut self, Task: Task_identifier_type, Path: &Path_type) -> (Result:
        Result_type<()>)
        requires
            old(self).Is_valid(),
        ensures
            final(self).Is_valid(),
            Result is Ok ==> !old(self).Sees(Path@) && final(self).Sees(Path@),
    ;

    /// Open the file under the path for the task, with the given flags:
    /// on success the path was shown, the fresh handle's stream holds the
    /// file's bytes from the start, and the namespace is untouched.
    fn Open(&mut self, Task: Task_identifier_type, Path: &Path_type, Flags: Flags_type) -> (Result:
        Result_type<File_identifier_type>)
        requires
            old(self).Is_valid(),
        ensures
            final(self).Is_valid(),
            Result is Ok ==> old(self).Sees(Path@),
            Result matches Ok(File) ==> final(self).Stream_of(Task, File) == old(self).Bytes_of(
                Path@,
            ),
            forall|Other: Seq<Seq<char>>| (#[trigger] final(self).Sees(Other)) == old(self).Sees(
                Other,
            ),
            forall|Other: Seq<Seq<char>>| (#[trigger] final(self).Bytes_of(Other)) == old(self).Bytes_of(Other),
    ;

    /// Close one handle of the task.
    fn Close(&mut self, Task: Task_identifier_type, File: File_identifier_type) -> (Result:
        Result_type<()>)
        requires
            old(self).Is_valid(),
        ensures
            final(self).Is_valid(),
    ;

    /// Close every handle of the task; succeeds even when it owns none.
    fn Close_all(&mut self, Task: Task_identifier_type) -> (Result: Result_type<()>)
        requires
            old(self).Is_valid(),
        ensures
            final(self).Is_valid(),
    ;

    /// Reassign one open handle from a task to another.
    fn Transfert_file_identifier(
        &mut self,
        Old_task: Task_identifier_type,
        New_task: Task_identifier_type,
        File: File_identifier_type,
    ) -> (Result: Result_type<File_identifier_type>)
        requires
            old(self).Is_valid(),
        ensures
            final(self).Is_valid(),
    ;

    /// Delete the file under the path: on success the path was shown and
    /// no longer is.
    fn Delete(&mut self, Path: &Path_type) -> (Result: Result_type<()>)
        requires
            old(self).Is_valid(),
        ensures
            final(self).Is_valid(),
            Result is Ok ==> old(self).Sees(Path@) && !final(self).Sees(Path@),
    ;

    /// Read through a handle into the front of the buffer: on success the
    /// handle's stream moved into the buffer, as far as either reaches,
    /// and the namespace is untouched.
    fn Read(
        &mut self,
        Task: Task_identifier_type,
        File: File_identifier_type,
        Buffer: &mut Vec<u8>,
    ) -> (Result: Result_type<Size_type>)
        requires
            old(self).Is_valid(),
        ensures
            final(self).Is_valid(),
            Result matches Ok(Count) ==> ({
                let Stream = old(self).Stream_of(Task, File);
                let Taken = if old(Buffer)@.len() <= Stream.len() {
                    old(Buffer)@.len() as int
                } else {
                    Stream.len() as int
                };
                &&& Count.0 == Taken
                &&& final(Buffer)@ == Stream.take(Taken) + old(Buffer)@.skip(Taken)
                &&& final(self).Stream_of(Task, File) == Stream.skip(Taken)
            }),
            forall|Other: Seq<Seq<char>>| (#[trigger] final(self).Sees(Other)) == old(self).Sees(
                Other,
            ),
            forall|Other: Seq<Seq<char>>| (#[trigger] final(self).Bytes_of(Other)) == old(self).Bytes_of(Other),
    ;

    /// Write the buffer through a handle.
    fn Write(
        &mut self,
        Task: Task_identifier_type,
        File: File_identifier_type,
        Buffer: &Vec<u8>,
    ) -> (Result: Result_type<Size_type>)
        requires
            old(self).Is_valid(),
        ensures
            final(self).Is_valid(),
    ;

    /// Move what is under one path to another.
    fn Move(
        &mut self,
        Task: Task_identifier_type,
        Source: &Path_type,
        Destination: &Path_type,
    ) -> (Result: Result_type<()>)
        requires
            old(self).Is_valid(),
        ensures
            final(self).Is_valid(),
    ;

    /// Move the offset of a handle.
    fn Set_position(
        &mut self,
        Task: Task_identifier_type,
        File: File_identifier_type,
        Position: &Position_type,
    ) -> (Result: Result_type<Size_type>)
        requires
            old(self).Is_valid(),
        ensures
            final(self).Is_valid(),
    ;

    /// Flush a handle; a backend with nothing to flush must not error.
    fn Flush(&mut self, Task: Task_identifier_type, File: File_identifier_type) -> (Result:
        Result_type<()>)
        requires
            old(self).Is_valid(),
        ensures
            final(self).Is_valid(),
    ;

    /// The kind of what is under the path.
    fn Get_type(&self, Task: Task_identifier_type, Path: &Path_type) -> (Result: Result_type<
        Type_type,
    >)
        requires
            self.Is_valid(),
    ;

    /// The size of the file under the path: what it reports is the
    /// length of the file's bytes.
    fn Get_size(&self, Task: Task_identifier_type, Path: &Path_type) -> (Result: Result_type<
        Size_type,
    >)
        requires
            self.Is_valid(),
        ensures
            Result matches Ok(Size) ==> self.Sees(Path@) && Size.0 == self.Bytes_of(Path@).len(),
    ;

    /// Set the owner of what is under the path. An extension point: the
    /// default accepts everything until a permission store is wired in.
    fn Set_owner(
        &mut self,
        _Task: Task_identifier_type,
        _Path: &Path_type,
        _User: Option<User_identifier_type>,
        _Group: Option<Group_identifier_type>,
    ) -> (Result: Result_type<()>)
        requires
            old(self).Is_valid(),
        ensures
            final(self).Is_valid(),
    {
        Ok(())
    }

    /// The owner of what is under the path. An extension point: the
    /// default reports the root user and the first group.
    fn Get_owner(&self, _Task: Task_identifier_type, _Path: &Path_type) -> (Result: Result_type<
        (User_identifier_type, Group_identifier_type),
    >)
        requires
            self.Is_valid(),
    {
        Ok((0, 0))
    }

    /// Set the permissions of what is under the path. An extension point:
    /// the default accepts everything.
    fn Set_permissions(
        &mut self,
        _Task: Task_identifier_type,
        _Permissions: &Permissions_type,
        _Path: &Path_type,
    ) -> (Result: Result_type<()>)
        requires
            old(self).Is_valid(),
        ensures
            final(self).Is_valid(),
    {
        Ok(())
    }

    /// The permissions of what is under the path. An extension point: the
    /// default reports full permissions.
    fn Get_permissions(&self, _Task: Task_identifier_type, _Path: &Path_type) -> (Result:
        Result_type<Permissions_type>)
        requires
            self.Is_valid(),
    {
        Ok(Permissions_type::New_all_full())
    }

    /// Combine a task identifier and a file identifier into the one
    /// process-wide identifier every driver keys its handle table with.
    fn Get_local_file_identifier(Task: Task_identifier_type, File: File_identifier_type) -> (Result:
        u64)
        ensures
            Result == Local_file_identifier_spec(Task, File),
    {
        crate::identifier::Get_local_file_identifier(Task, File)
    }
}

/// The conformance directory's path, as a value.
pub open spec fn Test_path_view() -> Seq<Seq<char>> {
    seq!["test"@]
}

/// The path of a member of the conformance directory, as a value.
pub open spec fn Test_member_view(Component: Seq<char>) -> Seq<Seq<char>> {
    seq!["test"@, Component]
}

/// The bytes the conformance file `read` must hold: the ten digits, then
/// a newline.
pub open spec fn Expected_read_content() -> Seq<u8> {
    seq![48u8, 49u8, 50u8, 51u8, 52u8, 53u8, 54u8, 55u8, 56u8, 57u8, 10u8]
}

/// Whether a buffer holds exactly the expected content of `read`.
fn Matches_read_content(Buffer: &Vec<u8>) -> (Result: bool)
    ensures
        Result == (Buffer@ == Expected_read_content()),
{
    if Buffer.len() != 11 {
        proof {
            assert(Buffer@.len() != Expected_read_content().len());
        }
        return false;
    }
    let Matches = Buffer[0] == 48 && Buffer[1] == 49 && Buffer[2] == 50 && Buffer[3] == 51
        && Buffer[4] == 52 && Buffer[5] == 53 && Buffer[6] == 54 && Buffer[7] == 55 && Buffer[8]
        == 56 && Buffer[9] == 57 && Buffer[10] == 10;
    proof {
        if Matches {
            assert(Buffer@ =~= Expected_read_content());
        }
    }
    Matches
}

/// The directory the conformance battery works in.
pub fn Get_test_path() -> (Result: Path_type)
    ensures
        Result@ == Test_path_view(),
{
    proof {
        reveal_strlit("test");
    }
    match Path_type::Get_root().Append("test") {
        Some(Path) => {
            proof {
                assert(Path@ =~= Test_path_view());
            }
            Path
        },
        None => {
            proof {
                assert(false);
            }
            Path_type::Get_root()
        },
    }
}

/// A path inside the conformance directory.
fn Get_test_member_path<'a>(Component: &'a str) -> (Result: Option<Path_type>)
    ensures
        Component@.len() > 0 ==> (Result matches Some(Path) && Path@ == Test_member_view(
            Component@,
        )),
{
    let Result = Get_test_path().Append(Component);
    proof {
        if Component@.len() > 0 {
            assert(Result->Some_0@ =~= Test_member_view(Component@));
        }
    }
    Result
}

/// Wipe and recreate the conformance directory. Part of the battery: run
/// it before the other checks on a backend where `test` does not exist
/// yet or holds only files already deleted. A true result certifies that
/// the backend now shows the conformance directory.
pub fn Reset_test_directory<Backend: File_system_traits>(File_system: &mut Backend) -> (Result:
    bool)
    requires
        old(File_system).Is_valid(),
    ensures
        final(File_system).Is_valid(),
        Result ==> final(File_system).Sees(Test_path_view()),
{
    let Test_path = Get_test_path();
    let _ = File_system.Delete(&Test_path);
    match File_system.Exists(&Test_path) {
        Ok(false) => {},
        _ => {
            return false;
        },
    }
    let Task = Task_identifier_type(1);
    match File_system.Create_directory(Task, &Test_path) {
        Ok(Unit) => {},
        Err(Error) => {
            return false;
        },
    }
    match File_system.Exists(&Test_path) {
        Ok(true) => true,
        _ => false,
    }
}

/// Check existence reporting. A true result certifies that the backend
/// shows the conformance directory and a file named `exists` in it, and
/// shows nothing named `not_exists`.
pub fn Test_existence<Backend: File_system_traits>(File_system: &Backend) -> (Result: bool)
    requires
        File_system.Is_valid(),
    ensures
        Result ==> File_system.Sees(Test_path_view()) && File_system.Sees(
            Test_member_view("exists"@),
        ) && !File_system.Sees(Test_member_view("not_exists"@)),
{
    proof {
        reveal_strlit("exists");
        reveal_strlit("not_exists");
    }
    match File_system.Exists(&Get_test_path()) {
        Ok(true) => {},
        _ => {
            return false;
        },
    }
    let Exists_path = match Get_test_member_path("exists") {
        Some(Path) => Path,
        None => {
            return false;
        },
    };
    match File_system.Exists(&Exists_path) {
        Ok(true) => {},
        _ => {
            return false;
        },
    }
    let Absent_path = match Get_test_member_path("not_exists") {
        Some(Path) => Path,
        None => {
            return false;
        },
    };
    match File_system.Exists(&Absent_path) {
        Ok(false) => true,
        _ => false,
    }
}

/// Check opening and closing: `read_only`, `write_only` and `read_write`
/// must open under their modes — `read_only` twice, since handles on one
/// path are independent — and every handle must close. A true result
/// certifies that the backend showed all three files.
pub fn Test_open_close_file<Backend: File_system_traits>(File_system: &mut Backend) -> (Result:
    bool)
    requires
        old(File_system).Is_valid(),
    ensures
        final(File_system).Is_valid(),
        Result ==> old(File_system).Sees(Test_member_view("read_only"@)) && old(File_system).Sees(
            Test_member_view("write_only"@),
        ) && old(File_system).Sees(Test_member_view("read_write"@)),
{
    proof {
        reveal_strlit("read_only");
        reveal_strlit("write_only");
        reveal_strlit("read_write");
    }
    let Task = Task_identifier_type(1);
    let Read_only_path = match Get_test_member_path("read_only") {
        Some(Path) => Path,
        None => {
            return false;
        },
    };
    let Read_only = match File_system.Open(
        Task,
        &Read_only_path,
        Flags_type::New(Mode_type::Read_only, false),
    ) {
        Ok(File) => File,
        Err(Error) => {
            return false;
        },
    };
    let Read_only_again = match File_system.Open(
        Task,
        &Read_only_path,
        Flags_type::New(Mode_type::Read_only, false),
    ) {
        Ok(File) => File,
        Err(Error) => {
            return false;
        },
    };
    let Write_only_path = match Get_test_member_path("write_only") {
        Some(Path) => Path,
        None => {
            return false;
        },
    };
    let Write_only = match File_system.Open(
        Task,
        &Write_only_path,
        Flags_type::New(Mode_type::Write_only, false),
    ) {
        Ok(File) => File,
        Err(Error) => {
            return false;
        },
    };
    let Read_write_path = match Get_test_member_path("read_write") {
        Some(Path) => Path,
        None => {
            return false;
        },
    };
    let Read_write = match File_system.Open(
        Task,
        &Read_write_path,
        Flags_type::New(Mode_type::Read_write, false),
    ) {
        Ok(File) => File,
        Err(Error) => {
            return false;
        },
    };
    if File_system.Close(Task, Read_only).is_err() {
        return false;
    }
    if File_system.Close(Task, Read_only_again).is_err() {
        return false;
    }
    if File_system.Close(Task, Write_only).is_err() {
        return false;
    }
    if File_system.Close(Task, Read_write).is_err() {
        return false;
    }
    true
}

/// Check directory creation: `test_dir` must not exist, then exist once
/// created. A true result certifies exactly that of the backend.
pub fn Test_create_directory_exists<Backend: File_system_traits>(
    File_system: &mut Backend,
) -> (Result: bool)
    requires
        old(File_system).Is_valid(),
    ensures
        final(File_system).Is_valid(),
        Result ==> !old(File_system).Sees(Test_member_view("test_dir"@)) && final(File_system).Sees(Test_member_view("test_dir"@)),
{
    proof {
        reveal_strlit("test_dir");
    }
    let Task = Task_identifier_type(1);
    let New_path = match Get_test_member_path("test_dir") {
        Some(Path) => Path,
        None => {
            return false;
        },
    };
    match File_system.Exists(&New_path) {
        Ok(false) => {},
        _ => {
            return false;
        },
    }
    if File_system.Create_directory(Task, &New_path).is_err() {
        return false;
    }
    match File_system.Exists(&New_path) {
        Ok(true) => true,
        _ => false,
    }
}

/// Check reading: `read` must hold the eleven expected bytes and
/// `empty_read` must hold nothing; the reported sizes must agree. A true
/// result certifies that the backend held exactly those contents.
pub fn Test_file_read<Backend: File_system_traits>(File_system: &mut Backend) -> (Result: bool)
    requires
        old(File_system).Is_valid(),
    ensures
        final(File_system).Is_valid(),
        Result ==> ({
            &&& old(File_system).Sees(Test_member_view("read"@))
            &&& old(File_system).Bytes_of(Test_member_view("read"@)) == Expected_read_content()
            &&& old(File_system).Sees(Test_member_view("empty_read"@))
            &&& old(File_system).Bytes_of(Test_member_view("empty_read"@)) == Seq::<u8>::empty()
        }),
{
    proof {
        reveal_strlit("read");
        reveal_strlit("empty_read");
    }
    let Task = Task_identifier_type(1);
    let Read_path = match Get_test_member_path("read") {
        Some(Path) => Path,
        None => {
            return false;
        },
    };
    let Read_file = match File_system.Open(
        Task,
        &Read_path,
        Flags_type::New(Mode_type::Read_only, false),
    ) {
        Ok(File) => File,
        Err(Error) => {
            return false;
        },
    };
    let Ghost(Read_stream) = Ghost(old(File_system).Bytes_of(Test_member_view("read"@)));
    let mut Buffer: Vec<u8> = vec![0u8; 11];
    let Size = match File_system.Read(Task, Read_file, &mut Buffer) {
        Ok(Size) => Size,
        Err(Error) => {
            return false;
        },
    };
    if Size.0 != 11 {
        return false;
    }
    proof {
        assert(Read_stream.len() >= 11);
        assert(Buffer@ =~= Read_stream.take(11));
    }
    if !Matches_read_content(&Buffer) {
        return false;
    }
    match File_system.Get_size(Task, &Read_path) {
        Ok(Size_type(11u64)) => {},
        _ => {
            return false;
        },
    }
    proof {
        assert(Read_stream =~= Expected_read_content());
    }
    let Empty_path = match Get_test_member_path("empty_read") {
        Some(Path) => Path,
        None => {
            return false;
        },
    };
    let Empty_file = match File_system.Open(
        Task,
        &Empty_path,
        Flags_type::New(Mode_type::Read_only, false),
    ) {
        Ok(File) => File,
        Err(Error) => {
            return false;
        },
    };
    let mut Small_buffer: Vec<u8> = vec![0u8; 1];
    match File_system.Read(Task, Empty_file, &mut Small_buffer) {
        Ok(Size_type(0u64)) => {},
        _ => {
            return false;
        },
    }
    proof {
        assert(old(File_system).Bytes_of(Test_member_view("empty_read"@)) =~= Seq::<u8>::empty());
    }
    match File_system.Get_size(Task, &Empty_path) {
        Ok(Size_type(0u64)) => true,
        _ => false,
    }
}

/// Check writing: eleven bytes written to `write` must be reported
/// written and must be the file's size afterwards. A true result
/// certifies that the backend now shows `write` holding eleven bytes.
pub fn Test_file_write<Backend: File_system_traits>(File_system: &mut Backend) -> (Result: bool)
    requires
        old(File_system).Is_valid(),
    ensures
        final(File_system).Is_valid(),
        Result ==> final(File_system).Sees(Test_member_view("write"@)) && final(File_system).Bytes_of(Test_member_view("write"@)).len() == 11,
{
    proof {
        reveal_strlit("write");
    }
    let Task = Task_identifier_type(1);
    let Write_path = match Get_test_member_path("write") {
        Some(Path) => Path,
        None => {
            return false;
        },
    };
    let Write_file = match File_system.Open(
        Task,
        &Write_path,
        Flags_type::New(Mode_type::Write_only, false),
    ) {
        Ok(File) => File,
        Err(Error) => {
            return false;
        },
    };
    let Buffer: Vec<u8> = vec![48u8, 49, 50, 51, 52, 53, 54, 55, 56, 57, 10];
    match File_system.Write(Task, Write_file, &Buffer) {
        Ok(Size_type(11u64)) => {},
        _ => {
            return false;
        },
    }
    match File_system.Get_size(Task, &Write_path) {
        Ok(Size_type(11u64)) => true,
        _ => false,
    }
}

} // verus!
