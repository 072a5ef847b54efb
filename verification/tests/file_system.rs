use xila_vfs::error::Error_type;
use xila_vfs::file_system::{
    Get_test_path, Reset_test_directory, Test_create_directory_exists, Test_existence,
    Test_file_read, Test_file_write, Test_open_close_file,
};
use xila_vfs::flags::{Flags_type, Mode_type};
use xila_vfs::memory::File_system_type;
use xila_vfs::path::Path_type;
use xila_vfs::task::Task_identifier_type;
use xila_vfs::types::{Position_type, Size_type, Type_type};

fn Test_member(Component: &str) -> Path_type {
    Get_test_path().Append(Component).unwrap()
}

fn Write_whole_file(
    File_system: &mut File_system_type,
    Task: Task_identifier_type,
    Path: &Path_type,
    Content: &[u8],
) {
    File_system.Create_file(Task, Path).unwrap();
    let File = File_system
        .Open(Task, Path, Flags_type::New(Mode_type::Write_only, false))
        .unwrap();
    let Buffer: Vec<u8> = Content.to_vec();
    let Written = File_system.Write(Task, File, &Buffer).unwrap();
    assert_eq!(Written, Size_type(Content.len() as u64));
    File_system.Close(Task, File).unwrap();
}

fn Prepared_file_system() -> File_system_type {
    let Task = Task_identifier_type(1);
    let mut File_system = File_system_type::New();
    assert!(Reset_test_directory(&mut File_system));
    File_system.Create_file(Task, &Test_member("exists")).unwrap();
    File_system.Create_file(Task, &Test_member("read_only")).unwrap();
    File_system.Create_file(Task, &Test_member("write_only")).unwrap();
    File_system.Create_file(Task, &Test_member("read_write")).unwrap();
    Write_whole_file(&mut File_system, Task, &Test_member("read"), b"0123456789\n");
    File_system.Create_file(Task, &Test_member("empty_read")).unwrap();
    File_system.Create_file(Task, &Test_member("write")).unwrap();
    File_system
}

#[test]
fn Conformance_existence() {
    let File_system = Prepared_file_system();
    assert!(Test_existence(&File_system));
}

#[test]
fn Conformance_open_close() {
    let mut File_system = Prepared_file_system();
    assert!(Test_open_close_file(&mut File_system));
}

#[test]
fn Conformance_create_directory() {
    let mut File_system = Prepared_file_system();
    assert!(Test_create_directory_exists(&mut File_system));
}

#[test]
fn Conformance_read() {
    let mut File_system = Prepared_file_system();
    assert!(Test_file_read(&mut File_system));
}

#[test]
fn Conformance_write() {
    let mut File_system = Prepared_file_system();
    assert!(Test_file_write(&mut File_system));
}

#[test]
fn Scenario_read_back_known_content() {
    let Task = Task_identifier_type(1);
    let mut File_system = File_system_type::New();
    File_system
        .Create_directory(Task, &Get_test_path())
        .unwrap();
    Write_whole_file(&mut File_system, Task, &Test_member("read"), b"0123456789\n");
    let Handle = File_system
        .Open(
            Task,
            &Test_member("read"),
            Flags_type::New(Mode_type::Read_only, false),
        )
        .unwrap();
    let mut Buffer: Vec<u8> = vec![0u8; 11];
    let Count = File_system.Read(Task, Handle, &mut Buffer).unwrap();
    assert_eq!(Count, Size_type(11));
    assert_eq!(Buffer, b"0123456789\n".to_vec());
    assert_eq!(
        File_system.Get_size(Task, &Test_member("read")),
        Ok(Size_type(11))
    );
}

#[test]
fn Create_then_exists_then_delete() {
    let Task = Task_identifier_type(1);
    let mut File_system = File_system_type::New();
    let Path = Path_type::Get_root().Append("diary").unwrap();
    assert_eq!(File_system.Exists(&Path), Ok(false));
    File_system.Create_file(Task, &Path).unwrap();
    assert_eq!(File_system.Exists(&Path), Ok(true));
    File_system.Delete(&Path).unwrap();
    assert_eq!(File_system.Exists(&Path), Ok(false));
}

#[test]
fn Open_twice_gives_independent_handles() {
    let Task = Task_identifier_type(1);
    let mut File_system = File_system_type::New();
    let Path = Path_type::Get_root().Append("shared").unwrap();
    Write_whole_file(&mut File_system, Task, &Path, b"abc");
    let Flags = Flags_type::New(Mode_type::Read_only, false);
    let First = File_system.Open(Task, &Path, Flags).unwrap();
    let Second = File_system.Open(Task, &Path, Flags).unwrap();
    assert_ne!(First, Second);
    let mut Buffer: Vec<u8> = vec![0u8; 3];
    assert_eq!(
        File_system.Read(Task, First, &mut Buffer),
        Ok(Size_type(3))
    );
    assert_eq!(Buffer, b"abc".to_vec());
    let mut Other: Vec<u8> = vec![0u8; 3];
    assert_eq!(
        File_system.Read(Task, Second, &mut Other),
        Ok(Size_type(3))
    );
    assert_eq!(Other, b"abc".to_vec());
}

#[test]
fn Opening_missing_path_is_not_found() {
    let Task = Task_identifier_type(1);
    let mut File_system = File_system_type::New();
    let Path = Path_type::Get_root().Append("ghost").unwrap();
    assert_eq!(
        File_system.Open(Task, &Path, Flags_type::New(Mode_type::Read_only, false)),
        Err(Error_type::Not_found)
    );
}

#[test]
fn Creating_twice_already_exists() {
    let Task = Task_identifier_type(1);
    let mut File_system = File_system_type::New();
    let Path = Path_type::Get_root().Append("once").unwrap();
    File_system.Create_file(Task, &Path).unwrap();
    assert_eq!(
        File_system.Create_file(Task, &Path),
        Err(Error_type::Already_exists)
    );
}

#[test]
fn Creating_under_missing_parent_is_not_found() {
    let Task = Task_identifier_type(1);
    let mut File_system = File_system_type::New();
    let Path = Path_type::Get_root()
        .Append("missing")
        .unwrap()
        .Append("child")
        .unwrap();
    assert_eq!(
        File_system.Create_file(Task, &Path),
        Err(Error_type::Not_found)
    );
}

#[test]
fn Creating_the_root_is_an_invalid_path() {
    let Task = Task_identifier_type(1);
    let mut File_system = File_system_type::New();
    assert_eq!(
        File_system.Create_file(Task, &Path_type::Get_root()),
        Err(Error_type::Invalid_path)
    );
}

#[test]
fn Opening_a_directory_is_an_invalid_file() {
    let Task = Task_identifier_type(1);
    let mut File_system = File_system_type::New();
    let Path = Path_type::Get_root().Append("attic").unwrap();
    File_system.Create_directory(Task, &Path).unwrap();
    assert_eq!(
        File_system.Open(Task, &Path, Flags_type::New(Mode_type::Read_only, false)),
        Err(Error_type::Invalid_file)
    );
    assert_eq!(File_system.Delete(&Path), Err(Error_type::Invalid_file));
}

#[test]
fn Reading_a_write_only_handle_is_denied() {
    let Task = Task_identifier_type(1);
    let mut File_system = File_system_type::New();
    let Path = Path_type::Get_root().Append("ledger").unwrap();
    File_system.Create_file(Task, &Path).unwrap();
    let Handle = File_system
        .Open(Task, &Path, Flags_type::New(Mode_type::Write_only, false))
        .unwrap();
    let mut Buffer: Vec<u8> = vec![0u8; 1];
    assert_eq!(
        File_system.Read(Task, Handle, &mut Buffer),
        Err(Error_type::Permission_denied)
    );
    assert_eq!(
        File_system.Write(Task, Handle, &vec![1u8]),
        Ok(Size_type(1))
    );
}

#[test]
fn Close_all_invalidates_previous_handles() {
    let Task = Task_identifier_type(7);
    let Other_task = Task_identifier_type(8);
    let mut File_system = File_system_type::New();
    let Path = Path_type::Get_root().Append("mailbox").unwrap();
    Write_whole_file(&mut File_system, Task, &Path, b"hello");
    let Flags = Flags_type::New(Mode_type::Read_only, false);
    let Mine = File_system.Open(Task, &Path, Flags).unwrap();
    let Theirs = File_system.Open(Other_task, &Path, Flags).unwrap();
    File_system.Close_all(Task).unwrap();
    let mut Buffer: Vec<u8> = vec![0u8; 5];
    assert_eq!(
        File_system.Read(Task, Mine, &mut Buffer),
        Err(Error_type::Invalid_identifier)
    );
    assert_eq!(
        File_system.Close(Task, Mine),
        Err(Error_type::Invalid_identifier)
    );
    assert_eq!(
        File_system.Read(Other_task, Theirs, &mut Buffer),
        Ok(Size_type(5))
    );
    assert_eq!(Buffer, b"hello".to_vec());
}

#[test]
fn Close_all_succeeds_without_handles() {
    let mut File_system = File_system_type::New();
    assert_eq!(File_system.Close_all(Task_identifier_type(3)), Ok(()));
}

#[test]
fn Transferred_handle_reads_the_same_data() {
    let First_task = Task_identifier_type(1);
    let Second_task = Task_identifier_type(2);
    let mut File_system = File_system_type::New();
    let Path = Path_type::Get_root().Append("inherited").unwrap();
    Write_whole_file(&mut File_system, First_task, &Path, b"legacy");
    let Handle = File_system
        .Open(
            First_task,
            &Path,
            Flags_type::New(Mode_type::Read_only, false),
        )
        .unwrap();
    let Transferred = File_system
        .Transfert_file_identifier(First_task, Second_task, Handle)
        .unwrap();
    let mut Buffer: Vec<u8> = vec![0u8; 6];
    assert_eq!(
        File_system.Read(First_task, Handle, &mut Buffer),
        Err(Error_type::Invalid_identifier)
    );
    assert_eq!(
        File_system.Read(Second_task, Transferred, &mut Buffer),
        Ok(Size_type(6))
    );
    assert_eq!(Buffer, b"legacy".to_vec());
}

#[test]
fn Transferring_a_missing_handle_is_refused() {
    let mut File_system = File_system_type::New();
    assert_eq!(
        File_system.Transfert_file_identifier(
            Task_identifier_type(1),
            Task_identifier_type(2),
            xila_vfs::types::File_identifier_type(5),
        ),
        Err(Error_type::Invalid_identifier)
    );
}

#[test]
fn Positions_move_as_asked() {
    let Task = Task_identifier_type(1);
    let mut File_system = File_system_type::New();
    let Path = Path_type::Get_root().Append("tape").unwrap();
    Write_whole_file(&mut File_system, Task, &Path, b"abcdef");
    let Handle = File_system
        .Open(Task, &Path, Flags_type::New(Mode_type::Read_only, false))
        .unwrap();
    assert_eq!(
        File_system.Set_position(Task, Handle, &Position_type::Start(2)),
        Ok(Size_type(2))
    );
    let mut Buffer: Vec<u8> = vec![0u8; 2];
    assert_eq!(File_system.Read(Task, Handle, &mut Buffer), Ok(Size_type(2)));
    assert_eq!(Buffer, b"cd".to_vec());
    assert_eq!(
        File_system.Set_position(Task, Handle, &Position_type::Current(-1)),
        Ok(Size_type(3))
    );
    assert_eq!(
        File_system.Set_position(Task, Handle, &Position_type::End(-2)),
        Ok(Size_type(4))
    );
    assert_eq!(
        File_system.Set_position(Task, Handle, &Position_type::Current(-10)),
        Err(Error_type::Invalid_input)
    );
}

#[test]
fn Appending_writes_at_the_end() {
    let Task = Task_identifier_type(1);
    let mut File_system = File_system_type::New();
    let Path = Path_type::Get_root().Append("log").unwrap();
    Write_whole_file(&mut File_system, Task, &Path, b"one");
    let Handle = File_system
        .Open(Task, &Path, Flags_type::New(Mode_type::Read_only, true))
        .unwrap();
    assert_eq!(
        File_system.Write(Task, Handle, &b"two".to_vec()),
        Ok(Size_type(3))
    );
    assert_eq!(
        File_system.Set_position(Task, Handle, &Position_type::Start(0)),
        Ok(Size_type(0))
    );
    let mut Buffer: Vec<u8> = vec![0u8; 6];
    assert_eq!(File_system.Read(Task, Handle, &mut Buffer), Ok(Size_type(6)));
    assert_eq!(Buffer, b"onetwo".to_vec());
}

#[test]
fn Moving_renames_and_keeps_content() {
    let Task = Task_identifier_type(1);
    let mut File_system = File_system_type::New();
    let From = Path_type::Get_root().Append("old_name").unwrap();
    let To = Path_type::Get_root().Append("new_name").unwrap();
    Write_whole_file(&mut File_system, Task, &From, b"payload");
    File_system.Move(Task, &From, &To).unwrap();
    assert_eq!(File_system.Exists(&From), Ok(false));
    assert_eq!(File_system.Exists(&To), Ok(true));
    assert_eq!(File_system.Get_size(Task, &To), Ok(Size_type(7)));
    assert_eq!(
        File_system.Move(Task, &From, &To),
        Err(Error_type::Not_found)
    );
}

#[test]
fn Types_are_reported() {
    let Task = Task_identifier_type(1);
    let mut File_system = File_system_type::New();
    let Directory = Path_type::Get_root().Append("shelf").unwrap();
    let File = Path_type::Get_root().Append("book").unwrap();
    File_system.Create_directory(Task, &Directory).unwrap();
    File_system.Create_file(Task, &File).unwrap();
    assert_eq!(
        File_system.Get_type(Task, &Directory),
        Ok(Type_type::Directory)
    );
    assert_eq!(File_system.Get_type(Task, &File), Ok(Type_type::File));
    let Ghostly = Path_type::Get_root().Append("ghost").unwrap();
    assert_eq!(
        File_system.Get_type(Task, &Ghostly),
        Err(Error_type::Not_found)
    );
}

#[test]
fn Flush_needs_a_valid_handle() {
    let Task = Task_identifier_type(1);
    let mut File_system = File_system_type::New();
    let Path = Path_type::Get_root().Append("pipe").unwrap();
    File_system.Create_file(Task, &Path).unwrap();
    let Handle = File_system
        .Open(Task, &Path, Flags_type::New(Mode_type::Read_only, false))
        .unwrap();
    assert_eq!(File_system.Flush(Task, Handle), Ok(()));
    File_system.Close(Task, Handle).unwrap();
    assert_eq!(
        File_system.Flush(Task, Handle),
        Err(Error_type::Invalid_identifier)
    );
}

#[test]
fn Law_functions_hold_on_concrete_values() {
    let Task = Task_identifier_type(1);
    let mut File_system = File_system_type::New();
    let Path = Path_type::Get_root().Append("witness").unwrap();

    let (Created, Found) =
        xila_vfs::laws::Law_create_file_then_exists(&mut File_system, Task, &Path);
    assert_eq!(Created, Ok(()));
    assert_eq!(Found, Ok(true));

    let Bytes = b"0123456789".to_vec();
    let (Written, Readback, Size) =
        xila_vfs::laws::Law_write_read_roundtrip(&mut File_system, Task, &Path, &Bytes);
    assert_eq!(Written, Ok(Size_type(10)));
    assert_eq!(Readback, Bytes);
    assert_eq!(Size, Ok(Size_type(10)));

    let (First, Second) =
        xila_vfs::laws::Law_open_twice_independent(&mut File_system, Task, &Path);
    assert!(First.is_ok() && Second.is_ok());
    assert_ne!(First.unwrap(), Second.unwrap());

    let mut Buffer: Vec<u8> = vec![0u8; 4];
    let (Closed, After_close, Close_again) = xila_vfs::laws::Law_close_all_invalidates(
        &mut File_system,
        Task,
        First.unwrap(),
        &mut Buffer,
    );
    assert_eq!(Closed, Ok(()));
    assert_eq!(After_close, Err(Error_type::Invalid_identifier));
    assert_eq!(Close_again, Err(Error_type::Invalid_identifier));

    let (Deleted, Gone) = xila_vfs::laws::Law_delete_then_exists(&mut File_system, &Path);
    assert_eq!(Deleted, Ok(()));
    assert_eq!(Gone, Ok(false));

    let Missing = Path_type::Get_root().Append("nowhere").unwrap();
    assert_eq!(
        xila_vfs::laws::Law_open_missing_not_found(
            &mut File_system,
            Task,
            &Missing,
            Flags_type::New(Mode_type::Read_only, false)
        ),
        Err(Error_type::Not_found)
    );
}

#[test]
fn Law_transfer_observes_the_same_bytes() {
    let First_task = Task_identifier_type(3);
    let Second_task = Task_identifier_type(4);
    let mut File_system = File_system_type::New();
    let Path = Path_type::Get_root().Append("estate").unwrap();
    Write_whole_file(&mut File_system, First_task, &Path, b"deed");
    let Handle = File_system
        .Open(
            First_task,
            &Path,
            Flags_type::New(Mode_type::Read_only, false),
        )
        .unwrap();
    let mut Buffer: Vec<u8> = vec![0u8; 4];
    let (Transferred, Readback) = xila_vfs::laws::Law_transfer_preserves_data(
        &mut File_system,
        First_task,
        Second_task,
        Handle,
        &mut Buffer,
    );
    assert!(Transferred.is_ok());
    assert_eq!(Readback, Ok(Size_type(4)));
    assert_eq!(Buffer, b"deed".to_vec());
}
