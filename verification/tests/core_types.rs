use xila_vfs::error::{Error_type, Host_error_kind_type};
use xila_vfs::file_system::{File_system_traits, Get_test_path};
use xila_vfs::flags::{Flags_type, Mode_type};
use xila_vfs::identifier::Get_local_file_identifier;
use xila_vfs::memory::File_system_type;
use xila_vfs::path::Path_type;
use xila_vfs::permissions::{Permission_type, Permissions_type};
use xila_vfs::table::Open_file_table_type;
use xila_vfs::task::{Task_identifier_type, Task_type};
use xila_vfs::types::File_identifier_type;

#[test]
fn Combined_identifier_packs_task_and_file() {
    assert_eq!(
        Get_local_file_identifier(Task_identifier_type(1), File_identifier_type(2)),
        0x10002
    );
    assert_eq!(
        Get_local_file_identifier(Task_identifier_type(0), File_identifier_type(0xFFFF)),
        0xFFFF
    );
    assert_eq!(
        Get_local_file_identifier(Task_identifier_type(0xFFFF_FFFF), File_identifier_type(0)),
        0xFFFF_FFFF_0000
    );
}

#[test]
fn Combined_identifiers_do_not_collide_across_tasks() {
    let First = Get_local_file_identifier(Task_identifier_type(1), File_identifier_type(0));
    let Second = Get_local_file_identifier(Task_identifier_type(0), File_identifier_type(1));
    assert_ne!(First, Second);
    let Wide = Get_local_file_identifier(Task_identifier_type(0x10000), File_identifier_type(0));
    let Narrow = Get_local_file_identifier(Task_identifier_type(0), File_identifier_type(0));
    assert_ne!(Wide, Narrow);
}

#[test]
fn Host_errors_map_onto_the_taxonomy_once() {
    assert_eq!(
        Error_type::From_host_error_kind(Host_error_kind_type::Permission_denied),
        Error_type::Permission_denied
    );
    assert_eq!(
        Error_type::From_host_error_kind(Host_error_kind_type::Not_found),
        Error_type::Not_found
    );
    assert_eq!(
        Error_type::From_host_error_kind(Host_error_kind_type::Already_exists),
        Error_type::Already_exists
    );
    assert_eq!(
        Error_type::From_host_error_kind(Host_error_kind_type::Invalid_input),
        Error_type::Invalid_path
    );
    assert_eq!(
        Error_type::From_host_error_kind(Host_error_kind_type::Invalid_data),
        Error_type::Invalid_file
    );
    assert_eq!(
        Error_type::From_host_error_kind(Host_error_kind_type::Other),
        Error_type::Unknown
    );
}

#[test]
fn Full_permissions_convert_to_the_host_octal() {
    assert_eq!(Permissions_type::New_all_full().To_unix(), 0o777);
    let Partial = Permissions_type::New(
        Permission_type::New(true, true, false),
        Permission_type::New(true, false, false),
        Permission_type::New(false, false, true),
    );
    assert_eq!(Partial.To_unix(), 0o641);
}

#[test]
fn Modes_grant_read_and_write() {
    assert!(Mode_type::Read_only.Get_read());
    assert!(!Mode_type::Read_only.Get_write());
    assert!(!Mode_type::Write_only.Get_read());
    assert!(Mode_type::Write_only.Get_write());
    assert!(Mode_type::Read_write.Get_read());
    assert!(Mode_type::Read_write.Get_write());
    let Append = Flags_type::New(Mode_type::Read_only, true);
    assert!(Append.Get_write());
    assert!(Append.Get_append());
}

#[test]
fn Paths_append_join_and_compare() {
    let Root = Path_type::Get_root();
    assert_eq!(Root.Get_length(), 0);
    assert!(Path_type::Get_root().Append("").is_none());
    let Test = Get_test_path();
    assert_eq!(Test.Get_length(), 1);
    assert_eq!(Test.Get_component(0), "test");
    let Deep = Get_test_path().Append("read").unwrap();
    let Joined = Get_test_path().Join(&Path_type::Get_root().Append("read").unwrap());
    assert!(Deep.Equals(&Joined));
    assert!(!Deep.Equals(&Get_test_path()));
    assert_eq!(Deep.Get_parent().Get_length(), 1);
}

#[test]
fn Task_handles_carry_their_identifier() {
    let Task = Task_type::New(Task_identifier_type(9));
    assert_eq!(Task.Get_identifier(), Task_identifier_type(9));
}

#[test]
fn Table_registers_resolves_and_unregisters() {
    let mut Table: Open_file_table_type<u64> = Open_file_table_type::New();
    let Task = Task_identifier_type(4);
    let First = Table.Register_file(Task, 100).unwrap();
    let Second = Table.Register_file(Task, 200).unwrap();
    assert_ne!(First, Second);
    assert_eq!(Table.Get(Task, First), Some(100));
    assert_eq!(Table.Get(Task, Second), Some(200));
    assert_eq!(Table.Get_count(), 2);
    assert_eq!(Table.Unregister_file(Task, First), Ok(100));
    assert_eq!(Table.Get(Task, First), None);
    assert_eq!(
        Table.Unregister_file(Task, First),
        Err(Error_type::Invalid_identifier)
    );
    let Removed = Table.Close_all(Task);
    assert_eq!(Removed, vec![200]);
    assert_eq!(Table.Get_count(), 0);
}

#[test]
fn Table_transfer_moves_the_resource() {
    let mut Table: Open_file_table_type<u64> = Open_file_table_type::New();
    let From = Task_identifier_type(1);
    let To = Task_identifier_type(2);
    let Handle = Table.Register_file(From, 42).unwrap();
    let Moved = Table.Transfert_file_identifier(From, To, Handle).unwrap();
    assert_eq!(Table.Get(From, Handle), None);
    assert_eq!(Table.Get(To, Moved), Some(42));
}

#[test]
fn Trait_default_stubs_grant_everything() {
    let mut File_system = File_system_type::New();
    let Task = Task_identifier_type(1);
    let Path = Path_type::Get_root().Append("anything").unwrap();
    assert_eq!(
        File_system_traits::Get_owner(&File_system, Task, &Path),
        Ok((0, 0))
    );
    assert_eq!(
        File_system_traits::Get_permissions(&File_system, Task, &Path),
        Ok(Permissions_type::New_all_full())
    );
    assert_eq!(
        File_system_traits::Set_owner(&mut File_system, Task, &Path, None, None),
        Ok(())
    );
    assert_eq!(
        File_system_traits::Set_permissions(
            &mut File_system,
            Task,
            &Permissions_type::New_all_full(),
            &Path
        ),
        Ok(())
    );
    assert_eq!(
        <File_system_type as File_system_traits>::Get_local_file_identifier(
            Task_identifier_type(3),
            File_identifier_type(4)
        ),
        0x30004
    );
}

#[test]
fn Virtual_root_base_prefers_the_override() {
    assert_eq!(
        xila_vfs::host::Select_virtual_root_base(
            Some(String::from("/configured")),
            Some(String::from("/current"))
        ),
        Ok(String::from("/configured"))
    );
    assert_eq!(
        xila_vfs::host::Select_virtual_root_base(None, Some(String::from("/current"))),
        Ok(String::from("/current"))
    );
    assert_eq!(
        xila_vfs::host::Select_virtual_root_base(None, None),
        Err(Error_type::Unknown)
    );
    assert_eq!(xila_vfs::host::Get_virtual_root_directory_name(), "Xila");
}

#[test]
fn Root_creation_tolerates_already_exists() {
    assert!(xila_vfs::host::Accept_root_creation(&None));
    assert!(xila_vfs::host::Accept_root_creation(&Some(
        Host_error_kind_type::Already_exists
    )));
    assert!(!xila_vfs::host::Accept_root_creation(&Some(
        Host_error_kind_type::Permission_denied
    )));
}
