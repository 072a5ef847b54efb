//! The reference driver: a complete file system held in memory, one
//! namespace of full paths, one content store keyed by inode, and the
//! shared handle multiplexer. Every operation of the driver contract is
//! implemented and specified here; host-backed drivers apply the same
//! table and path rules around their own backend.
use vstd::prelude::*;

use std::collections::HashMap;

use crate::error::{Error_type, Result_type};
use crate::flags::Flags_type;
use crate::identifier::Task_key;
use crate::path::Path_type;
use crate::table::{Is_first_free_file_identifier, Open_file_table_type};
use crate::task::Task_identifier_type;
use crate::types::{File_identifier_type, Position_type, Size_type, Type_type};

verus! {

broadcast use vstd::std_specs::hash::group_hash_axioms;

/// One open handle: the inode it reads and writes, the offset it is at,
/// and the flags it was opened with.
#[derive(Clone, Copy, Debug, PartialEq, Eq, Structural)]
pub struct Handle_type {
    pub Inode: u64,
    pub Position: u64,
    pub Flags: Flags_type,
}

/// One entry of the namespace: a full path, what it is, and the inode its
/// content lives under (meaningful for files only).
pub struct Entry_type {
    pub Path: Path_type,
    pub Kind: Type_type,
    pub Inode: u64,
}

/// Whether the namespace holds an entry under the given full path.
pub open spec fn Has_entry(Namespace: Seq<Entry_type>, Path_view: Seq<Seq<char>>) -> bool {
    exists|Index: int| 0 <= Index < Namespace.len() && Namespace[Index].Path@ == Path_view
}

/// The index of the entry under the given full path.
pub open spec fn Entry_index(Namespace: Seq<Entry_type>, Path_view: Seq<Seq<char>>) -> int {
    choose|Index: int| 0 <= Index < Namespace.len() && Namespace[Index].Path@ == Path_view
}

/// The entry under the given full path.
pub open spec fn Entry_at(Namespace: Seq<Entry_type>, Path_view: Seq<Seq<char>>) -> Entry_type {
    Namespace[Entry_index(Namespace, Path_view)]
}

/// What a read returns: the bytes from the offset up to the requested
/// count, cut at the end of the data; a read past the end returns nothing.
pub open spec fn Read_result(Data: Seq<u8>, Position: u64, Count: nat) -> Seq<u8> {
    if Position <= Data.len() {
        if Position + Count <= Data.len() {
            Data.subrange(Position as int, Position + Count)
        } else {
            Data.subrange(Position as int, Data.len() as int)
        }
    } else {
        Seq::<u8>::empty()
    }
}

/// What the data of a file becomes when bytes are written at an offset:
/// the bytes overwrite in place and extend the data past its end; an
/// offset beyond the end first fills the gap with zeroes.
pub open spec fn Write_result(Data: Seq<u8>, Position: u64, Bytes: Seq<u8>) -> Seq<u8> {
    if Position <= Data.len() {
        if Position + Bytes.len() <= Data.len() {
            Data.take(Position as int) + Bytes + Data.skip(Position + Bytes.len())
        } else {
            Data.take(Position as int) + Bytes
        }
    } else {
        Data + Seq::new((Position - Data.len()) as nat, |Index: int| 0u8) + Bytes
    }
}

/// The in-memory file system.
pub struct File_system_type {
    Virtual_root_path: Path_type,
    Entries: Vec<Entry_type>,
    Data: HashMap<u64, Vec<u8>>,
    Open_files: Open_file_table_type<Handle_type>,
    Next_inode: u64,
}

impl File_system_type {
    /// The namespace: every entry the file system holds, full paths.
    pub closed spec fn Namespace(self) -> Seq<Entry_type> {
        self.Entries@
    }

    /// The content store: the bytes of every file, by inode.
    pub closed spec fn Contents(self) -> Map<u64, Seq<u8>> {
        self.Data@.map_values(|Bytes: Vec<u8>| Bytes@)
    }

    /// The open handles, by combined task-and-file identifier.
    pub closed spec fn Handles(self) -> Map<u64, Handle_type> {
        self.Open_files@
    }

    /// The virtual root every caller path is resolved under.
    pub closed spec fn Root(self) -> Seq<Seq<char>> {
        self.Virtual_root_path@
    }

    /// The next inode the file system will hand out.
    pub closed spec fn Fresh_inode(self) -> u64 {
        self.Next_inode
    }

    /// The full path of a caller path: the virtual root, then the path.
    pub open spec fn Full_path(self, Path_view: Seq<Seq<char>>) -> Seq<Seq<char>> {
        self.Root() + Path_view
    }

    /// Whether the parent of a full path exists: either the path hangs
    /// directly under the root, or its parent is a directory entry.
    pub open spec fn Parent_exists(self, Full: Seq<Seq<char>>) -> bool {
        ||| Full.len() == self.Root().len() + 1
        ||| (Has_entry(self.Namespace(), Full.drop_last()) && Entry_at(
            self.Namespace(),
            Full.drop_last(),
        ).Kind == Type_type::Directory)
    }

    /// The internal consistency of the file system: paths are unique in
    /// the namespace, every file entry and every open handle names stored
    /// content, and no stored inode reaches the next fresh one.
    pub open spec fn Is_well_formed(self) -> bool {
        &&& forall|First: int, Second: int|
            0 <= First < Second < self.Namespace().len() ==> self.Namespace()[First].Path@ != self.Namespace()[Second].Path@
        &&& forall|Index: int|
            0 <= Index < self.Namespace().len() && self.Namespace()[Index].Kind == Type_type::File
                ==> self.Contents().contains_key(self.Namespace()[Index].Inode)
        &&& forall|Index: int|
            0 <= Index < self.Namespace().len() ==> self.Namespace()[Index].Inode
                < self.Fresh_inode()
        &&& forall|Key: u64| #[trigger]
            self.Handles().contains_key(Key) ==> self.Contents().contains_key(
                self.Handles()[Key].Inode,
            )
        &&& forall|Inode: u64| #[trigger]
            self.Contents().contains_key(Inode) ==> Inode < self.Fresh_inode()
    }

    /// A fresh file system: an empty namespace under an empty virtual
    /// root, no content, no open handle.
    pub fn New() -> (Result: Self)
        ensures
            Result.Is_well_formed(),
            Result.Namespace() == Seq::<Entry_type>::empty(),
            Result.Contents() == Map::<u64, Seq<u8>>::empty(),
            Result.Handles() == Map::<u64, Handle_type>::empty(),
            Result.Root() == Seq::<Seq<char>>::empty(),
            Result.Fresh_inode() == 0,
    {
        let File_system = File_system_type {
            Virtual_root_path: Path_type::Get_root(),
            Entries: Vec::new(),
            Data: HashMap::new(),
            Open_files: Open_file_table_type::New(),
            Next_inode: 0,
        };
        proof {
            assert(File_system.Contents() =~= Map::<u64, Seq<u8>>::empty());
        }
        File_system
    }

    /// The caller path prefixed with the virtual root.
    fn Resolve(&self, Path: &Path_type) -> (Result: Path_type)
        ensures
            Result@ == self.Full_path(Path@),
    {
        self.Virtual_root_path.Duplicate().Join(Path)
    }

    /// The caller path prefixed with the virtual root. Paths are held as
    /// component lists, so resolution cannot fail.
    pub fn Get_full_path(&self, Path: &Path_type) -> (Result: Result_type<Path_type>)
        ensures
            Result matches Ok(Full) && Full@ == self.Full_path(Path@),
    {
        Ok(self.Resolve(Path))
    }

    /// The index of the entry under the given full path, if any.
    fn Find_entry(&self, Full: &Path_type) -> (Result: Option<usize>)
        ensures
            match Result {
                Some(Index) => Index < self.Namespace().len() && self.Namespace()[Index as int].Path@
                    == Full@ && Has_entry(self.Namespace(), Full@),
                None => !Has_entry(self.Namespace(), Full@),
            },
    {
        let mut Index: usize = 0;
        while Index < self.Entries.len()
            invariant
                Index <= self.Entries.len(),
                forall|Position: int|
                    0 <= Position < Index ==> self.Namespace()[Position].Path@ != Full@,
            decreases self.Entries.len() - Index,
        {
            if self.Entries[Index].Path.Equals(Full) {
                return Some(Index);
            }
            Index = Index + 1;
        }
        None
    }
}

impl File_system_type {
    /// Whether the parent of a full path exists, as `Parent_exists` says.
    fn Check_parent(&self, Full: &Path_type) -> (Result: bool)
        requires
            self.Is_well_formed(),
            Full@.len() > 0,
        ensures
            Result == self.Parent_exists(Full@),
    {
        let Root_length = self.Virtual_root_path.Get_length();
        let Full_length = Full.Get_length();
        if Root_length < usize::MAX && Full_length == Root_length + 1 {
            return true;
        }
        proof {
            assert(Full@.len() != self.Root().len() + 1);
        }
        let Parent = Full.Duplicate().Get_parent();
        match self.Find_entry(&Parent) {
            Some(Index) => {
                proof {
                    Lemma_entry_is_unique(self.Namespace(), Index as int, Parent@);
                }
                match self.Entries[Index].Kind {
                    Type_type::Directory => true,
                    _ => false,
                }
            },
            None => false,
        }
    }

    /// Whether an entry lies under the given caller path. Never errors on
    /// a path that is merely absent.
    pub fn Exists(&self, Path: &Path_type) -> (Result: Result_type<bool>)
        ensures
            Result matches Ok(Found) && Found == Has_entry(
                self.Namespace(),
                self.Full_path(Path@),
            ),
    {
        let Full = self.Resolve(Path);
        match self.Find_entry(&Full) {
            Some(Index) => Ok(true),
            None => Ok(false),
        }
    }

    /// The kind of the entry under the given caller path.
    pub fn Get_type(&self, _Task: Task_identifier_type, Path: &Path_type) -> (Result: Result_type<
        Type_type,
    >)
        requires
            self.Is_well_formed(),
        ensures
            ({
                let Full = self.Full_path(Path@);
                match Result {
                    Ok(Kind) => Has_entry(self.Namespace(), Full) && Kind == Entry_at(
                        self.Namespace(),
                        Full,
                    ).Kind,
                    Err(Error) => Error == Error_type::Not_found && !Has_entry(
                        self.Namespace(),
                        Full,
                    ),
                }
            }),
    {
        let Full = self.Resolve(Path);
        match self.Find_entry(&Full) {
            Some(Index) => {
                proof {
                    Lemma_entry_is_unique(self.Namespace(), Index as int, Full@);
                }
                Ok(self.Entries[Index].Kind)
            },
            None => Err(Error_type::Not_found),
        }
    }

    /// The size of the file under the given caller path; a directory or a
    /// link reports size zero.
    pub fn Get_size(&self, _Task: Task_identifier_type, Path: &Path_type) -> (Result: Result_type<
        Size_type,
    >)
        requires
            self.Is_well_formed(),
        ensures
            ({
                let Full = self.Full_path(Path@);
                match Result {
                    Ok(Size) => {
                        &&& Has_entry(self.Namespace(), Full)
                        &&& (Entry_at(self.Namespace(), Full).Kind == Type_type::File ==> Size.0
                            == self.Contents()[Entry_at(self.Namespace(), Full).Inode].len())
                        &&& (Entry_at(self.Namespace(), Full).Kind != Type_type::File ==> Size.0
                            == 0)
                    },
                    Err(Error) => Error == Error_type::Not_found && !Has_entry(
                        self.Namespace(),
                        Full,
                    ),
                }
            }),
    {
        let Full = self.Resolve(Path);
        match self.Find_entry(&Full) {
            Some(Index) => {
                proof {
                    Lemma_entry_is_unique(self.Namespace(), Index as int, Full@);
                }
                match self.Entries[Index].Kind {
                    Type_type::File => {
                        match self.Data.get(&self.Entries[Index].Inode) {
                            Some(Bytes) => Ok(Size_type(Bytes.len() as u64)),
                            None => {
                                proof {
                                    assert(false);
                                }
                                Err(Error_type::Internal_error)
                            },
                        }
                    },
                    _ => Ok(Size_type(0)),
                }
            },
            None => Err(Error_type::Not_found),
        }
    }

    /// Add an entry of the given kind under a caller path: the common work
    /// of file and directory creation.
    fn Create_entry(&mut self, Path: &Path_type, Kind: Type_type) -> (Result: Result_type<()>)
        requires
            old(self).Is_well_formed(),
            Kind == Type_type::File || Kind == Type_type::Directory,
        ensures
            final(self).Is_well_formed(),
            final(self).Root() == old(self).Root(),
            final(self).Handles() == old(self).Handles(),
            ({
                let Full = old(self).Full_path(Path@);
                match Result {
                    Ok(Unit) => {
                        &&& Path@.len() > 0
                        &&& !Has_entry(old(self).Namespace(), Full)
                        &&& old(self).Parent_exists(Full)
                        &&& old(self).Fresh_inode() < u64::MAX
                        &&& final(self).Namespace().len() == old(self).Namespace().len() + 1
                        &&& final(self).Namespace().drop_last() == old(self).Namespace()
                        &&& final(self).Namespace().last().Path@ == Full
                        &&& final(self).Namespace().last().Kind == Kind
                        &&& final(self).Namespace().last().Inode == old(self).Fresh_inode()
                        &&& (Kind == Type_type::File ==> final(self).Contents() == old(
                            self,
                        ).Contents().insert(old(self).Fresh_inode(), Seq::<u8>::empty()))
                        &&& (Kind == Type_type::Directory ==> final(self).Contents() == old(
                            self,
                        ).Contents())
                    },
                    Err(Error) => {
                        &&& *final(self) == *old(self)
                        &&& (Error == Error_type::Invalid_path || Error
                            == Error_type::Already_exists || Error == Error_type::Not_found
                            || Error == Error_type::Internal_error)
                        &&& (Error == Error_type::Invalid_path <==> Path@.len() == 0)
                        &&& (Error == Error_type::Already_exists <==> Path@.len() > 0 && Has_entry(
                            old(self).Namespace(),
                            Full,
                        ))
                        &&& (Error == Error_type::Not_found <==> Path@.len() > 0 && !Has_entry(
                            old(self).Namespace(),
                            Full,
                        ) && !old(self).Parent_exists(Full))
                        &&& (Error == Error_type::Internal_error <==> Path@.len() > 0 && !Has_entry(
                            old(self).Namespace(),
                            Full,
                        ) && old(self).Parent_exists(Full) && old(self).Fresh_inode() == u64::MAX)
                    },
                }
            }),
    {
        if Path.Get_length() == 0 {
            return Err(Error_type::Invalid_path);
        }
        let Full = self.Resolve(Path);
        match self.Find_entry(&Full) {
            Some(Index) => {
                return Err(Error_type::Already_exists);
            },
            None => {},
        }
        if !self.Check_parent(&Full) {
            return Err(Error_type::Not_found);
        }
        if self.Next_inode == u64::MAX {
            return Err(Error_type::Internal_error);
        }
        let Ghost(Old_self) = Ghost(*self);
        let Inode = self.Next_inode;
        self.Next_inode = self.Next_inode + 1;
        let Is_file = match Kind {
            Type_type::File => true,
            _ => false,
        };
        self.Entries.push(Entry_type { Path: Full, Kind, Inode });
        if Is_file {
            self.Data.insert(Inode, Vec::new());
        }
        proof {
            assert(self.Namespace().drop_last() =~= Old_self.Namespace());
            if Is_file {
                assert(self.Contents() =~= Old_self.Contents().insert(Inode, Seq::<u8>::empty()));
            } else {
                assert(self.Contents() =~= Old_self.Contents());
            }
            assert forall|First: int, Second: int|
                0 <= First < Second < self.Namespace().len() implies self.Namespace()[First].Path@
                != self.Namespace()[Second].Path@ by {
                if Second == self.Namespace().len() - 1 {
                    assert(self.Namespace()[First] == Old_self.Namespace()[First]);
                }
            }
        }
        Ok(())
    }

    /// Create an empty file under the given caller path.
    pub fn Create_file(&mut self, _Task: Task_identifier_type, Path: &Path_type) -> (Result:
        Result_type<()>)
        requires
            old(self).Is_well_formed(),
        ensures
            final(self).Is_well_formed(),
            final(self).Root() == old(self).Root(),
            final(self).Handles() == old(self).Handles(),
            ({
                let Full = old(self).Full_path(Path@);
                match Result {
                    Ok(Unit) => {
                        &&& Path@.len() > 0
                        &&& !Has_entry(old(self).Namespace(), Full)
                        &&& old(self).Parent_exists(Full)
                        &&& final(self).Namespace().len() == old(self).Namespace().len() + 1
                        &&& final(self).Namespace().drop_last() == old(self).Namespace()
                        &&& final(self).Namespace().last().Path@ == Full
                        &&& final(self).Namespace().last().Kind == Type_type::File
                        &&& final(self).Namespace().last().Inode == old(self).Fresh_inode()
                        &&& final(self).Contents() == old(self).Contents().insert(
                            old(self).Fresh_inode(),
                            Seq::<u8>::empty(),
                        )
                        &&& Has_entry(final(self).Namespace(), Full)
                    },
                    Err(Error) => {
                        &&& *final(self) == *old(self)
                        &&& (Error == Error_type::Invalid_path || Error
                            == Error_type::Already_exists || Error == Error_type::Not_found
                            || Error == Error_type::Internal_error)
                        &&& (Error == Error_type::Invalid_path <==> Path@.len() == 0)
                        &&& (Error == Error_type::Already_exists <==> Path@.len() > 0 && Has_entry(
                            old(self).Namespace(),
                            Full,
                        ))
                        &&& (Error == Error_type::Not_found <==> Path@.len() > 0 && !Has_entry(
                            old(self).Namespace(),
                            Full,
                        ) && !old(self).Parent_exists(Full))
                        &&& (Error == Error_type::Internal_error <==> Path@.len() > 0 && !Has_entry(
                            old(self).Namespace(),
                            Full,
                        ) && old(self).Parent_exists(Full) && old(self).Fresh_inode() == u64::MAX)
                    },
                }
            }),
    {
        let Result = self.Create_entry(Path, Type_type::File);
        proof {
            if Result is Ok {
                let Full = old(self).Full_path(Path@);
                assert(self.Namespace()[self.Namespace().len() - 1].Path@ == Full);
            }
        }
        Result
    }

    /// Create a directory under the given caller path.
    pub fn Create_directory(&mut self, _Task: Task_identifier_type, Path: &Path_type) -> (Result:
        Result_type<()>)
        requires
            old(self).Is_well_formed(),
        ensures
            final(self).Is_well_formed(),
            final(self).Root() == old(self).Root(),
            final(self).Handles() == old(self).Handles(),
            final(self).Contents() == old(self).Contents(),
            ({
                let Full = old(self).Full_path(Path@);
                match Result {
                    Ok(Unit) => {
                        &&& Path@.len() > 0
                        &&& !Has_entry(old(self).Namespace(), Full)
                        &&& old(self).Parent_exists(Full)
                        &&& final(self).Namespace().len() == old(self).Namespace().len() + 1
                        &&& final(self).Namespace().drop_last() == old(self).Namespace()
                        &&& final(self).Namespace().last().Path@ == Full
                        &&& final(self).Namespace().last().Kind == Type_type::Directory
                        &&& Has_entry(final(self).Namespace(), Full)
                    },
                    Err(Error) => {
                        &&& *final(self) == *old(self)
                        &&& (Error == Error_type::Invalid_path || Error
                            == Error_type::Already_exists || Error == Error_type::Not_found
                            || Error == Error_type::Internal_error)
                        &&& (Error == Error_type::Invalid_path <==> Path@.len() == 0)
                        &&& (Error == Error_type::Already_exists <==> Path@.len() > 0 && Has_entry(
                            old(self).Namespace(),
                            Full,
                        ))
                        &&& (Error == Error_type::Not_found <==> Path@.len() > 0 && !Has_entry(
                            old(self).Namespace(),
                            Full,
                        ) && !old(self).Parent_exists(Full))
                        &&& (Error == Error_type::Internal_error <==> Path@.len() > 0 && !Has_entry(
                            old(self).Namespace(),
                            Full,
                        ) && old(self).Parent_exists(Full) && old(self).Fresh_inode() == u64::MAX)
                    },
                }
            }),
    {
        let Result = self.Create_entry(Path, Type_type::Directory);
        proof {
            if Result is Ok {
                let Full = old(self).Full_path(Path@);
                assert(self.Namespace()[self.Namespace().len() - 1].Path@ == Full);
            }
        }
        Result
    }

    /// Remove the file under the given caller path from the namespace.
    /// Only files are deleted this way; content stays reachable through
    /// handles that are still open.
    pub fn Delete(&mut self, Path: &Path_type) -> (Result: Result_type<()>)
        requires
            old(self).Is_well_formed(),
        ensures
            final(self).Is_well_formed(),
            final(self).Root() == old(self).Root(),
            final(self).Handles() == old(self).Handles(),
            final(self).Contents() == old(self).Contents(),
            ({
                let Full = old(self).Full_path(Path@);
                match Result {
                    Ok(Unit) => {
                        &&& Has_entry(old(self).Namespace(), Full)
                        &&& Entry_at(old(self).Namespace(), Full).Kind == Type_type::File
                        &&& final(self).Namespace() == old(self).Namespace().remove(
                            Entry_index(old(self).Namespace(), Full),
                        )
                        &&& !Has_entry(final(self).Namespace(), Full)
                    },
                    Err(Error) => {
                        &&& *final(self) == *old(self)
                        &&& (Error == Error_type::Not_found || Error == Error_type::Invalid_file)
                        &&& (Error == Error_type::Not_found <==> !Has_entry(
                            old(self).Namespace(),
                            Full,
                        ))
                        &&& (Error == Error_type::Invalid_file <==> Has_entry(
                            old(self).Namespace(),
                            Full,
                        ) && Entry_at(old(self).Namespace(), Full).Kind != Type_type::File)
                    },
                }
            }),
    {
        let Full = self.Resolve(Path);
        let Index = match self.Find_entry(&Full) {
            Some(Index) => Index,
            None => {
                return Err(Error_type::Not_found);
            },
        };
        proof {
            Lemma_entry_is_unique(self.Namespace(), Index as int, Full@);
        }
        match self.Entries[Index].Kind {
            Type_type::File => {},
            _ => {
                return Err(Error_type::Invalid_file);
            },
        }
        let Ghost(Old_self) = Ghost(*self);
        self.Entries.remove(Index);
        proof {
            assert forall|Position: int|
                0 <= Position < self.Namespace().len() implies self.Namespace()[Position].Path@
                != Full@ by {
                if Position < Index {
                    assert(self.Namespace()[Position] == Old_self.Namespace()[Position]);
                } else {
                    assert(self.Namespace()[Position] == Old_self.Namespace()[Position + 1]);
                }
            }
            assert forall|First: int, Second: int|
                0 <= First < Second < self.Namespace().len() implies self.Namespace()[First].Path@
                != self.Namespace()[Second].Path@ by {
                let Old_first = if First < Index {
                    First
                } else {
                    First + 1
                };
                let Old_second = if Second < Index {
                    Second
                } else {
                    Second + 1
                };
                assert(self.Namespace()[First] == Old_self.Namespace()[Old_first]);
                assert(self.Namespace()[Second] == Old_self.Namespace()[Old_second]);
            }
        }
        Ok(())
    }

    /// Move the entry under `Source` to `Destination`, keeping its kind
    /// and content. The destination must not be taken.
    pub fn Move(
        &mut self,
        _Task: Task_identifier_type,
        Source: &Path_type,
        Destination: &Path_type,
    ) -> (Result: Result_type<()>)
        requires
            old(self).Is_well_formed(),
        ensures
            final(self).Is_well_formed(),
            final(self).Root() == old(self).Root(),
            final(self).Handles() == old(self).Handles(),
            final(self).Contents() == old(self).Contents(),
            ({
                let From = old(self).Full_path(Source@);
                let To = old(self).Full_path(Destination@);
                match Result {
                    Ok(Unit) => {
                        &&& Has_entry(old(self).Namespace(), From)
                        &&& !Has_entry(old(self).Namespace(), To)
                        &&& final(self).Namespace().len() == old(self).Namespace().len()
                        &&& forall|Position: int|
                            0 <= Position < old(self).Namespace().len() && Position != Entry_index(
                                old(self).Namespace(),
                                From,
                            ) ==> final(self).Namespace()[Position] == old(self).Namespace()[
                                Position
                            ]
                        &&& final(self).Namespace()[Entry_index(old(self).Namespace(), From)].Path@
                            == To
                        &&& final(self).Namespace()[Entry_index(old(self).Namespace(), From)].Kind
                            == Entry_at(old(self).Namespace(), From).Kind
                        &&& final(self).Namespace()[Entry_index(old(self).Namespace(), From)].Inode
                            == Entry_at(old(self).Namespace(), From).Inode
                    },
                    Err(Error) => {
                        &&& *final(self) == *old(self)
                        &&& (Error == Error_type::Not_found || Error == Error_type::Already_exists)
                        &&& (Error == Error_type::Not_found <==> !Has_entry(
                            old(self).Namespace(),
                            From,
                        ))
                        &&& (Error == Error_type::Already_exists <==> Has_entry(
                            old(self).Namespace(),
                            From,
                        ) && Has_entry(old(self).Namespace(), To))
                    },
                }
            }),
    {
        let From = self.Resolve(Source);
        let To = self.Resolve(Destination);
        let Index = match self.Find_entry(&From) {
            Some(Index) => Index,
            None => {
                return Err(Error_type::Not_found);
            },
        };
        proof {
            Lemma_entry_is_unique(self.Namespace(), Index as int, From@);
        }
        match self.Find_entry(&To) {
            Some(Taken) => {
                return Err(Error_type::Already_exists);
            },
            None => {},
        }
        let Ghost(Old_self) = Ghost(*self);
        let Kind = self.Entries[Index].Kind;
        let Inode = self.Entries[Index].Inode;
        self.Entries[Index] = Entry_type { Path: To, Kind, Inode };
        proof {
            assert forall|First: int, Second: int|
                0 <= First < Second < self.Namespace().len() implies self.Namespace()[First].Path@
                != self.Namespace()[Second].Path@ by {
                if First != Index && Second != Index {
                    assert(self.Namespace()[First] == Old_self.Namespace()[First]);
                    assert(self.Namespace()[Second] == Old_self.Namespace()[Second]);
                }
            }
        }
        Ok(())
    }
}

impl File_system_type {
    /// Open the file under the given caller path for `Task` with the
    /// given flags; a fresh local identifier names the handle.
    pub fn Open(
        &mut self,
        Task: Task_identifier_type,
        Path: &Path_type,
        Flags: Flags_type,
    ) -> (Result: Result_type<File_identifier_type>)
        requires
            old(self).Is_well_formed(),
        ensures
            final(self).Is_well_formed(),
            final(self).Root() == old(self).Root(),
            final(self).Namespace() == old(self).Namespace(),
            final(self).Contents() == old(self).Contents(),
            ({
                let Full = old(self).Full_path(Path@);
                match Result {
                    Ok(File) => {
                        &&& Has_entry(old(self).Namespace(), Full)
                        &&& Entry_at(old(self).Namespace(), Full).Kind == Type_type::File
                        &&& Is_first_free_file_identifier(old(self).Handles(), Task, File)
                        &&& final(self).Handles() == old(self).Handles().insert(
                            Task_key(Task, File.0),
                            Handle_type {
                                Inode: Entry_at(old(self).Namespace(), Full).Inode,
                                Position: 0,
                                Flags,
                            },
                        )
                    },
                    Err(Error) => {
                        &&& final(self).Handles() == old(self).Handles()
                        &&& (Error == Error_type::Not_found || Error == Error_type::Invalid_file
                            || Error == Error_type::Too_many_open_files)
                        &&& (Error == Error_type::Not_found <==> !Has_entry(
                            old(self).Namespace(),
                            Full,
                        ))
                        &&& (Error == Error_type::Invalid_file <==> Has_entry(
                            old(self).Namespace(),
                            Full,
                        ) && Entry_at(old(self).Namespace(), Full).Kind != Type_type::File)
                        &&& (Error == Error_type::Too_many_open_files <==> Has_entry(
                            old(self).Namespace(),
                            Full,
                        ) && Entry_at(old(self).Namespace(), Full).Kind == Type_type::File
                            && forall|Local: u16|
                            old(self).Handles().contains_key(#[trigger] Task_key(Task, Local)))
                    },
                }
            }),
    {
        let Full = self.Resolve(Path);
        let Index = match self.Find_entry(&Full) {
            Some(Index) => Index,
            None => {
                return Err(Error_type::Not_found);
            },
        };
        proof {
            Lemma_entry_is_unique(self.Namespace(), Index as int, Full@);
        }
        let Inode = match self.Entries[Index].Kind {
            Type_type::File => self.Entries[Index].Inode,
            _ => {
                return Err(Error_type::Invalid_file);
            },
        };
        let Handle = Handle_type { Inode, Position: 0, Flags };
        match self.Open_files.Register_file(Task, Handle) {
            Ok(File) => Ok(File),
            Err(Error) => Err(Error),
        }
    }

    /// Close the handle of `Task` named by `File`.
    pub fn Close(&mut self, Task: Task_identifier_type, File: File_identifier_type) -> (Result:
        Result_type<()>)
        requires
            old(self).Is_well_formed(),
        ensures
            final(self).Is_well_formed(),
            final(self).Root() == old(self).Root(),
            final(self).Namespace() == old(self).Namespace(),
            final(self).Contents() == old(self).Contents(),
            match Result {
                Ok(Unit) => {
                    &&& old(self).Handles().contains_key(Task_key(Task, File.0))
                    &&& final(self).Handles() == old(self).Handles().remove(Task_key(Task, File.0))
                },
                Err(Error) => {
                    &&& Error == Error_type::Invalid_identifier
                    &&& !old(self).Handles().contains_key(Task_key(Task, File.0))
                    &&& final(self).Handles() == old(self).Handles()
                },
            },
    {
        match self.Open_files.Unregister_file(Task, File) {
            Ok(Handle) => Ok(()),
            Err(Error) => Err(Error),
        }
    }

    /// Close every handle `Task` owns, in one sweep; succeeds even when
    /// the task owns none. Handles of other tasks are untouched.
    pub fn Close_all(&mut self, Task: Task_identifier_type) -> (Result: Result_type<()>)
        requires
            old(self).Is_well_formed(),
        ensures
            final(self).Is_well_formed(),
            final(self).Root() == old(self).Root(),
            final(self).Namespace() == old(self).Namespace(),
            final(self).Contents() == old(self).Contents(),
            Result is Ok,
            forall|Local: u16| !final(self).Handles().contains_key(#[trigger] Task_key(Task, Local)),
            forall|Key: u64|
                !crate::identifier::Is_task_key(Task, Key) && old(self).Handles().contains_key(Key)
                    ==> final(self).Handles().contains_key(Key) && final(self).Handles()[Key]
                    == old(self).Handles()[Key],
            forall|Key: u64| #[trigger]
                final(self).Handles().contains_key(Key) ==> old(self).Handles().contains_key(Key)
                    && final(self).Handles()[Key] == old(self).Handles()[Key]
                    && !crate::identifier::Is_task_key(Task, Key),
    {
        let Removed = self.Open_files.Close_all(Task);
        proof {
            assert(self.Contents() =~= old(self).Contents());
            assert forall|Key: u64| #[trigger]
                self.Handles().contains_key(Key) implies self.Contents().contains_key(
                self.Handles()[Key].Inode,
            ) by {
                assert(old(self).Handles().contains_key(Key));
            }
            assert forall|Inode: u64| #[trigger]
                self.Contents().contains_key(Inode) implies Inode < self.Fresh_inode() by {
                assert(old(self).Contents().contains_key(Inode));
            }
        }
        Ok(())
    }

    /// Succeed without work: the in-memory store has nothing to flush,
    /// but the handle must be valid.
    pub fn Flush(&mut self, Task: Task_identifier_type, File: File_identifier_type) -> (Result:
        Result_type<()>)
        requires
            old(self).Is_well_formed(),
        ensures
            *final(self) == *old(self),
            final(self).Is_well_formed(),
            match Result {
                Ok(Unit) => old(self).Handles().contains_key(Task_key(Task, File.0)),
                Err(Error) => Error == Error_type::Invalid_identifier && !old(
                    self,
                ).Handles().contains_key(Task_key(Task, File.0)),
            },
    {
        match self.Open_files.Get(Task, File) {
            Some(Handle) => Ok(()),
            None => Err(Error_type::Invalid_identifier),
        }
    }

    /// Reassign the handle `File` of `Old_task` to `New_task` under a
    /// fresh local identifier of the new task; the handle keeps its
    /// inode, offset and flags.
    pub fn Transfert_file_identifier(
        &mut self,
        Old_task: Task_identifier_type,
        New_task: Task_identifier_type,
        File: File_identifier_type,
    ) -> (Result: Result_type<File_identifier_type>)
        requires
            old(self).Is_well_formed(),
        ensures
            final(self).Is_well_formed(),
            final(self).Root() == old(self).Root(),
            final(self).Namespace() == old(self).Namespace(),
            final(self).Contents() == old(self).Contents(),
            match Result {
                Ok(New_file) => {
                    &&& old(self).Handles().contains_key(Task_key(Old_task, File.0))
                    &&& Is_first_free_file_identifier(old(self).Handles(), New_task, New_file)
                    &&& final(self).Handles() == old(self).Handles().remove(
                        Task_key(Old_task, File.0),
                    ).insert(
                        Task_key(New_task, New_file.0),
                        old(self).Handles()[Task_key(Old_task, File.0)],
                    )
                },
                Err(Error) => {
                    &&& final(self).Handles() == old(self).Handles()
                    &&& (Error == Error_type::Too_many_open_files || Error
                        == Error_type::Invalid_identifier)
                    &&& (Error == Error_type::Too_many_open_files <==> forall|Local: u16|
                        old(self).Handles().contains_key(#[trigger] Task_key(New_task, Local)))
                    &&& (Error == Error_type::Invalid_identifier ==> !old(
                        self,
                    ).Handles().contains_key(Task_key(Old_task, File.0)))
                },
            },
    {
        self.Open_files.Transfert_file_identifier(Old_task, New_task, File)
    }
}

impl File_system_type {
    /// Read from the handle of `Task` named by `File` into the front of
    /// `Buffer`, at most as many bytes as the buffer holds, and advance
    /// the handle's offset by what was read.
    pub fn Read(
        &mut self,
        Task: Task_identifier_type,
        File: File_identifier_type,
        Buffer: &mut Vec<u8>,
    ) -> (Result: Result_type<Size_type>)
        requires
            old(self).Is_well_formed(),
        ensures
            final(self).Is_well_formed(),
            final(self).Root() == old(self).Root(),
            final(self).Namespace() == old(self).Namespace(),
            final(self).Contents() == old(self).Contents(),
            ({
                let Key = Task_key(Task, File.0);
                match Result {
                    Ok(Count) => {
                        &&& old(self).Handles().contains_key(Key)
                        &&& old(self).Handles()[Key].Flags.Allows_read()
                        &&& ({
                            let Handle = old(self).Handles()[Key];
                            let Data = old(self).Contents()[Handle.Inode];
                            let Bytes = Read_result(Data, Handle.Position, old(Buffer)@.len());
                            &&& Count.0 == Bytes.len()
                            &&& final(Buffer)@ == Bytes + old(Buffer)@.skip(Bytes.len() as int)
                            &&& final(self).Handles() == old(self).Handles().insert(
                                Key,
                                Handle_type {
                                    Inode: Handle.Inode,
                                    Position: (Handle.Position + Bytes.len()) as u64,
                                    Flags: Handle.Flags,
                                },
                            )
                        })
                    },
                    Err(Error) => {
                        &&& final(self).Handles() == old(self).Handles()
                        &&& final(Buffer)@ == old(Buffer)@
                        &&& (Error == Error_type::Invalid_identifier || Error
                            == Error_type::Permission_denied)
                        &&& (Error == Error_type::Invalid_identifier <==> !old(
                            self,
                        ).Handles().contains_key(Key))
                        &&& (Error == Error_type::Permission_denied <==> old(
                            self,
                        ).Handles().contains_key(Key) && !old(
                            self,
                        ).Handles()[Key].Flags.Allows_read())
                    },
                }
            }),
    {
        let Handle = match self.Open_files.Get(Task, File) {
            Some(Handle) => Handle,
            None => {
                return Err(Error_type::Invalid_identifier);
            },
        };
        if !Handle.Flags.Get_read() {
            return Err(Error_type::Permission_denied);
        }
        let Ghost(Old_buffer) = Ghost(Buffer@);
        let Data = match self.Data.get(&Handle.Inode) {
            Some(Data) => Data,
            None => {
                proof {
                    assert(false);
                }
                return Err(Error_type::Internal_error);
            },
        };
        let Length = Data.len();
        let Position = Handle.Position;
        let Past_end = Position > (Length as u64);
        let Offset: usize = if Past_end {
            0
        } else {
            Position as usize
        };
        let Count: usize = if Past_end {
            0
        } else {
            let Available = Length - Offset;
            if Buffer.len() < Available {
                Buffer.len()
            } else {
                Available
            }
        };
        let mut Index: usize = 0;
        while Index < Count
            invariant
                Index <= Count,
                Count <= Buffer@.len(),
                Offset + Count <= Data@.len(),
                Data@.len() <= usize::MAX,
                Buffer@.len() == Old_buffer.len(),
                forall|Position_k: int|
                    0 <= Position_k < Index ==> Buffer@[Position_k] == Data@[Offset + Position_k],
                forall|Position_k: int|
                    Index <= Position_k < Buffer@.len() ==> Buffer@[Position_k] == Old_buffer[
                        Position_k
                    ],
            decreases Count - Index,
        {
            let Byte = Data[Offset + Index];
            Buffer[Index] = Byte;
            Index = Index + 1;
        }
        let Ghost(Read_bytes) = Ghost(
            Read_result(self.Contents()[Handle.Inode], Handle.Position, Old_buffer.len()),
        );
        proof {
            assert(Read_bytes.len() == Count);
            assert(Buffer@ =~= Read_bytes + Old_buffer.skip(Count as int));
        }
        let New_handle = Handle_type {
            Inode: Handle.Inode,
            Position: Position + (Count as u64),
            Flags: Handle.Flags,
        };
        match self.Open_files.Update(Task, File, New_handle) {
            Ok(Unit) => {},
            Err(Error) => {
                proof {
                    assert(false);
                }
                return Err(Error);
            },
        }
        Ok(Size_type(Count as u64))
    }

    /// Write the bytes of `Buffer` through the handle of `Task` named by
    /// `File` at its offset (at the end of the file when the handle is in
    /// append mode), and advance the offset past them.
    pub fn Write(
        &mut self,
        Task: Task_identifier_type,
        File: File_identifier_type,
        Buffer: &Vec<u8>,
    ) -> (Result: Result_type<Size_type>)
        requires
            old(self).Is_well_formed(),
        ensures
            final(self).Is_well_formed(),
            final(self).Root() == old(self).Root(),
            final(self).Namespace() == old(self).Namespace(),
            ({
                let Key = Task_key(Task, File.0);
                let Handle = old(self).Handles()[Key];
                let Data = old(self).Contents()[Handle.Inode];
                let Position: u64 = if Handle.Flags.Append {
                    Data.len() as u64
                } else {
                    Handle.Position
                };
                match Result {
                    Ok(Count) => {
                        &&& old(self).Handles().contains_key(Key)
                        &&& Handle.Flags.Allows_write()
                        &&& Position + Buffer@.len() <= usize::MAX
                        &&& Count.0 == Buffer@.len()
                        &&& final(self).Contents() == old(self).Contents().insert(
                            Handle.Inode,
                            Write_result(Data, Position, Buffer@),
                        )
                        &&& final(self).Handles() == old(self).Handles().insert(
                            Key,
                            Handle_type {
                                Inode: Handle.Inode,
                                Position: (Position + Buffer@.len()) as u64,
                                Flags: Handle.Flags,
                            },
                        )
                    },
                    Err(Error) => {
                        &&& final(self).Contents() == old(self).Contents()
                        &&& final(self).Handles() == old(self).Handles()
                        &&& (Error == Error_type::Invalid_identifier || Error
                            == Error_type::Permission_denied || Error == Error_type::Invalid_input)
                        &&& (Error == Error_type::Invalid_identifier <==> !old(
                            self,
                        ).Handles().contains_key(Key))
                        &&& (Error == Error_type::Permission_denied <==> old(
                            self,
                        ).Handles().contains_key(Key) && !Handle.Flags.Allows_write())
                        &&& (Error == Error_type::Invalid_input <==> old(
                            self,
                        ).Handles().contains_key(Key) && Handle.Flags.Allows_write() && Position
                            + Buffer@.len() > usize::MAX)
                    },
                }
            }),
    {
        let Handle = match self.Open_files.Get(Task, File) {
            Some(Handle) => Handle,
            None => {
                return Err(Error_type::Invalid_identifier);
            },
        };
        if !Handle.Flags.Get_write() {
            return Err(Error_type::Permission_denied);
        }
        let Data_vec = match self.Data.remove(&Handle.Inode) {
            Some(Data_vec) => Data_vec,
            None => {
                proof {
                    assert(false);
                }
                return Err(Error_type::Internal_error);
            },
        };
        let Ghost(Old_data) = Ghost(Data_vec@);
        let Position: u64 = if Handle.Flags.Get_append() {
            Data_vec.len() as u64
        } else {
            Handle.Position
        };
        let Count = Buffer.len();
        if Position > (usize::MAX as u64) - (Count as u64) {
            self.Data.insert(Handle.Inode, Data_vec);
            proof {
                assert(self.Data@ =~= old(self).Data@);
                assert(self.Contents() =~= old(self).Contents());
            }
            return Err(Error_type::Invalid_input);
        }
        let Target = Position as usize;
        let Prefix: usize = if Target < Data_vec.len() {
            Target
        } else {
            Data_vec.len()
        };
        let mut Out: Vec<u8> = Vec::new();
        let mut Index: usize = 0;
        while Index < Prefix
            invariant
                Index <= Prefix,
                Prefix <= Data_vec@.len(),
                Data_vec@.len() <= usize::MAX,
                Out@ =~= Data_vec@.take(Index as int),
            decreases Prefix - Index,
        {
            Out.push(Data_vec[Index]);
            Index = Index + 1;
            proof {
                assert(Out@ =~= Data_vec@.take(Index as int));
            }
        }
        while Out.len() < Target
            invariant
                Prefix <= Out@.len(),
                Out@.len() <= Target || Out@.len() == Prefix,
                Prefix <= Target,
                Out@.take(Prefix as int) =~= Data_vec@.take(Prefix as int),
                forall|Position_k: int| Prefix <= Position_k < Out@.len() ==> Out@[Position_k] == 0u8,
            decreases Target - Out@.len(),
        {
            Out.push(0);
        }
        proof {
            assert(Out@.len() == Target);
        }
        let mut Index: usize = 0;
        while Index < Count
            invariant
                Index <= Count,
                Count == Buffer@.len(),
                Out@.len() == Target + Index,
                Prefix <= Target,
                Target + Count <= usize::MAX,
                Out@.take(Prefix as int) =~= Data_vec@.take(Prefix as int),
                forall|Position_k: int| Prefix <= Position_k < Target ==> Out@[Position_k] == 0u8,
                forall|Position_k: int|
                    0 <= Position_k < Index ==> Out@[Target + Position_k] == Buffer@[Position_k],
            decreases Count - Index,
        {
            Out.push(Buffer[Index]);
            Index = Index + 1;
        }
        let mut Tail: usize = Target + Count;
        while Tail < Data_vec.len()
            invariant
                Target + Count <= Tail,
                Tail <= Data_vec@.len() || Tail == Target + Count,
                Data_vec@.len() <= usize::MAX,
                Count == Buffer@.len(),
                Prefix <= Target,
                Prefix <= Data_vec@.len(),
                Out@.len() == Tail,
                Out@.take(Prefix as int) =~= Data_vec@.take(Prefix as int),
                forall|Position_k: int| Prefix <= Position_k < Target ==> Out@[Position_k] == 0u8,
                forall|Position_k: int|
                    0 <= Position_k < Count ==> Out@[Target + Position_k] == Buffer@[Position_k],
                forall|Position_k: int|
                    Target + Count <= Position_k < Tail ==> Out@[Position_k] == Data_vec@[
                        Position_k
                    ],
            decreases Data_vec@.len() - Tail,
        {
            Out.push(Data_vec[Tail]);
            Tail = Tail + 1;
        }
        proof {
            let Written = Write_result(Old_data, Position, Buffer@);
            assert forall|Position_k: int|
                0 <= Position_k < Out@.len() implies Out@[Position_k] == Written[Position_k] by {
                if Position_k < Prefix {
                    assert(Out@.take(Prefix as int)[Position_k] == Data_vec@.take(Prefix as int)[
                        Position_k
                    ]);
                }
            }
            assert(Out@ =~= Written);
        }
        self.Data.insert(Handle.Inode, Out);
        proof {
            let Written = Write_result(Old_data, Position, Buffer@);
            assert(self.Contents() =~= old(self).Contents().insert(Handle.Inode, Written));
            assert forall|Index_n: int|
                0 <= Index_n < self.Namespace().len() && self.Namespace()[Index_n].Kind
                    == Type_type::File implies self.Contents().contains_key(
                self.Namespace()[Index_n].Inode,
            ) by {
                assert(old(self).Contents().contains_key(old(self).Namespace()[Index_n].Inode));
            }
            assert forall|Key_k: u64| #[trigger]
                self.Handles().contains_key(Key_k) implies self.Contents().contains_key(
                self.Handles()[Key_k].Inode,
            ) by {
                assert(old(self).Handles().contains_key(Key_k));
            }
            assert forall|Inode_k: u64| #[trigger]
                self.Contents().contains_key(Inode_k) implies Inode_k < self.Fresh_inode() by {
                assert(old(self).Contents().contains_key(Inode_k));
            }
        }
        let New_handle = Handle_type {
            Inode: Handle.Inode,
            Position: Position + (Count as u64),
            Flags: Handle.Flags,
        };
        match self.Open_files.Update(Task, File, New_handle) {
            Ok(Unit) => {},
            Err(Error) => {
                proof {
                    assert(false);
                }
                return Err(Error);
            },
        }
        Ok(Size_type(Count as u64))
    }

    /// Move the offset of the handle of `Task` named by `File` and hand
    /// the new offset back.
    pub fn Set_position(
        &mut self,
        Task: Task_identifier_type,
        File: File_identifier_type,
        Position: &Position_type,
    ) -> (Result: Result_type<Size_type>)
        requires
            old(self).Is_well_formed(),
        ensures
            final(self).Is_well_formed(),
            final(self).Root() == old(self).Root(),
            final(self).Namespace() == old(self).Namespace(),
            final(self).Contents() == old(self).Contents(),
            ({
                let Key = Task_key(Task, File.0);
                let Handle = old(self).Handles()[Key];
                let Target = match *Position {
                    Position_type::Start(Offset) => Offset as int,
                    Position_type::Current(Offset) => Handle.Position + Offset,
                    Position_type::End(Offset) => old(self).Contents()[Handle.Inode].len() + Offset,
                };
                match Result {
                    Ok(New_position) => {
                        &&& old(self).Handles().contains_key(Key)
                        &&& 0 <= Target <= u64::MAX
                        &&& New_position.0 == Target
                        &&& final(self).Handles() == old(self).Handles().insert(
                            Key,
                            Handle_type {
                                Inode: Handle.Inode,
                                Position: Target as u64,
                                Flags: Handle.Flags,
                            },
                        )
                    },
                    Err(Error) => {
                        &&& final(self).Handles() == old(self).Handles()
                        &&& (Error == Error_type::Invalid_identifier || Error
                            == Error_type::Invalid_input)
                        &&& (Error == Error_type::Invalid_identifier <==> !old(
                            self,
                        ).Handles().contains_key(Key))
                        &&& (Error == Error_type::Invalid_input <==> old(
                            self,
                        ).Handles().contains_key(Key) && !(0 <= Target <= u64::MAX))
                    },
                }
            }),
    {
        let Handle = match self.Open_files.Get(Task, File) {
            Some(Handle) => Handle,
            None => {
                return Err(Error_type::Invalid_identifier);
            },
        };
        let Length: u64 = match self.Data.get(&Handle.Inode) {
            Some(Data) => Data.len() as u64,
            None => {
                proof {
                    assert(false);
                }
                return Err(Error_type::Internal_error);
            },
        };
        let Target: i128 = match Position {
            Position_type::Start(Offset) => *Offset as i128,
            Position_type::Current(Offset) => Handle.Position as i128 + *Offset as i128,
            Position_type::End(Offset) => Length as i128 + *Offset as i128,
        };
        if Target < 0 || Target > u64::MAX as i128 {
            return Err(Error_type::Invalid_input);
        }
        let New_handle = Handle_type {
            Inode: Handle.Inode,
            Position: Target as u64,
            Flags: Handle.Flags,
        };
        match self.Open_files.Update(Task, File, New_handle) {
            Ok(Unit) => {},
            Err(Error) => {
                proof {
                    assert(false);
                }
                return Err(Error);
            },
        }
        Ok(Size_type(Target as u64))
    }
}

impl crate::file_system::File_system_traits for File_system_type {
    open spec fn Is_valid(&self) -> bool {
        self.Is_well_formed()
    }

    open spec fn Sees(&self, Path: Seq<Seq<char>>) -> bool {
        Has_entry(self.Namespace(), self.Full_path(Path))
    }

    open spec fn Bytes_of(&self, Path: Seq<Seq<char>>) -> Seq<u8> {
        let Full = self.Full_path(Path);
        if Has_entry(self.Namespace(), Full) && Entry_at(self.Namespace(), Full).Kind
            == Type_type::File && self.Contents().contains_key(
            Entry_at(self.Namespace(), Full).Inode,
        ) {
            self.Contents()[Entry_at(self.Namespace(), Full).Inode]
        } else {
            Seq::<u8>::empty()
        }
    }

    open spec fn Stream_of(&self, Task: Task_identifier_type, File: File_identifier_type) -> Seq<
        u8,
    > {
        let Key = Task_key(Task, File.0);
        if self.Handles().contains_key(Key) && self.Contents().contains_key(
            self.Handles()[Key].Inode,
        ) {
            let Data = self.Contents()[self.Handles()[Key].Inode];
            if self.Handles()[Key].Position <= Data.len() {
                Data.skip(self.Handles()[Key].Position as int)
            } else {
                Seq::<u8>::empty()
            }
        } else {
            Seq::<u8>::empty()
        }
    }

    fn Exists(&self, Path: &Path_type) -> Result_type<bool> {
        self.Exists(Path)
    }

    fn Create_file(&mut self, Task: Task_identifier_type, Path: &Path_type) -> Result_type<()> {
        let Result = self.Create_file(Task, Path);
        proof {
            if Result is Ok {
                let Full = old(self).Full_path(Path@);
                assert(self.Namespace()[self.Namespace().len() - 1].Path@ == Full);
                Lemma_entry_is_unique(self.Namespace(), self.Namespace().len() - 1, Full);
                assert(self.Bytes_of(Path@) =~= Seq::<u8>::empty());
            }
        }
        Result
    }

    fn Create_directory(&mut self, Task: Task_identifier_type, Path: &Path_type) -> Result_type<
        (),
    > {
        let Result = self.Create_directory(Task, Path);
        proof {
            if Result is Ok {
                let Full = old(self).Full_path(Path@);
                assert(self.Namespace()[self.Namespace().len() - 1].Path@ == Full);
            }
        }
        Result
    }

    fn Open(
        &mut self,
        Task: Task_identifier_type,
        Path: &Path_type,
        Flags: Flags_type,
    ) -> Result_type<File_identifier_type> {
        let Result = self.Open(Task, Path, Flags);
        proof {
            if Result is Ok {
                let File = Result->Ok_0;
                let Full = old(self).Full_path(Path@);
                let Key = Task_key(Task, File.0);
                let Inode = Entry_at(old(self).Namespace(), Full).Inode;
                assert(self.Handles().contains_key(Key));
                assert(self.Handles()[Key] == (Handle_type { Inode, Position: 0, Flags }));
                assert(self.Contents().contains_key(Inode));
                assert(self.Contents()[Inode].skip(0) =~= self.Contents()[Inode]);
                assert(self.Stream_of(Task, File) == old(self).Bytes_of(Path@));
            }
        }
        Result
    }

    fn Close(&mut self, Task: Task_identifier_type, File: File_identifier_type) -> Result_type<()> {
        self.Close(Task, File)
    }

    fn Close_all(&mut self, Task: Task_identifier_type) -> Result_type<()> {
        self.Close_all(Task)
    }

    fn Transfert_file_identifier(
        &mut self,
        Old_task: Task_identifier_type,
        New_task: Task_identifier_type,
        File: File_identifier_type,
    ) -> Result_type<File_identifier_type> {
        self.Transfert_file_identifier(Old_task, New_task, File)
    }

    fn Delete(&mut self, Path: &Path_type) -> Result_type<()> {
        self.Delete(Path)
    }

    fn Read(
        &mut self,
        Task: Task_identifier_type,
        File: File_identifier_type,
        Buffer: &mut Vec<u8>,
    ) -> Result_type<Size_type> {
        let Ghost(Old_buffer) = Ghost(Buffer@);
        let Result = self.Read(Task, File, Buffer);
        proof {
            if Result is Ok {
                let Key = Task_key(Task, File.0);
                let Handle = old(self).Handles()[Key];
                let Data = old(self).Contents()[Handle.Inode];
                let Stored = old(self).Data@[Handle.Inode];
                assert(Data == Stored@);
                assert(Data.len() == vstd::std_specs::vec::spec_vec_len(&Stored));
                let Stream = old(self).Stream_of(Task, File);
                let Bytes = Read_result(Data, Handle.Position, Old_buffer.len());
                let Taken = if Old_buffer.len() <= Stream.len() {
                    Old_buffer.len() as int
                } else {
                    Stream.len() as int
                };
                if Handle.Position <= Data.len() {
                    assert(Stream =~= Data.skip(Handle.Position as int));
                    assert(Bytes =~= Stream.take(Taken));
                    assert(Bytes.len() == Taken);
                    assert(Buffer@ =~= Stream.take(Taken) + Old_buffer.skip(Taken));
                    assert(self.Handles()[Key].Position == Handle.Position + Taken);
                    if Handle.Position + Taken <= Data.len() {
                        assert(Data.skip(Handle.Position + Taken) =~= Stream.skip(Taken));
                    }
                    assert(self.Stream_of(Task, File) =~= Stream.skip(Taken));
                } else {
                    assert(Stream =~= Seq::<u8>::empty());
                    assert(Bytes =~= Seq::<u8>::empty());
                    assert(Taken == 0);
                    assert(Buffer@ =~= Stream.take(0) + Old_buffer.skip(0));
                    assert(self.Stream_of(Task, File) =~= Stream.skip(0));
                }
            }
        }
        Result
    }

    fn Write(
        &mut self,
        Task: Task_identifier_type,
        File: File_identifier_type,
        Buffer: &Vec<u8>,
    ) -> Result_type<Size_type> {
        self.Write(Task, File, Buffer)
    }

    fn Move(
        &mut self,
        Task: Task_identifier_type,
        Source: &Path_type,
        Destination: &Path_type,
    ) -> Result_type<()> {
        self.Move(Task, Source, Destination)
    }

    fn Set_position(
        &mut self,
        Task: Task_identifier_type,
        File: File_identifier_type,
        Position: &Position_type,
    ) -> Result_type<Size_type> {
        self.Set_position(Task, File, Position)
    }

    fn Flush(&mut self, Task: Task_identifier_type, File: File_identifier_type) -> Result_type<()> {
        self.Flush(Task, File)
    }

    fn Get_type(&self, Task: Task_identifier_type, Path: &Path_type) -> Result_type<Type_type> {
        self.Get_type(Task, Path)
    }

    fn Get_size(&self, Task: Task_identifier_type, Path: &Path_type) -> Result_type<Size_type> {
        self.Get_size(Task, Path)
    }
}

/// Law: in a namespace of pairwise distinct paths, any entry that carries
/// a path is the entry found under it.
pub proof fn Lemma_entry_is_unique(Namespace: Seq<Entry_type>, Index: int, Path_view: Seq<Seq<char>>)
    requires
        forall|First: int, Second: int|
            0 <= First < Second < Namespace.len() ==> Namespace[First].Path@ != Namespace[Second].Path@,
        0 <= Index < Namespace.len(),
        Namespace[Index].Path@ == Path_view,
    ensures
        Entry_index(Namespace, Path_view) == Index,
        Entry_at(Namespace, Path_view) == Namespace[Index],
{
    let Found = Entry_index(Namespace, Path_view);
    assert(0 <= Found < Namespace.len() && Namespace[Found].Path@ == Path_view);
    if Found < Index {
        assert(Namespace[Found].Path@ != Namespace[Index].Path@);
    } else if Index < Found {
        assert(Namespace[Index].Path@ != Namespace[Found].Path@);
    }
}

} // verus!
