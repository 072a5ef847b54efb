//! Permissions: a bit-set abstraction over owner/group/other
//! read-write-execute, with its conversion to the host representation.
use vstd::prelude::*;

verus! {

/// The read, write and execute rights of one class of users.
#[derive(Clone, Copy, Debug, PartialEq, Eq, Structural)]
pub struct Permission_type {
    pub Read: bool,
    pub Write: bool,
    pub Execute: bool,
}

impl Permission_type {
    /// The octal digit of the permission: read 4, write 2, execute 1.
    pub open spec fn To_unix_spec(self) -> int {
        (if self.Read {
            4int
        } else {
            0int
        }) + (if self.Write {
            2int
        } else {
            0int
        }) + (if self.Execute {
            1int
        } else {
            0int
        })
    }

    pub fn New(Read: bool, Write: bool, Execute: bool) -> (Result: Self)
        ensures
            Result == (Permission_type { Read, Write, Execute }),
    {
        Permission_type { Read, Write, Execute }
    }

    /// All three rights granted.
    pub fn New_full() -> (Result: Self)
        ensures
            Result == (Permission_type { Read: true, Write: true, Execute: true }),
    {
        Permission_type { Read: true, Write: true, Execute: true }
    }

    pub fn To_unix(&self) -> (Result: u8)
        ensures
            Result == self.To_unix_spec(),
    {
        let mut Value: u8 = 0;
        if self.Read {
            Value = Value + 4;
        }
        if self.Write {
            Value = Value + 2;
        }
        if self.Execute {
            Value = Value + 1;
        }
        Value
    }
}

/// The permissions of a file: one permission set per class of users.
#[derive(Clone, Copy, Debug, PartialEq, Eq, Structural)]
pub struct Permissions_type {
    pub Owner: Permission_type,
    pub Group: Permission_type,
    pub Other: Permission_type,
}

impl Permissions_type {
    /// The octal value of the permissions, owner first.
    pub open spec fn To_unix_spec(self) -> int {
        self.Owner.To_unix_spec() * 64 + self.Group.To_unix_spec() * 8 + self.Other.To_unix_spec()
    }

    pub fn New(Owner: Permission_type, Group: Permission_type, Other: Permission_type) -> (Result:
        Self)
        ensures
            Result == (Permissions_type { Owner, Group, Other }),
    {
        Permissions_type { Owner, Group, Other }
    }

    /// Full rights for every class of users.
    pub fn New_all_full() -> (Result: Self)
        ensures
            Result.Owner == (Permission_type { Read: true, Write: true, Execute: true }),
            Result.Group == (Permission_type { Read: true, Write: true, Execute: true }),
            Result.Other == (Permission_type { Read: true, Write: true, Execute: true }),
            Result.To_unix_spec() == 0o777,
    {
        Permissions_type {
            Owner: Permission_type::New_full(),
            Group: Permission_type::New_full(),
            Other: Permission_type::New_full(),
        }
    }

    pub fn To_unix(&self) -> (Result: u16)
        ensures
            Result == self.To_unix_spec(),
    {
        (self.Owner.To_unix() as u16) * 64 + (self.Group.To_unix() as u16) * 8
            + (self.Other.To_unix() as u16)
    }
}

} // verus!
