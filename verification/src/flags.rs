//! Open modes and flags: the read/write/append capabilities a handle is
//! opened with.
use vstd::prelude::*;

verus! {

/// The open mode of a handle; read-only excludes write access.
#[derive(Clone, Copy, Debug, PartialEq, Eq, Structural)]
pub enum Mode_type {
    Read_only,
    Write_only,
    Read_write,
}

impl Mode_type {
    /// Whether the mode grants read access.
    pub open spec fn Can_read(self) -> bool {
        match self {
            Mode_type::Read_only => true,
            Mode_type::Write_only => false,
            Mode_type::Read_write => true,
        }
    }

    /// Whether the mode grants write access.
    pub open spec fn Can_write(self) -> bool {
        match self {
            Mode_type::Read_only => false,
            Mode_type::Write_only => true,
            Mode_type::Read_write => true,
        }
    }

    pub fn Get_read(&self) -> (Result: bool)
        ensures
            Result == self.Can_read(),
    {
        match self {
            Mode_type::Read_only => true,
            Mode_type::Write_only => false,
            Mode_type::Read_write => true,
        }
    }

    pub fn Get_write(&self) -> (Result: bool)
        ensures
            Result == self.Can_write(),
    {
        match self {
            Mode_type::Read_only => false,
            Mode_type::Write_only => true,
            Mode_type::Read_write => true,
        }
    }
}

/// The flags a handle is opened with: a mode plus the append status.
#[derive(Clone, Copy, Debug, PartialEq, Eq, Structural)]
pub struct Flags_type {
    pub Mode: Mode_type,
    pub Append: bool,
}

impl Flags_type {
    /// Whether the flags allow reading through the handle.
    pub open spec fn Allows_read(self) -> bool {
        self.Mode.Can_read()
    }

    /// Whether the flags allow writing through the handle.
    pub open spec fn Allows_write(self) -> bool {
        self.Mode.Can_write() || self.Append
    }

    pub fn New(Mode: Mode_type, Append: bool) -> (Result: Self)
        ensures
            Result == (Flags_type { Mode, Append }),
    {
        Flags_type { Mode, Append }
    }

    pub fn Get_mode(&self) -> (Result: Mode_type)
        ensures
            Result == self.Mode,
    {
        self.Mode
    }

    pub fn Get_append(&self) -> (Result: bool)
        ensures
            Result == self.Append,
    {
        self.Append
    }

    pub fn Get_read(&self) -> (Result: bool)
        ensures
            Result == self.Allows_read(),
    {
        self.Mode.Get_read()
    }

    pub fn Get_write(&self) -> (Result: bool)
        ensures
            Result == self.Allows_write(),
    {
        self.Mode.Get_write() || self.Append
    }
}

} // verus!
