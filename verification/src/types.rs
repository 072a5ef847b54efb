//! Plain value types of the driver contract: sizes, positions, file kinds
//! and the two identifier spaces.
use vstd::prelude::*;

verus! {

/// A size or a number of bytes transferred.
#[derive(Clone, Copy, Debug, PartialEq, Eq, Structural)]
pub struct Size_type(pub u64);

/// A per-task local file identifier: a 16-bit value meaningless outside the
/// task it was issued to.
#[derive(Clone, Copy, Debug, PartialEq, Eq, Structural)]
pub struct File_identifier_type(pub u16);

/// What an entry of the file system is.
#[derive(Clone, Copy, Debug, PartialEq, Eq, Structural)]
pub enum Type_type {
    File,
    Directory,
    Symbolic_link,
}

/// Where to move the offset of an open file.
#[derive(Clone, Copy, Debug, PartialEq, Eq, Structural)]
pub enum Position_type {
    Start(u64),
    Current(i64),
    End(i64),
}

} // verus!
