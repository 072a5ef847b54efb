//! Decisions of the host-backed driver, stated on plain values: which
//! directory becomes the virtual root, and which outcome of creating it
//! is acceptable. The host reads themselves — the environment override,
//! the current directory, the directory creation — stay outside; only
//! their results come through here.
use vstd::prelude::*;

use crate::error::{Error_type, Host_error_kind_type, Result_type};

verus! {

/// The name of the subdirectory appended under the chosen base to form
/// the virtual root.
pub fn Get_virtual_root_directory_name() -> (Result: &'static str)
    ensures
        Result@ == "Xila"@,
{
    "Xila"
}

/// Choose the base of the virtual root: the configured override when one
/// is set, else the current directory; with neither, resolution fails.
pub fn Select_virtual_root_base(Override_value: Option<String>, Current_directory: Option<String>) -> (Result:
    Result_type<String>)
    ensures
        match Result {
            Ok(Base) => (Override_value matches Some(Value) && Base == Value) || (Override_value
                is None && (Current_directory matches Some(Value) && Base == Value)),
            Err(Error) => Error == Error_type::Unknown && Override_value is None && Current_directory
                is None,
        },
{
    match Override_value {
        Some(Value) => Ok(Value),
        None => match Current_directory {
            Some(Value) => Ok(Value),
            None => Err(Error_type::Unknown),
        },
    }
}

/// Whether the outcome of creating the virtual root directory is
/// acceptable: success, or "already exists"; any other failure is fatal
/// at construction.
pub fn Accept_root_creation(Outcome: &Option<Host_error_kind_type>) -> (Result: bool)
    ensures
        Result <==> ((*Outcome) is None || *Outcome == Some(Host_error_kind_type::Already_exists)),
{
    match Outcome {
        None => true,
        Some(Host_error_kind_type::Already_exists) => true,
        Some(Other) => false,
    }
}

} // verus!
