//! The closed error taxonomy shared by every driver, and the single point
//! where host error vocabulary is mapped onto it.
use vstd::prelude::*;

verus! {

/// The closed set of error kinds every driver speaks: a backend failure is
/// translated to exactly one of these at the driver boundary and no backend
/// vocabulary leaks upward.
#[derive(Clone, Copy, Debug, PartialEq, Eq, Structural)]
pub enum Error_type {
    Not_found,
    Already_exists,
    Permission_denied,
    Invalid_path,
    Invalid_file,
    Invalid_input,
    Invalid_identifier,
    Too_many_open_files,
    Unsupported_operation,
    Internal_error,
    Unknown,
}

/// Every public operation of a driver returns this result.
pub type Result_type<T> = core::result::Result<T, Error_type>;

/// The host input/output error kinds that the taxonomy distinguishes; any
/// host error outside these five is `Other`.
#[derive(Clone, Copy, Debug, PartialEq, Eq, Structural)]
pub enum Host_error_kind_type {
    Permission_denied,
    Not_found,
    Already_exists,
    Invalid_input,
    Invalid_data,
    Other,
}

/// The taxonomy kind that a host error kind is mapped onto.
pub open spec fn Map_host_error_kind(Kind: Host_error_kind_type) -> Error_type {
    match Kind {
        Host_error_kind_type::Permission_denied => Error_type::Permission_denied,
        Host_error_kind_type::Not_found => Error_type::Not_found,
        Host_error_kind_type::Already_exists => Error_type::Already_exists,
        Host_error_kind_type::Invalid_input => Error_type::Invalid_path,
        Host_error_kind_type::Invalid_data => Error_type::Invalid_file,
        Host_error_kind_type::Other => Error_type::Unknown,
    }
}

impl Error_type {
    /// The single mapping point from host error kinds onto the taxonomy.
    pub fn From_host_error_kind(Kind: Host_error_kind_type) -> (Result: Self)
        ensures
            Result == Map_host_error_kind(Kind),
    {
        match Kind {
            Host_error_kind_type::Permission_denied => Error_type::Permission_denied,
            Host_error_kind_type::Not_found => Error_type::Not_found,
            Host_error_kind_type::Already_exists => Error_type::Already_exists,
            Host_error_kind_type::Invalid_input => Error_type::Invalid_path,
            Host_error_kind_type::Invalid_data => Error_type::Invalid_file,
            Host_error_kind_type::Other => Error_type::Unknown,
        }
    }
}

} // verus!
