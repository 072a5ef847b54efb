//! Core of a small virtual file system: one driver contract for ordinary
//! files and fixed-record hardware devices, a handle multiplexer that scopes
//! every open handle to its owning task, a closed error taxonomy, and the
//! record layouts of the display and pointer devices.
#![allow(non_snake_case)]
#![allow(non_camel_case_types)]
#![allow(non_upper_case_globals)]

pub mod error;
pub mod file_system;
pub mod flags;
pub mod graphics;
pub mod host;
pub mod identifier;
pub mod laws;
pub mod memory;
pub mod path;
pub mod permissions;
pub mod pointer;
pub mod screen;
pub mod table;
pub mod task;
pub mod types;
pub mod users;
