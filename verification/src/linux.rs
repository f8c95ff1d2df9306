//! The backend that reads and writes the files of a virtual file system.
//!
//! Nothing here opens a file. An operation is a machine that says which file
//! to read, write or look at next and takes what came of it; whoever drives
//! it touches the files.

pub mod ctl;
pub mod ctl_iter;
pub mod file;
pub mod funcs;
