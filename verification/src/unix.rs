//! The backend that asks the kernel through its one system call.
//!
//! Nothing here makes the call. An operation is a machine that says which
//! query to put to the kernel next and takes the kernel's answer; whoever
//! drives it makes the calls.

pub mod ctl;
pub mod ctl_iter;
pub mod funcs;
pub mod op;
pub mod raw;
