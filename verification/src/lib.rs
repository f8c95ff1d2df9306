//! Typed access to a kernel's tree of control values.
//!
//! The library holds what can be decided without touching the kernel: how a
//! name, a descriptor and a payload are read from the bytes that the kernel
//! hands back, how a value is written as bytes, in which order the kernel is
//! asked, and how a walk over the tree proceeds and ends. It makes no system
//! call and opens no file. An operation is a machine: it names the query to
//! put next, takes the reply, and ends with a result. Whoever drives it does
//! the asking.
//!
//! There are two backends. [`unix`] speaks to a kernel that answers queries
//! about numeric paths with raw bytes. [`linux`] reads and writes the files
//! that a kernel keeps for its controls.

pub mod bytes;
pub mod codec;
pub mod consts;
pub mod ctl_error;
pub mod ctl_info;
pub mod ctl_type;
pub mod ctl_value;
pub mod linux;
pub mod temperature;
pub mod text;
pub mod unix;

pub use crate::consts::CtlFlags;
pub use crate::ctl_error::{IoFailure, IoKind, SysctlError};
pub use crate::ctl_info::CtlInfo;
pub use crate::ctl_type::CtlType;
pub use crate::ctl_value::CtlValue;
pub use crate::temperature::{temperature, Temperature};
