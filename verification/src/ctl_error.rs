//! What can go wrong.

use crate::ctl_type::CtlType;
use vstd::prelude::*;

verus! {

/// The class of a failed call into the operating system.
#[derive(Debug, Copy, Clone, PartialEq, Eq, Hash, Structural)]
pub enum IoKind {
    /// The thing asked for does not exist.
    NotFound,
    /// The data handed in cannot be used for the call.
    InvalidData,
    /// Anything else.
    Other,
}

/// A failed call into the operating system: its class and, where the system
/// gave one, its error number.
#[derive(Debug, Copy, Clone, PartialEq, Eq, Hash, Structural)]
pub struct IoFailure {
    pub kind: IoKind,
    pub code: Option<i32>,
}

/// The errors of this library.
#[derive(Debug, Clone, PartialEq, Eq)]
pub enum SysctlError {
    /// No control has this name.
    NotFound(String),
    /// The type of the control has no value.
    UnknownType,
    /// The payload cannot be taken as the record asked for.
    ExtractionError,
    /// The text is no value of the control's type.
    ParseError,
    /// Values of this type cannot be written yet.
    MissingImplementation,
    /// The operating system refused a call.
    IoError(IoFailure),
    /// Text that is not UTF-8; `valid_up_to` bytes of it are.
    Utf8Error { valid_up_to: usize },
    /// The control cannot be read.
    NoReadAccess,
    /// The control cannot be written.
    NoWriteAccess,
    /// The platform has no such operation.
    NotSupported,
    /// The kernel handed over fewer bytes than it had announced.
    ShortRead { read: usize, reported: usize },
    /// Text that does not end in its only NUL byte: `interior_nul` is the place
    /// of a NUL before the end, if there is one.
    InvalidCStr { interior_nul: Option<usize> },
    /// The value handed in has another type than the control.
    TypeMismatch { given: CtlType, expected: CtlType },
}

/// An error, with its text as a sequence of characters.
pub enum ErrorView {
    NotFound(Seq<char>),
    UnknownType,
    ExtractionError,
    ParseError,
    MissingImplementation,
    IoError(IoFailure),
    Utf8Error { valid_up_to: usize },
    NoReadAccess,
    NoWriteAccess,
    NotSupported,
    ShortRead { read: usize, reported: usize },
    InvalidCStr { interior_nul: Option<usize> },
    TypeMismatch { given: CtlType, expected: CtlType },
}

impl View for SysctlError {
    type V = ErrorView;

    open spec fn view(&self) -> ErrorView {
        match self {
            SysctlError::NotFound(name) => ErrorView::NotFound(name@),
            SysctlError::UnknownType => ErrorView::UnknownType,
            SysctlError::ExtractionError => ErrorView::ExtractionError,
            SysctlError::ParseError => ErrorView::ParseError,
            SysctlError::MissingImplementation => ErrorView::MissingImplementation,
            SysctlError::IoError(failure) => ErrorView::IoError(*failure),
            SysctlError::Utf8Error { valid_up_to } => ErrorView::Utf8Error {
                valid_up_to: *valid_up_to,
            },
            SysctlError::NoReadAccess => ErrorView::NoReadAccess,
            SysctlError::NoWriteAccess => ErrorView::NoWriteAccess,
            SysctlError::NotSupported => ErrorView::NotSupported,
            SysctlError::ShortRead { read, reported } => ErrorView::ShortRead {
                read: *read,
                reported: *reported,
            },
            SysctlError::InvalidCStr { interior_nul } => ErrorView::InvalidCStr {
                interior_nul: *interior_nul,
            },
            SysctlError::TypeMismatch { given, expected } => ErrorView::TypeMismatch {
                given: *given,
                expected: *expected,
            },
        }
    }
}

} // verus!
