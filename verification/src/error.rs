//! The crate's error type: a kind together with a diagnostic message.

use vstd::prelude::*;

verus! {

/// Which class of failure an [`Error`] reports.
#[derive(Clone, Copy, Debug, PartialEq, Eq, Structural)]
pub enum ErrorKind {
    /// Failed to find the requested binary
    PathError,
    /// Failed to execute the child
    ExecError,
    /// The child exited with a non-zero error code
    ChildError,
}

impl ErrorKind {
    /// A short fixed description of the kind.
    pub fn describe(&self) -> (r: String)
        ensures
            *self is PathError ==> r@ == "Failed to find the requested binary"@,
            *self is ExecError ==> r@ == "Failed to execute the child"@,
            *self is ChildError ==> r@ == "The child exited with a non-zero error code"@,
    {
        match self {
            ErrorKind::PathError => String::from_str("Failed to find the requested binary"),
            ErrorKind::ExecError => String::from_str("Failed to execute the child"),
            ErrorKind::ChildError => String::from_str("The child exited with a non-zero error code"),
        }
    }
}

/// An error: a [`ErrorKind`] plus a free-form diagnostic message.
#[derive(Debug)]
pub struct Error {
    /// The class of the failure.
    pub kind: ErrorKind,
    /// What went wrong, with the paths, exit code or wrapped OS error text involved.
    pub message: String,
}

impl Error {
    /// Builds a resolution failure.
    pub fn path_error(message: String) -> (r: Error)
        ensures
            r.kind is PathError,
            r.message@ == message@,
    {
        Error { kind: ErrorKind::PathError, message }
    }

    /// Builds a process-creation or status-query failure.
    pub fn exec_error(message: String) -> (r: Error)
        ensures
            r.kind is ExecError,
            r.message@ == message@,
    {
        Error { kind: ErrorKind::ExecError, message }
    }

    /// Builds a failure of the child itself.
    pub fn child_error(message: String) -> (r: Error)
        ensures
            r.kind is ChildError,
            r.message@ == message@,
    {
        Error { kind: ErrorKind::ChildError, message }
    }

    /// The class of the failure.
    pub fn kind(&self) -> (r: ErrorKind)
        ensures
            r == self.kind,
    {
        self.kind
    }

    /// The diagnostic message.
    pub fn message(&self) -> (r: &String)
        ensures
            r@ == self.message@,
    {
        &self.message
    }
}

} // verus!
