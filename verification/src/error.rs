//! Why a candidate path was not accepted as a runnable binary.

use vstd::prelude::*;

verus! {

/// The ways in which verifying a binary fails.
#[derive(Debug, PartialEq, Eq)]
pub enum ExecutableVerificationError {
    /// Nothing exists at the path. No process was started.
    MissingPath(String),
    /// The version call ran and ended with this raw status, which is not zero.
    VersionCallFail(i32),
    /// The binary could not be started; the text is the cause the host gave.
    ExecutionError(String),
}

/// The mathematical content of an [`ExecutableVerificationError`].
pub enum ErrorView {
    MissingPath(Seq<char>),
    VersionCallFail(i32),
    ExecutionError(Seq<char>),
}

impl View for ExecutableVerificationError {
    type V = ErrorView;

    open spec fn view(&self) -> ErrorView {
        match *self {
            ExecutableVerificationError::MissingPath(path) => ErrorView::MissingPath(path@),
            ExecutableVerificationError::VersionCallFail(status) => ErrorView::VersionCallFail(
                status,
            ),
            ExecutableVerificationError::ExecutionError(cause) => ErrorView::ExecutionError(
                cause@,
            ),
        }
    }
}

impl DeepView for ExecutableVerificationError {
    type V = ErrorView;

    open spec fn deep_view(&self) -> ErrorView {
        self@
    }
}

impl Clone for ExecutableVerificationError {
    fn clone(&self) -> (copy: Self)
        ensures
            copy@ == self@,
    {
        match self {
            ExecutableVerificationError::MissingPath(path) => {
                ExecutableVerificationError::MissingPath(path.clone())
            },
            ExecutableVerificationError::VersionCallFail(status) => {
                ExecutableVerificationError::VersionCallFail(*status)
            },
            ExecutableVerificationError::ExecutionError(cause) => {
                ExecutableVerificationError::ExecutionError(cause.clone())
            },
        }
    }
}

} // verus!
