//! The boundary with the host: what the decision procedures ask of it, and what
//! it answers.
//!
//! A procedure never acts. It names a [`Request`]; the host carries it out once
//! and hands back the matching [`Response`].

use vstd::prelude::*;

verus! {

/// What a finished version call left behind.
#[derive(Debug, PartialEq, Eq)]
pub struct RawOutput {
    /// The raw exit status. Zero, and only zero, means success.
    pub status: i32,
    /// The bytes the process wrote to standard output.
    pub stdout: Vec<u8>,
}

/// The mathematical content of a [`RawOutput`].
pub struct RawOutputView {
    pub status: i32,
    pub stdout: Seq<u8>,
}

impl View for RawOutput {
    type V = RawOutputView;

    open spec fn view(&self) -> RawOutputView {
        RawOutputView { status: self.status, stdout: self.stdout@ }
    }
}

/// The mathematical content of what a version call came to: its output, or the
/// cause for which the process could not be started.
pub open spec fn run_view(run: Result<RawOutput, String>) -> Result<RawOutputView, Seq<char>> {
    match run {
        Ok(output) => Ok(output@),
        Err(cause) => Err(cause@),
    }
}

/// The mathematical content of what a removal or a link creation came to.
pub open spec fn change_view(change: Result<(), String>) -> Result<(), Seq<char>> {
    match change {
        Ok(()) => Ok(()),
        Err(cause) => Err(cause@),
    }
}

/// One action asked of the host.
#[derive(Debug, PartialEq, Eq)]
pub enum Request {
    /// Say whether anything exists at `path`.
    ProbePath { path: String },
    /// Start the binary at `path` with the single argument that asks for its
    /// version, wait for it, and capture its standard output and exit status.
    RunVersion { path: String },
    /// Ask the operator whether to replace, and read one line of input.
    AskOperator,
    /// Remove the entry at `path`.
    RemoveEntry { path: String },
    /// Create a symbolic link at `link` that points at `source`.
    CreateSymlink { source: String, link: String },
}

/// The mathematical content of a [`Request`].
pub enum RequestView {
    ProbePath { path: Seq<char> },
    RunVersion { path: Seq<char> },
    AskOperator,
    RemoveEntry { path: Seq<char> },
    CreateSymlink { source: Seq<char>, link: Seq<char> },
}

impl View for Request {
    type V = RequestView;

    open spec fn view(&self) -> RequestView {
        match *self {
            Request::ProbePath { path } => RequestView::ProbePath { path: path@ },
            Request::RunVersion { path } => RequestView::RunVersion { path: path@ },
            Request::AskOperator => RequestView::AskOperator,
            Request::RemoveEntry { path } => RequestView::RemoveEntry { path: path@ },
            Request::CreateSymlink { source, link } => RequestView::CreateSymlink {
                source: source@,
                link: link@,
            },
        }
    }
}

impl DeepView for Request {
    type V = RequestView;

    open spec fn deep_view(&self) -> RequestView {
        self@
    }
}

impl RequestView {
    /// Whether carrying out the request changes the filesystem.
    pub open spec fn mutates(self) -> bool {
        self is RemoveEntry || self is CreateSymlink
    }
}

/// What the host observed when it carried out a request. A failure carries the
/// text of its cause.
#[derive(Debug, PartialEq, Eq)]
pub enum Response {
    /// Answer to [`Request::ProbePath`]: whether something exists there.
    Probed(bool),
    /// Answer to [`Request::RunVersion`]: the finished call, or why the process
    /// could not be started.
    Ran(Result<RawOutput, String>),
    /// Answer to [`Request::AskOperator`]: the line that was read.
    Answered(String),
    /// Answer to [`Request::RemoveEntry`].
    Removed(Result<(), String>),
    /// Answer to [`Request::CreateSymlink`].
    Linked(Result<(), String>),
}

/// The mathematical content of a [`Response`].
pub enum ResponseView {
    Probed(bool),
    Ran(Result<RawOutputView, Seq<char>>),
    Answered(Seq<char>),
    Removed(Result<(), Seq<char>>),
    Linked(Result<(), Seq<char>>),
}

impl View for Response {
    type V = ResponseView;

    open spec fn view(&self) -> ResponseView {
        match *self {
            Response::Probed(exists) => ResponseView::Probed(exists),
            Response::Ran(run) => ResponseView::Ran(run_view(run)),
            Response::Answered(line) => ResponseView::Answered(line@),
            Response::Removed(change) => ResponseView::Removed(change_view(change)),
            Response::Linked(change) => ResponseView::Linked(change_view(change)),
        }
    }
}

} // verus!
