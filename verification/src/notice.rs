//! What the decision procedures report to the operator.
//!
//! A [`Notice`] holds the facts of one report. Putting them into words, and on
//! a stream, is the host's part; [`Notice::tone`] says which mark a report
//! carries.

use vstd::prelude::*;
use crate::error::{ErrorView, ExecutableVerificationError};

verus! {

/// One report to the operator.
#[derive(Debug, PartialEq, Eq)]
pub enum Notice {
    /// No link exists yet; one is about to be created.
    Creating { name: String },
    /// The link was created.
    Created { name: String },
    /// The link already runs the wanted version; nothing was changed.
    UpToDate { name: String },
    /// The versions differ and nobody is asked: the link will be replaced.
    Forcing { name: String },
    /// The versions differ and the operator is asked what to do.
    Mismatch { name: String, existing: String, new: String },
    /// The operator's answer was not understood; the question is put again.
    InvalidAnswer,
    /// The link is about to be replaced.
    Replacing { name: String },
    /// The link was replaced.
    Replaced { name: String },
    /// The operator chose to keep the link as it is.
    Keeping { name: String },
    /// What the link leads to did not verify; the link is removed and made
    /// anew.
    Repairing { name: String, error: ExecutableVerificationError },
    /// The existing link could not be removed; it was left in place.
    RemoveFailed { name: String, cause: String },
    /// The link could not be created; there is none now.
    CreateFailed { name: String, cause: String },
    /// A candidate verified, and reports this version.
    Verified { name: String, version: String },
    /// A candidate did not verify.
    Rejected { error: ExecutableVerificationError },
}

/// The mathematical content of a [`Notice`].
pub enum NoticeView {
    Creating { name: Seq<char> },
    Created { name: Seq<char> },
    UpToDate { name: Seq<char> },
    Forcing { name: Seq<char> },
    Mismatch { name: Seq<char>, existing: Seq<char>, new: Seq<char> },
    InvalidAnswer,
    Replacing { name: Seq<char> },
    Replaced { name: Seq<char> },
    Keeping { name: Seq<char> },
    Repairing { name: Seq<char>, error: ErrorView },
    RemoveFailed { name: Seq<char>, cause: Seq<char> },
    CreateFailed { name: Seq<char>, cause: Seq<char> },
    Verified { name: Seq<char>, version: Seq<char> },
    Rejected { error: ErrorView },
}

impl View for Notice {
    type V = NoticeView;

    open spec fn view(&self) -> NoticeView {
        match *self {
            Notice::Creating { name } => NoticeView::Creating { name: name@ },
            Notice::Created { name } => NoticeView::Created { name: name@ },
            Notice::UpToDate { name } => NoticeView::UpToDate { name: name@ },
            Notice::Forcing { name } => NoticeView::Forcing { name: name@ },
            Notice::Mismatch { name, existing, new } => NoticeView::Mismatch {
                name: name@,
                existing: existing@,
                new: new@,
            },
            Notice::InvalidAnswer => NoticeView::InvalidAnswer,
            Notice::Replacing { name } => NoticeView::Replacing { name: name@ },
            Notice::Replaced { name } => NoticeView::Replaced { name: name@ },
            Notice::Keeping { name } => NoticeView::Keeping { name: name@ },
            Notice::Repairing { name, error } => NoticeView::Repairing {
                name: name@,
                error: error@,
            },
            Notice::RemoveFailed { name, cause } => NoticeView::RemoveFailed {
                name: name@,
                cause: cause@,
            },
            Notice::CreateFailed { name, cause } => NoticeView::CreateFailed {
                name: name@,
                cause: cause@,
            },
            Notice::Verified { name, version } => NoticeView::Verified {
                name: name@,
                version: version@,
            },
            Notice::Rejected { error } => NoticeView::Rejected { error: error@ },
        }
    }
}

impl DeepView for Notice {
    type V = NoticeView;

    open spec fn deep_view(&self) -> NoticeView {
        self@
    }
}

/// The mark under which a report is shown.
#[derive(Debug, Clone, Copy, PartialEq, Eq, Structural)]
pub enum Tone {
    /// Something is under way, or was decided; no mark.
    Progress,
    /// Something ended well: the success mark, on standard output.
    Success,
    /// Something is wrong: the failure mark, on standard error.
    Failure,
}

impl NoticeView {
    /// The mark of this report.
    pub open spec fn tone(self) -> Tone {
        match self {
            NoticeView::Created { .. }
            | NoticeView::UpToDate { .. }
            | NoticeView::Replaced { .. }
            | NoticeView::Verified { .. } => Tone::Success,
            NoticeView::Repairing { .. }
            | NoticeView::RemoveFailed { .. }
            | NoticeView::CreateFailed { .. }
            | NoticeView::Rejected { .. } => Tone::Failure,
            _ => Tone::Progress,
        }
    }
}

impl Notice {
    /// The mark of this report.
    pub fn tone(&self) -> (tone: Tone)
        ensures
            tone == self@.tone(),
    {
        match self {
            Notice::Created { .. }
            | Notice::UpToDate { .. }
            | Notice::Replaced { .. }
            | Notice::Verified { .. } => Tone::Success,
            Notice::Repairing { .. }
            | Notice::RemoveFailed { .. }
            | Notice::CreateFailed { .. }
            | Notice::Rejected { .. } => Tone::Failure,
            _ => Tone::Progress,
        }
    }
}

/// No report.
pub(crate) fn silence() -> (notices: Vec<Notice>)
    ensures
        notices.deep_view() == Seq::<NoticeView>::empty(),
{
    let notices: Vec<Notice> = Vec::new();
    assert(notices.deep_view() =~= Seq::<NoticeView>::empty());
    notices
}

/// One report.
pub(crate) fn announce(notice: Notice) -> (notices: Vec<Notice>)
    ensures
        notices.deep_view() == seq![notice@],
{
    let mut notices: Vec<Notice> = Vec::new();
    notices.push(notice);
    assert(notices.deep_view() =~= seq![notice@]);
    notices
}

/// The reports in `notices`, followed by `notice`.
pub(crate) fn then_announce(notices: Vec<Notice>, notice: Notice) -> (extended: Vec<Notice>)
    ensures
        extended.deep_view() == notices.deep_view().push(notice@),
{
    let mut extended = notices;
    extended.push(notice);
    assert(extended.deep_view() =~= notices.deep_view().push(notice@));
    extended
}

} // verus!
