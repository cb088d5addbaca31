//! The reconciler: brings the link into agreement with the source binary.
//!
//! A [`Reconciliation`] looks at the link only by verifying what it leads to:
//! the binary itself is the one witness of the version that is linked. It
//! creates the link where there is none, leaves it where the versions agree,
//! consults the interaction policy where they differ, and makes it anew where
//! what it leads to does not verify.

use vstd::prelude::*;
use crate::error::{ErrorView, ExecutableVerificationError};
use crate::host::{RawOutputView, Request, RequestView, Response, ResponseView};
use crate::notice::{announce, silence, then_announce, Notice, NoticeView};
use crate::policy::{should_replace, Consultation};
use crate::verification::{verdict, verify_binary, Verification, VerificationView};

verus! {

/// What a reconciliation is doing.
pub enum PhaseView {
    /// Waiting to learn whether the link exists.
    ProbingLink,
    /// Verifying what the link leads to.
    VerifyingLink(VerificationView),
    /// Waiting for the operator's answer.
    Consulting,
    /// Waiting for the removal of the existing entry. Where `repairing` holds,
    /// the entry did not verify and the removal may fail.
    Removing { repairing: bool },
    /// Waiting for the creation of the link. `replacing` says whether it takes
    /// the place of a link that verified.
    Linking { replacing: bool },
    /// Nothing is left to do.
    Finished,
}

/// The mathematical content of a [`Reconciliation`].
pub struct ReconciliationView {
    pub link_path: Seq<char>,
    pub source_path: Seq<char>,
    pub display_name: Seq<char>,
    pub source_version: Seq<char>,
    pub interactive: bool,
    pub phase: PhaseView,
}

impl ReconciliationView {
    /// A reconciliation that has not asked anything yet.
    pub open spec fn begin(
        link_path: Seq<char>,
        source_path: Seq<char>,
        display_name: Seq<char>,
        source_version: Seq<char>,
        interactive: bool,
    ) -> ReconciliationView {
        ReconciliationView {
            link_path,
            source_path,
            display_name,
            source_version,
            interactive,
            phase: PhaseView::ProbingLink,
        }
    }

    /// This reconciliation in another phase.
    pub open spec fn at(self, phase: PhaseView) -> ReconciliationView {
        ReconciliationView { phase, ..self }
    }

    /// What the reconciliation waits for, if anything.
    pub open spec fn request(self) -> Option<RequestView> {
        match self.phase {
            PhaseView::ProbingLink => Some(RequestView::ProbePath { path: self.link_path }),
            PhaseView::VerifyingLink(verification) => verification.request(),
            PhaseView::Consulting => Some(RequestView::AskOperator),
            PhaseView::Removing { .. } => Some(RequestView::RemoveEntry { path: self.link_path }),
            PhaseView::Linking { .. } => Some(
                RequestView::CreateSymlink { source: self.source_path, link: self.link_path },
            ),
            PhaseView::Finished => None,
        }
    }

    /// Where a consultation leaves the reconciliation: replacing starts with
    /// the removal of the link, keeping ends the matter, and a question that
    /// still stands is put to the operator.
    pub open spec fn consulted(self, consultation: Consultation, said: Seq<NoticeView>) -> (
        ReconciliationView,
        Seq<NoticeView>,
    ) {
        match consultation {
            Consultation::Decided(true) => (
                self.at(PhaseView::Removing { repairing: false }),
                said.push(NoticeView::Replacing { name: self.display_name }),
            ),
            Consultation::Decided(false) => (
                self.at(PhaseView::Finished),
                said.push(NoticeView::Keeping { name: self.display_name }),
            ),
            Consultation::Asking => (self.at(PhaseView::Consulting), said),
        }
    }

    /// Where the outcome of verifying the link leaves the reconciliation.
    ///
    /// The same version: nothing to do. Another version: the interaction policy
    /// is consulted. No version at all, for whatever reason: the entry is
    /// removed and the link made anew, whether or not an operator is there.
    pub open spec fn judged(self, outcome: Result<Seq<char>, ErrorView>) -> (
        ReconciliationView,
        Seq<NoticeView>,
    ) {
        match outcome {
            Ok(existing) => if existing == self.source_version {
                (self.at(PhaseView::Finished), seq![NoticeView::UpToDate { name: self.display_name }])
            } else {
                let opened = Consultation::opening(
                    self.display_name,
                    existing,
                    self.source_version,
                    self.interactive,
                );
                self.consulted(opened.0, opened.1)
            },
            Err(error) => (
                self.at(PhaseView::Removing { repairing: true }),
                seq![NoticeView::Repairing { name: self.display_name, error }],
            ),
        }
    }

    /// The reconciliation after the host answered `response`, and what it
    /// reports. An answer to something that was not asked changes nothing.
    pub open spec fn resume(self, response: ResponseView) -> (ReconciliationView, Seq<NoticeView>) {
        match (self.phase, response) {
            (PhaseView::ProbingLink, ResponseView::Probed(exists)) => if exists {
                (
                    self.at(PhaseView::VerifyingLink(VerificationView::begin(self.link_path))),
                    Seq::empty(),
                )
            } else {
                (
                    self.at(PhaseView::Linking { replacing: false }),
                    seq![NoticeView::Creating { name: self.display_name }],
                )
            },
            (PhaseView::VerifyingLink(verification), _) => {
                let advanced = verification.resume(response);
                match advanced.outcome() {
                    Some(outcome) => self.judged(outcome),
                    None => (self.at(PhaseView::VerifyingLink(advanced)), Seq::empty()),
                }
            },
            (PhaseView::Consulting, _) => {
                let consulted = Consultation::Asking.after(response);
                self.consulted(consulted.0, consulted.1)
            },
            (PhaseView::Removing { repairing }, ResponseView::Removed(removal)) => match removal {
                Err(cause) if !repairing => (
                    self.at(PhaseView::Finished),
                    seq![NoticeView::RemoveFailed { name: self.display_name, cause }],
                ),
                _ => (self.at(PhaseView::Linking { replacing: !repairing }), Seq::empty()),
            },
            (PhaseView::Linking { replacing }, ResponseView::Linked(creation)) => match creation {
                Ok(()) => (
                    self.at(PhaseView::Finished),
                    seq![
                        if replacing {
                            NoticeView::Replaced { name: self.display_name }
                        } else {
                            NoticeView::Created { name: self.display_name }
                        },
                    ],
                ),
                Err(cause) => (
                    self.at(PhaseView::Finished),
                    seq![NoticeView::CreateFailed { name: self.display_name, cause }],
                ),
            },
            _ => (self, Seq::empty()),
        }
    }
}

/// Reconciling a link that already runs the source's version changes nothing:
/// the host is asked to probe the link, to probe it again for the verification,
/// and to run the version call, and then the matter ends with the report that
/// the link is up to date. No removal and no creation is ever asked for. As the
/// filesystem is left as it was, a second reconciliation meets the same answers
/// and ends in the same way.
pub proof fn lemma_matching_link_is_left_alone(
    link_path: Seq<char>,
    source_path: Seq<char>,
    display_name: Seq<char>,
    source_version: Seq<char>,
    interactive: bool,
    output: RawOutputView,
)
    requires
        verdict(Ok(output)) == Ok::<Seq<char>, ErrorView>(source_version),
    ensures
        ({
            let begun = ReconciliationView::begin(
                link_path,
                source_path,
                display_name,
                source_version,
                interactive,
            );
            let probed = begun.resume(ResponseView::Probed(true));
            let found = probed.0.resume(ResponseView::Probed(true));
            let ended = found.0.resume(ResponseView::Ran(Ok(output)));
            &&& begun.request() == Some(RequestView::ProbePath { path: link_path })
            &&& probed.0.request() == Some(RequestView::ProbePath { path: link_path })
            &&& found.0.request() == Some(RequestView::RunVersion { path: link_path })
            &&& ended.0.request() is None
            &&& probed.1 == Seq::<NoticeView>::empty()
            &&& found.1 == Seq::<NoticeView>::empty()
            &&& ended.1 == seq![NoticeView::UpToDate { name: display_name }]
        }),
{
}

/// A reconciliation asks for a change of the filesystem only in two phases:
/// when it removes the existing entry, and when it creates the link.
pub proof fn lemma_changes_are_asked_only_to_remove_or_link(reconciliation: ReconciliationView)
    ensures
        reconciliation.request() matches Some(request) && request.mutates() <==> (
        reconciliation.phase is Removing || reconciliation.phase is Linking),
{
    if let PhaseView::VerifyingLink(verification) = reconciliation.phase {
        assert(verification.request() matches Some(request) ==> !request.mutates());
    }
}

/// What the link leads to does not verify: whatever the reason, and whether or
/// not an operator is there, the entry is removed, the outcome of the removal
/// is passed over, and the link is created.
pub proof fn lemma_broken_link_is_made_anew(
    reconciliation: ReconciliationView,
    error: ErrorView,
    removal: Result<(), Seq<char>>,
)
    ensures
        ({
            let judged = reconciliation.judged(Err(error));
            let removed = judged.0.resume(ResponseView::Removed(removal));
            &&& judged.0.request() == Some(
                RequestView::RemoveEntry { path: reconciliation.link_path },
            )
            &&& judged.1 == seq![
                NoticeView::Repairing { name: reconciliation.display_name, error },
            ]
            &&& removed.0.request() == Some(
                RequestView::CreateSymlink {
                    source: reconciliation.source_path,
                    link: reconciliation.link_path,
                },
            )
            &&& removed.1 == Seq::<NoticeView>::empty()
        }),
{
}

enum Phase {
    ProbingLink,
    VerifyingLink(Verification),
    Consulting,
    Removing { repairing: bool },
    Linking { replacing: bool },
    Finished,
}

/// One reconciliation of one link with one source binary.
pub struct Reconciliation {
    link_path: String,
    source_path: String,
    display_name: String,
    source_version: String,
    interactive: bool,
    phase: Phase,
}

impl View for Reconciliation {
    type V = ReconciliationView;

    closed spec fn view(&self) -> ReconciliationView {
        ReconciliationView {
            link_path: self.link_path@,
            source_path: self.source_path@,
            display_name: self.display_name@,
            source_version: self.source_version@,
            interactive: self.interactive,
            phase: match self.phase {
                Phase::ProbingLink => PhaseView::ProbingLink,
                Phase::VerifyingLink(verification) => PhaseView::VerifyingLink(verification@),
                Phase::Consulting => PhaseView::Consulting,
                Phase::Removing { repairing } => PhaseView::Removing { repairing },
                Phase::Linking { replacing } => PhaseView::Linking { replacing },
                Phase::Finished => PhaseView::Finished,
            },
        }
    }
}

/// Begins reconciling the link at `link_path` with the binary at `source_path`,
/// which reports `source_version` and is called `display_name` in reports.
/// Where the versions differ, the operator is asked only if `interactive`
/// holds. Nothing has been asked of the host yet.
pub fn reconcile(
    link_path: &str,
    source_path: &str,
    display_name: &str,
    source_version: &str,
    interactive: bool,
) -> (reconciliation: Reconciliation)
    ensures
        reconciliation@ == ReconciliationView::begin(
            link_path@,
            source_path@,
            display_name@,
            source_version@,
            interactive,
        ),
{
    Reconciliation {
        link_path: String::from_str(link_path),
        source_path: String::from_str(source_path),
        display_name: String::from_str(display_name),
        source_version: String::from_str(source_version),
        interactive,
        phase: Phase::ProbingLink,
    }
}

impl Reconciliation {
    /// What the host has to do next; `None` once nothing is left to do.
    pub fn request(&self) -> (request: Option<Request>)
        ensures
            request.deep_view() == self@.request(),
    {
        match &self.phase {
            Phase::ProbingLink => Some(Request::ProbePath { path: self.link_path.clone() }),
            Phase::VerifyingLink(verification) => verification.request(),
            Phase::Consulting => Some(Request::AskOperator),
            Phase::Removing { .. } => Some(Request::RemoveEntry { path: self.link_path.clone() }),
            Phase::Linking { .. } => Some(
                Request::CreateSymlink {
                    source: self.source_path.clone(),
                    link: self.link_path.clone(),
                },
            ),
            Phase::Finished => None,
        }
    }

    /// Whether nothing is left to do.
    pub fn is_finished(&self) -> (finished: bool)
        ensures
            finished == (self@.phase is Finished),
    {
        match self.phase {
            Phase::Finished => true,
            _ => false,
        }
    }

    fn at(self, phase: Phase) -> (moved: Reconciliation)
        ensures
            moved.link_path == self.link_path,
            moved.source_path == self.source_path,
            moved.display_name == self.display_name,
            moved.source_version == self.source_version,
            moved.interactive == self.interactive,
            moved.phase == phase,
    {
        Reconciliation {
            link_path: self.link_path,
            source_path: self.source_path,
            display_name: self.display_name,
            source_version: self.source_version,
            interactive: self.interactive,
            phase,
        }
    }

    fn consulted(self, consultation: Consultation, said: Vec<Notice>) -> (next: (
        Reconciliation,
        Vec<Notice>,
    ))
        ensures
            (next.0@, next.1.deep_view()) == self@.consulted(consultation, said.deep_view()),
    {
        match consultation {
            Consultation::Decided(true) => {
                let notice = Notice::Replacing { name: self.display_name.clone() };
                (self.at(Phase::Removing { repairing: false }), then_announce(said, notice))
            },
            Consultation::Decided(false) => {
                let notice = Notice::Keeping { name: self.display_name.clone() };
                (self.at(Phase::Finished), then_announce(said, notice))
            },
            Consultation::Asking => (self.at(Phase::Consulting), said),
        }
    }

    fn judged(self, outcome: Result<String, ExecutableVerificationError>) -> (next: (
        Reconciliation,
        Vec<Notice>,
    ))
        ensures
            (next.0@, next.1.deep_view()) == self@.judged(
                crate::verification::outcome_view(outcome),
            ),
    {
        match outcome {
            Ok(existing) => {
                if existing == self.source_version {
                    let notice = Notice::UpToDate { name: self.display_name.clone() };
                    (self.at(Phase::Finished), announce(notice))
                } else {
                    let opened = should_replace(
                        self.display_name.as_str(),
                        existing.as_str(),
                        self.source_version.as_str(),
                        self.interactive,
                    );
                    self.consulted(opened.0, opened.1)
                }
            },
            Err(error) => {
                let notice = Notice::Repairing { name: self.display_name.clone(), error };
                (self.at(Phase::Removing { repairing: true }), announce(notice))
            },
        }
    }

    /// Takes the host's answer, moves on, and says what is to be reported.
    ///
    /// No link: one is created. A link that verifies with the source's
    /// version: nothing is changed. One that verifies with another version: it
    /// is replaced if the interaction policy says so, and a removal that fails
    /// then leaves it in place. One that does not verify: it is removed, whether
    /// or not the removal succeeds, and created anew.
    pub fn resume(self, response: Response) -> (next: (Reconciliation, Vec<Notice>))
        ensures
            (next.0@, next.1.deep_view()) == self@.resume(response@),
    {
        let Reconciliation {
            link_path,
            source_path,
            display_name,
            source_version,
            interactive,
            phase,
        } = self;
        let ghost before = self@;
        let job = Reconciliation {
            link_path,
            source_path,
            display_name,
            source_version,
            interactive,
            phase: Phase::Finished,
        };
        match (phase, response) {
            (Phase::ProbingLink, Response::Probed(exists)) => {
                if exists {
                    let verification = verify_binary(job.link_path.as_str());
                    (job.at(Phase::VerifyingLink(verification)), silence())
                } else {
                    let notice = Notice::Creating { name: job.display_name.clone() };
                    (job.at(Phase::Linking { replacing: false }), announce(notice))
                }
            },
            (Phase::VerifyingLink(verification), response) => {
                let advanced = verification.resume(response);
                if advanced.is_settled() {
                    match advanced.outcome() {
                        Some(outcome) => job.judged(outcome),
                        None => unreached(),
                    }
                } else {
                    (job.at(Phase::VerifyingLink(advanced)), silence())
                }
            },
            (Phase::Consulting, response) => {
                let consulted = Consultation::Asking.resume(response);
                job.consulted(consulted.0, consulted.1)
            },
            (Phase::Removing { repairing }, Response::Removed(removal)) => {
                match removal {
                    Err(cause) if !repairing => {
                        let notice = Notice::RemoveFailed {
                            name: job.display_name.clone(),
                            cause,
                        };
                        (job, announce(notice))
                    },
                    _ => (job.at(Phase::Linking { replacing: !repairing }), silence()),
                }
            },
            (Phase::Linking { replacing }, Response::Linked(creation)) => {
                match creation {
                    Ok(()) => {
                        let notice = if replacing {
                            Notice::Replaced { name: job.display_name.clone() }
                        } else {
                            Notice::Created { name: job.display_name.clone() }
                        };
                        (job, announce(notice))
                    },
                    Err(cause) => {
                        let notice = Notice::CreateFailed {
                            name: job.display_name.clone(),
                            cause,
                        };
                        (job, announce(notice))
                    },
                }
            },
            (phase, _) => (job.at(phase), silence()),
        }
    }
}

} // verus!
