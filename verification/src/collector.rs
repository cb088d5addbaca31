//! The collector: verifies candidate paths one after another and keeps those
//! that verify.
//!
//! A candidate that does not verify is reported and left out; the candidates
//! after it are verified all the same. What is kept stands in the order of the
//! candidates, and a path given twice is verified and kept twice.

use vstd::prelude::*;
use crate::error::{ErrorView, ExecutableVerificationError};
use crate::host::{Request, RequestView, Response, ResponseView};
use crate::notice::{announce, silence, Notice, NoticeView};
use crate::verification::{
    construction, outcome_view, verify_binary, ExecutableBin, ExecutableBinView, Verification,
    VerificationView,
};

verus! {

/// What `std::path::Path::file_name` makes of the path written as `path`.
pub uninterp spec fn final_component(path: Seq<char>) -> Option<Seq<char>>;

/// Takes the final component of a path with `std::path::Path::file_name`. There
/// is none where the path ends in `..` or names a root.
#[verifier::external_body]
fn file_name(path: &str) -> (name: Option<String>)
    ensures
        name.deep_view() == final_component(path@),
{
    match std::path::Path::new(path).file_name() {
        Some(component) => match component.to_str() {
            Some(text) => Some(text.to_owned()),
            None => None,
        },
        None => None,
    }
}

/// The name for reports, given the final component of the path, if it has one:
/// that component, else the whole path.
pub open spec fn named(component: Option<Seq<char>>, path: Seq<char>) -> Seq<char> {
    match component {
        Some(name) => name,
        None => path,
    }
}

/// The name under which the binary at `path` appears in reports.
pub open spec fn display_name_of(path: Seq<char>) -> Seq<char> {
    named(final_component(path), path)
}

/// Picks the name for reports: the final component of the path where it has
/// one, else the whole path.
pub fn name_or_path(component: Option<String>, path: &str) -> (name: String)
    ensures
        name@ == named(component.deep_view(), path@),
{
    match component {
        Some(name) => name,
        None => String::from_str(path),
    }
}

/// The name under which the binary at `path` appears in reports.
pub fn display_name(path: &str) -> (name: String)
    ensures
        name@ == display_name_of(path@),
{
    name_or_path(file_name(path), path)
}

/// The mathematical content of a [`Collection`].
pub struct CollectionView {
    /// The candidates whose verification has not begun, in order.
    pub waiting: Seq<Seq<char>>,
    /// The verification under way, if any is.
    pub current: Option<VerificationView>,
    /// What verified so far, in the order of the candidates.
    pub found: Seq<ExecutableBinView>,
}

impl CollectionView {
    /// The collection that goes on with the next candidate, or is done where
    /// none waits.
    pub open spec fn advance(self) -> CollectionView {
        if self.waiting.len() == 0 {
            CollectionView { current: None, ..self }
        } else {
            CollectionView {
                waiting: self.waiting.drop_first(),
                current: Some(VerificationView::begin(self.waiting[0])),
                found: self.found,
            }
        }
    }

    /// A collection over `paths` that has not asked anything yet.
    pub open spec fn begin(paths: Seq<Seq<char>>) -> CollectionView {
        CollectionView { waiting: paths, current: None, found: Seq::empty() }.advance()
    }

    /// What the collection waits for, if anything.
    pub open spec fn request(self) -> Option<RequestView> {
        match self.current {
            Some(verification) => verification.request(),
            None => None,
        }
    }

    /// The collection once the verification of `path` came to `outcome`: a
    /// binary that verified is kept and reported with its name, a rejection is
    /// reported and nothing is kept; either way the next candidate is taken up.
    pub open spec fn settle(self, path: Seq<char>, outcome: Result<Seq<char>, ErrorView>) -> (
        CollectionView,
        Seq<NoticeView>,
    ) {
        match construction(path, outcome) {
            Ok(bin) => (
                CollectionView { found: self.found.push(bin), ..self }.advance(),
                seq![
                    NoticeView::Verified {
                        name: display_name_of(path),
                        version: bin.version_report,
                    },
                ],
            ),
            Err(error) => (self.advance(), seq![NoticeView::Rejected { error }]),
        }
    }

    /// The collection after the host answered `response`, and what it reports.
    pub open spec fn resume(self, response: ResponseView) -> (CollectionView, Seq<NoticeView>) {
        match self.current {
            Some(verification) => {
                let advanced = verification.resume(response);
                match advanced.outcome() {
                    Some(outcome) => self.settle(advanced.path, outcome),
                    None => (CollectionView { current: Some(advanced), ..self }, Seq::empty()),
                }
            },
            None => (self, Seq::empty()),
        }
    }

    /// The collection after the verifications under way and to come ended with
    /// `outcomes`, one after another.
    pub open spec fn settle_all(self, outcomes: Seq<Result<Seq<char>, ErrorView>>) -> CollectionView
        decreases outcomes.len(),
    {
        match self.current {
            Some(verification) if outcomes.len() > 0 => self.settle(
                verification.path,
                outcomes[0],
            ).0.settle_all(outcomes.drop_first()),
            _ => self,
        }
    }
}

/// The binaries among `paths` that verified, in the order of `paths`, where
/// the verification of each path came to the outcome at the same place in
/// `outcomes`.
pub open spec fn harvest(
    paths: Seq<Seq<char>>,
    outcomes: Seq<Result<Seq<char>, ErrorView>>,
) -> Seq<ExecutableBinView>
    decreases paths.len(),
{
    if paths.len() == 0 || outcomes.len() == 0 {
        Seq::empty()
    } else {
        let rest = harvest(paths.drop_first(), outcomes.drop_first());
        match construction(paths[0], outcomes[0]) {
            Ok(bin) => seq![bin] + rest,
            Err(_) => rest,
        }
    }
}

/// The general step behind [`lemma_collection_keeps_what_verifies`]: from any
/// collection with a verification under way.
proof fn lemma_settle_all_harvests(
    collection: CollectionView,
    outcomes: Seq<Result<Seq<char>, ErrorView>>,
)
    requires
        collection.current is Some,
        outcomes.len() == collection.waiting.len() + 1,
    ensures
        collection.settle_all(outcomes).current is None,
        collection.settle_all(outcomes).found == collection.found + harvest(
            seq![collection.current->0.path] + collection.waiting,
            outcomes,
        ),
    decreases outcomes.len(),
{
    let path = collection.current->0.path;
    let paths = seq![path] + collection.waiting;
    let settled = collection.settle(path, outcomes[0]).0;
    let rest = outcomes.drop_first();
    assert(paths.drop_first() == collection.waiting);
    if collection.waiting.len() == 0 {
        assert(settled.current is None);
        assert(harvest(collection.waiting, rest) == Seq::<ExecutableBinView>::empty());
        assert(settled.settle_all(rest) == settled);
        match construction(path, outcomes[0]) {
            Ok(bin) => {
                assert(settled.found == collection.found + (seq![bin]
                    + Seq::<ExecutableBinView>::empty()));
            },
            Err(_) => {
                assert(settled.found == collection.found + Seq::<ExecutableBinView>::empty());
            },
        }
    } else {
        lemma_settle_all_harvests(settled, rest);
        assert(seq![settled.current->0.path] + settled.waiting == collection.waiting);
        let tail = harvest(collection.waiting, rest);
        match construction(path, outcomes[0]) {
            Ok(bin) => {
                assert(collection.found.push(bin) + tail == collection.found + (seq![bin] + tail));
            },
            Err(_) => {},
        }
    }
}

/// A collection keeps exactly the candidates that verify, in the order in
/// which they were given: once the verification of every path has come to its
/// outcome, the collection is done, and holds the harvest of the paths. A
/// rejection in the middle keeps none of the later candidates out.
pub proof fn lemma_collection_keeps_what_verifies(
    paths: Seq<Seq<char>>,
    outcomes: Seq<Result<Seq<char>, ErrorView>>,
)
    requires
        outcomes.len() == paths.len(),
    ensures
        CollectionView::begin(paths).settle_all(outcomes).current is None,
        CollectionView::begin(paths).settle_all(outcomes).found == harvest(paths, outcomes),
{
    let begun = CollectionView::begin(paths);
    if paths.len() == 0 {
        assert(begun.settle_all(outcomes) == begun);
    } else {
        lemma_settle_all_harvests(begun, outcomes);
        assert(seq![begun.current->0.path] + begun.waiting == paths);
        assert(begun.found + harvest(paths, outcomes) == harvest(paths, outcomes));
    }
}

/// One pass over a list of candidate paths.
pub struct Collection {
    paths: Vec<String>,
    next: usize,
    current: Option<Verification>,
    found: Vec<ExecutableBin>,
}

impl View for Collection {
    type V = CollectionView;

    closed spec fn view(&self) -> CollectionView {
        CollectionView {
            waiting: self.paths.deep_view().skip(self.next as int),
            current: match self.current {
                Some(verification) => Some(verification@),
                None => None,
            },
            found: self.found.deep_view(),
        }
    }
}

/// Begins collecting the binaries among `paths` that verify. Nothing has been
/// asked of the host yet.
pub fn collect(paths: Vec<String>) -> (collection: Collection)
    ensures
        collection@ == CollectionView::begin(paths.deep_view()),
{
    let fresh = Collection { paths, next: 0, current: None, found: Vec::new() };
    assert(fresh.paths.deep_view().skip(0) =~= paths.deep_view());
    assert(fresh.found.deep_view() =~= Seq::<ExecutableBinView>::empty());
    fresh.advance()
}

impl Collection {
    #[verifier::type_invariant]
    spec fn well_formed(self) -> bool {
        self.next <= self.paths.len()
    }

    fn advance(self) -> (moved: Collection)
        ensures
            moved@ == self@.advance(),
    {
        proof {
            use_type_invariant(&self);
        }
        let Collection { paths, next, current, found } = self;
        let ghost waiting = paths.deep_view().skip(next as int);
        if next < paths.len() {
            let verification = verify_binary(paths[next].as_str());
            assert(waiting[0] == paths[next as int]@);
            assert(waiting.drop_first() =~= paths.deep_view().skip(next + 1));
            Collection { paths, next: next + 1, current: Some(verification), found }
        } else {
            Collection { paths, next, current: None, found }
        }
    }

    fn settle(self, path: &str, outcome: Result<String, ExecutableVerificationError>) -> (next: (
        Collection,
        Vec<Notice>,
    ))
        ensures
            (next.0@, next.1.deep_view()) == self@.settle(path@, outcome_view(outcome)),
    {
        proof {
            use_type_invariant(&self);
        }
        let Collection { paths, next, current, found } = self;
        match ExecutableBin::new(path, outcome) {
            Ok(bin) => {
                let notice = Notice::Verified {
                    name: display_name(path),
                    version: String::from_str(bin.version_report()),
                };
                let mut kept = found;
                kept.push(bin);
                assert(kept.deep_view() =~= found.deep_view().push(bin@));
                let grown = Collection { paths, next, current, found: kept };
                (grown.advance(), announce(notice))
            },
            Err(error) => {
                let same = Collection { paths, next, current, found };
                (same.advance(), announce(Notice::Rejected { error }))
            },
        }
    }

    /// What the host has to do next; `None` once every candidate was dealt
    /// with.
    pub fn request(&self) -> (request: Option<Request>)
        ensures
            request.deep_view() == self@.request(),
    {
        match &self.current {
            Some(verification) => verification.request(),
            None => None,
        }
    }

    /// Takes the host's answer, moves on, and says what is to be reported.
    ///
    /// When the verification of a candidate settles, the candidate is kept if
    /// it verified and reported either way, and the next candidate is taken up.
    pub fn resume(self, response: Response) -> (next: (Collection, Vec<Notice>))
        ensures
            (next.0@, next.1.deep_view()) == self@.resume(response@),
    {
        proof {
            use_type_invariant(&self);
        }
        let Collection { paths, next, current, found } = self;
        match current {
            Some(verification) => {
                let advanced = verification.resume(response);
                if advanced.is_settled() {
                    let path = String::from_str(advanced.path());
                    let pending = Collection { paths, next, current: None, found };
                    match advanced.outcome() {
                        Some(outcome) => pending.settle(path.as_str(), outcome),
                        None => unreached(),
                    }
                } else {
                    (Collection { paths, next, current: Some(advanced), found }, silence())
                }
            },
            None => (Collection { paths, next, current: None, found }, silence()),
        }
    }

    /// What verified so far, in the order of the candidates; all that verified,
    /// once nothing is left to ask.
    pub fn into_found(self) -> (found: Vec<ExecutableBin>)
        ensures
            found.deep_view() == self@.found,
    {
        self.found
    }
}

} // verus!
