//! The verifier: is there a runnable binary at a path, and which version does
//! it report?
//!
//! A [`Verification`] first asks whether anything exists at the path. Only when
//! something does, it asks for the version call, and judges what came of it.

use vstd::prelude::*;
use vstd::utf8::{
    decode_first_scalar, decode_utf8, decode_utf8_split,
    is_char_boundary_iff_not_is_continuation_byte, pop_first_scalar, valid_utf8, valid_utf8_concat,
};
use crate::error::{ErrorView, ExecutableVerificationError};
use crate::host::{run_view, RawOutput, RawOutputView, Request, RequestView, Response, ResponseView};
use crate::text::{
    decode_lossy, decoded, is_blank, is_tidy, lemma_trailing_blank_is_ignored,
    lemma_trimmed_is_tidy, trim, trimmed,
};

verus! {

/// The version that a binary reports by writing `stdout`: the output decoded
/// leniently, without the whitespace around it.
pub open spec fn version_text(stdout: Seq<u8>) -> Seq<char> {
    trimmed(decoded(stdout))
}

/// What a version call proves of a binary: its version where the call ended
/// with status zero, else the reason why it is rejected.
pub open spec fn verdict(run: Result<RawOutputView, Seq<char>>) -> Result<Seq<char>, ErrorView> {
    match run {
        Ok(output) => if output.status == 0 {
            Ok(version_text(output.stdout))
        } else {
            Err(ErrorView::VersionCallFail(output.status))
        },
        Err(cause) => Err(ErrorView::ExecutionError(cause)),
    }
}

/// The mathematical content of the outcome of a verification.
pub open spec fn outcome_view(outcome: Result<String, ExecutableVerificationError>) -> Result<
    Seq<char>,
    ErrorView,
> {
    match outcome {
        Ok(version) => Ok(version@),
        Err(error) => Err(error@),
    }
}

/// How far a verification has come.
pub enum StageView {
    /// Waiting to learn whether anything exists at the path.
    Probing,
    /// Waiting for the version call to end.
    Running,
    /// Done, with the version or the reason for rejection.
    Settled(Result<Seq<char>, ErrorView>),
}

/// The mathematical content of a [`Verification`].
pub struct VerificationView {
    pub path: Seq<char>,
    pub stage: StageView,
}

impl VerificationView {
    /// A verification of `path` that has not asked anything yet.
    pub open spec fn begin(path: Seq<char>) -> VerificationView {
        VerificationView { path, stage: StageView::Probing }
    }

    /// What the verification waits for, if it is not settled.
    pub open spec fn request(self) -> Option<RequestView> {
        match self.stage {
            StageView::Probing => Some(RequestView::ProbePath { path: self.path }),
            StageView::Running => Some(RequestView::RunVersion { path: self.path }),
            StageView::Settled(_) => None,
        }
    }

    /// The verification after the host answered `response`. An answer to
    /// something that was not asked changes nothing.
    pub open spec fn resume(self, response: ResponseView) -> VerificationView {
        match (self.stage, response) {
            (StageView::Probing, ResponseView::Probed(exists)) => if exists {
                VerificationView { path: self.path, stage: StageView::Running }
            } else {
                VerificationView {
                    path: self.path,
                    stage: StageView::Settled(Err(ErrorView::MissingPath(self.path))),
                }
            },
            (StageView::Running, ResponseView::Ran(run)) => VerificationView {
                path: self.path,
                stage: StageView::Settled(verdict(run)),
            },
            _ => self,
        }
    }

    /// The outcome, once settled.
    pub open spec fn outcome(self) -> Option<Result<Seq<char>, ErrorView>> {
        match self.stage {
            StageView::Settled(outcome) => Some(outcome),
            _ => None,
        }
    }
}

/// Where nothing exists at the path, the verification settles with
/// `MissingPath` for that path, having asked for the probe and nothing else:
/// no process is started.
pub proof fn lemma_missing_path_is_not_run(path: Seq<char>)
    ensures
        VerificationView::begin(path).request() == Some(RequestView::ProbePath { path }),
        VerificationView::begin(path).resume(ResponseView::Probed(false)).request() is None,
        VerificationView::begin(path).resume(ResponseView::Probed(false)).outcome() == Some(
            Err::<Seq<char>, ErrorView>(ErrorView::MissingPath(path)),
        ),
{
}

/// Where something exists at the path, the version call is asked for, and the
/// verification settles with the judgement of what the call came to.
pub proof fn lemma_existing_path_is_run(path: Seq<char>, run: Result<RawOutputView, Seq<char>>)
    ensures
        VerificationView::begin(path).resume(ResponseView::Probed(true)).request() == Some(
            RequestView::RunVersion { path },
        ),
        VerificationView::begin(path).resume(ResponseView::Probed(true)).resume(
            ResponseView::Ran(run),
        ).request() is None,
        VerificationView::begin(path).resume(ResponseView::Probed(true)).resume(
            ResponseView::Ran(run),
        ).outcome() == Some(verdict(run)),
{
}

/// A version call that ends with a status other than zero is rejected with
/// `VersionCallFail`, which carries exactly that status.
pub proof fn lemma_failed_call_keeps_its_status(output: RawOutputView)
    requires
        output.status != 0,
    ensures
        verdict(Ok(output)) == Err::<Seq<char>, ErrorView>(
            ErrorView::VersionCallFail(output.status),
        ),
{
}

/// A version call that ends with status zero yields the captured output as
/// text, without the whitespace around it.
pub proof fn lemma_successful_call_yields_trimmed_output(output: RawOutputView)
    requires
        output.status == 0,
    ensures
        verdict(Ok(output)) == Ok::<Seq<char>, ErrorView>(trimmed(decoded(output.stdout))),
        is_tidy(version_text(output.stdout)),
{
    lemma_trimmed_is_tidy(decoded(output.stdout));
}

/// `count` newline bytes.
pub open spec fn newlines(count: nat) -> Seq<u8> {
    Seq::new(count, |i: int| 0x0Au8)
}

/// One newline byte after valid UTF-8 is valid UTF-8, and decodes to the same
/// text with one newline after it.
proof fn lemma_decode_with_newline(bytes: Seq<u8>)
    requires
        valid_utf8(bytes),
    ensures
        valid_utf8(bytes.push(0x0Au8)),
        decode_utf8(bytes.push(0x0Au8)) == decode_utf8(bytes).push('\n'),
{
    let single = seq![0x0Au8];
    let whole = bytes + single;
    let cut = bytes.len() as int;
    assert(0x0Au8 & 0x7F == 0x0Au8) by (bit_vector);
    assert(pop_first_scalar(single) == Seq::<u8>::empty());
    assert(valid_utf8(single)) by {
        reveal_with_fuel(valid_utf8, 2);
    }
    assert(decode_utf8(single) == seq!['\n']) by {
        reveal_with_fuel(decode_utf8, 2);
        assert(decode_utf8(pop_first_scalar(single)) == Seq::<char>::empty());
        assert(decode_first_scalar(single) == 0x0Au32);
        assert(seq![0x0Au32 as char] + Seq::<char>::empty() == seq!['\n']);
    }
    valid_utf8_concat(bytes, single);
    is_char_boundary_iff_not_is_continuation_byte(whole, cut);
    decode_utf8_split(whole, cut);
    assert(whole.subrange(0, cut) == bytes);
    assert(whole.subrange(cut, whole.len() as int) == single);
    assert(whole == bytes.push(0x0Au8));
    assert(decode_utf8(bytes) + seq!['\n'] == decode_utf8(bytes).push('\n'));
}

/// Output that is valid UTF-8 yields the same version however many newlines
/// follow it.
pub proof fn lemma_trailing_newlines_are_ignored(stdout: Seq<u8>, count: nat)
    requires
        valid_utf8(stdout),
    ensures
        valid_utf8(stdout + newlines(count)),
        version_text(stdout + newlines(count)) == version_text(stdout),
    decreases count,
{
    if count == 0 {
        assert(stdout + newlines(count) == stdout);
    } else {
        let shorter = stdout + newlines((count - 1) as nat);
        lemma_trailing_newlines_are_ignored(stdout, (count - 1) as nat);
        lemma_decode_with_newline(shorter);
        assert(stdout + newlines(count) == shorter.push(0x0Au8));
        assert(decode_utf8(shorter).push('\n') == decode_utf8(shorter) + seq!['\n']);
        assert(is_blank(seq!['\n']));
        lemma_trailing_blank_is_ignored(decode_utf8(shorter), seq!['\n']);
    }
}

/// Extracts the version from the captured standard output of a successful
/// version call.
pub fn version_of(stdout: &[u8]) -> (version: String)
    ensures
        version@ == version_text(stdout@),
        is_tidy(version@),
{
    let text = decode_lossy(stdout);
    proof {
        lemma_trimmed_is_tidy(text@);
    }
    trim(text.as_str())
}

/// Judges what a version call came to.
///
/// A call that ended with status zero yields the version. One that ended with
/// another status is rejected with that status. A process that could not be
/// started is rejected with the cause.
pub fn judge(run: Result<RawOutput, String>) -> (outcome: Result<
    String,
    ExecutableVerificationError,
>)
    ensures
        outcome_view(outcome) == verdict(run_view(run)),
{
    match run {
        Ok(output) => {
            if output.status == 0 {
                Ok(version_of(output.stdout.as_slice()))
            } else {
                Err(ExecutableVerificationError::VersionCallFail(output.status))
            }
        },
        Err(cause) => Err(ExecutableVerificationError::ExecutionError(cause)),
    }
}

enum Stage {
    Probing,
    Running,
    Settled(Result<String, ExecutableVerificationError>),
}

/// One verification of one path, from the first question to the outcome.
pub struct Verification {
    path: String,
    stage: Stage,
}

impl View for Verification {
    type V = VerificationView;

    closed spec fn view(&self) -> VerificationView {
        VerificationView {
            path: self.path@,
            stage: match self.stage {
                Stage::Probing => StageView::Probing,
                Stage::Running => StageView::Running,
                Stage::Settled(outcome) => StageView::Settled(outcome_view(outcome)),
            },
        }
    }
}

/// Begins verifying that the binary at `binary_path` exists and reports a
/// version. Nothing has been asked of the host yet.
pub fn verify_binary(binary_path: &str) -> (verification: Verification)
    ensures
        verification@ == VerificationView::begin(binary_path@),
{
    Verification { path: String::from_str(binary_path), stage: Stage::Probing }
}

impl Verification {
    /// The path under verification.
    pub fn path(&self) -> (path: &str)
        ensures
            path@ == self@.path,
    {
        self.path.as_str()
    }

    /// What the host has to do next; `None` once the verification is settled.
    pub fn request(&self) -> (request: Option<Request>)
        ensures
            request.deep_view() == self@.request(),
    {
        match self.stage {
            Stage::Probing => Some(Request::ProbePath { path: self.path.clone() }),
            Stage::Running => Some(Request::RunVersion { path: self.path.clone() }),
            Stage::Settled(_) => None,
        }
    }

    /// Takes the host's answer and moves on.
    ///
    /// Told that nothing exists at the path, the verification settles at once
    /// with `MissingPath`, and never asks for the version call. Told that
    /// something exists, it asks for the call, and settles with the judgement
    /// of what the call came to.
    pub fn resume(self, response: Response) -> (next: Verification)
        ensures
            next@ == self@.resume(response@),
    {
        match (self.stage, response) {
            (Stage::Probing, Response::Probed(exists)) => {
                if exists {
                    Verification { path: self.path, stage: Stage::Running }
                } else {
                    let missing = ExecutableVerificationError::MissingPath(self.path.clone());
                    Verification { path: self.path, stage: Stage::Settled(Err(missing)) }
                }
            },
            (Stage::Running, Response::Ran(run)) => {
                Verification { path: self.path, stage: Stage::Settled(judge(run)) }
            },
            (stage, _) => Verification { path: self.path, stage },
        }
    }

    /// Whether the outcome is known.
    pub fn is_settled(&self) -> (settled: bool)
        ensures
            settled == self@.outcome().is_some(),
    {
        match self.stage {
            Stage::Settled(_) => true,
            _ => false,
        }
    }

    /// The outcome: the version, or the reason for rejection. `None` as long as
    /// the verification waits for the host.
    pub fn outcome(self) -> (outcome: Option<Result<String, ExecutableVerificationError>>)
        ensures
            match outcome {
                Some(settled) => self@.outcome() == Some(outcome_view(settled)),
                None => self@.outcome() is None,
            },
    {
        match self.stage {
            Stage::Settled(outcome) => Some(outcome),
            _ => None,
        }
    }
}

/// The mathematical content of an [`ExecutableBin`].
pub struct ExecutableBinView {
    pub path: Seq<char>,
    pub version_report: Seq<char>,
}

/// A binary that passed verification: where it is, and the version it reports.
///
/// The version never begins or ends with whitespace. It is empty where the
/// binary wrote nothing but whitespace.
#[derive(Debug, PartialEq, Eq)]
pub struct ExecutableBin {
    path: String,
    version_report: String,
}

impl View for ExecutableBin {
    type V = ExecutableBinView;

    closed spec fn view(&self) -> ExecutableBinView {
        ExecutableBinView { path: self.path@, version_report: self.version_report@ }
    }
}

impl Clone for ExecutableBin {
    fn clone(&self) -> (copy: Self)
        ensures
            copy@ == self@,
    {
        proof {
            use_type_invariant(self);
        }
        ExecutableBin { path: self.path.clone(), version_report: self.version_report.clone() }
    }
}

impl DeepView for ExecutableBin {
    type V = ExecutableBinView;

    open spec fn deep_view(&self) -> ExecutableBinView {
        self@
    }
}

/// What the construction of an [`ExecutableBin`] for `candidate` yields, given
/// the outcome of verifying it.
pub open spec fn construction(
    candidate: Seq<char>,
    verified: Result<Seq<char>, ErrorView>,
) -> Result<ExecutableBinView, ErrorView> {
    match verified {
        Ok(version) => Ok(ExecutableBinView { path: candidate, version_report: trimmed(version) }),
        Err(error) => Err(error),
    }
}

/// The mathematical content of the result of a construction.
pub open spec fn construction_view(made: Result<ExecutableBin, ExecutableVerificationError>) -> Result<
    ExecutableBinView,
    ErrorView,
> {
    match made {
        Ok(bin) => Ok(bin@),
        Err(error) => Err(error@),
    }
}

impl ExecutableBin {
    #[verifier::type_invariant]
    spec fn well_formed(self) -> bool {
        is_tidy(self.version_report@)
    }

    /// Records `candidate` as a verified binary, given the outcome of its
    /// verification; a rejection is handed on unchanged.
    ///
    /// The version is stored trimmed, which leaves the outcome of a
    /// [`Verification`] as it is.
    pub fn new(candidate: &str, verified: Result<String, ExecutableVerificationError>) -> (made:
        Result<ExecutableBin, ExecutableVerificationError>)
        ensures
            construction_view(made) == construction(candidate@, outcome_view(verified)),
    {
        match verified {
            Ok(version) => {
                let version_report = trim(version.as_str());
                proof {
                    lemma_trimmed_is_tidy(version@);
                }
                Ok(ExecutableBin { path: String::from_str(candidate), version_report })
            },
            Err(error) => Err(error),
        }
    }

    /// Where the binary is.
    pub fn path(&self) -> (path: &str)
        ensures
            path@ == self@.path,
    {
        self.path.as_str()
    }

    /// The version the binary reports, free of surrounding whitespace.
    pub fn version_report(&self) -> (version: &str)
        ensures
            version@ == self@.version_report,
            is_tidy(version@),
    {
        proof {
            use_type_invariant(self);
        }
        self.version_report.as_str()
    }
}

} // verus!
