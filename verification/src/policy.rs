//! The interaction policy: when an existing link runs another version than the
//! source, is it replaced?
//!
//! Without an operator the answer is always yes. With one, the operator is
//! asked until a line of input is understood.

use vstd::prelude::*;
use crate::host::{Request, RequestView, Response, ResponseView};
use crate::notice::{announce, silence, Notice, NoticeView};
use crate::text::{lowercase, lowercased, trim, trimmed};

verus! {

/// What an answer means once it is trimmed and in lower case: nothing, `y` and
/// `yes` say yes; `n` and `no` say no; anything else says nothing.
pub open spec fn classification(answer: Seq<char>) -> Option<bool> {
    if answer == Seq::<char>::empty() || answer == seq!['y'] || answer == seq!['y', 'e', 's'] {
        Some(true)
    } else if answer == seq!['n'] || answer == seq!['n', 'o'] {
        Some(false)
    } else {
        None
    }
}

/// What a line of input means: the classification of the line without the
/// whitespace around it, in lower case.
pub open spec fn decision(line: Seq<char>) -> Option<bool> {
    classification(lowercased(trimmed(line)))
}

/// Classifies an answer that is already trimmed and in lower case.
pub fn classify(answer: &str) -> (meaning: Option<bool>)
    ensures
        meaning == classification(answer@),
{
    let length: usize = answer.unicode_len();
    if length == 0 {
        assert(answer@ =~= Seq::<char>::empty());
        Some(true)
    } else if length == 1 {
        let only = answer.get_char(0);
        if only == 'y' {
            assert(answer@ =~= seq!['y']);
            Some(true)
        } else if only == 'n' {
            assert(answer@ =~= seq!['n']);
            Some(false)
        } else {
            assert(answer@[0] != seq!['y'][0] && answer@[0] != seq!['n'][0]);
            None
        }
    } else if length == 2 {
        if answer.get_char(0) == 'n' && answer.get_char(1) == 'o' {
            assert(answer@ =~= seq!['n', 'o']);
            Some(false)
        } else {
            assert(answer@[0] != seq!['n', 'o'][0] || answer@[1] != seq!['n', 'o'][1]);
            None
        }
    } else if length == 3 {
        if answer.get_char(0) == 'y' && answer.get_char(1) == 'e' && answer.get_char(2) == 's' {
            assert(answer@ =~= seq!['y', 'e', 's']);
            Some(true)
        } else {
            assert(answer@[0] != seq!['y', 'e', 's'][0] || answer@[1] != seq!['y', 'e', 's'][1]
                || answer@[2] != seq!['y', 'e', 's'][2]);
            None
        }
    } else {
        None
    }
}

/// Reads the operator's decision out of one line of input.
pub fn decide(line: &str) -> (meaning: Option<bool>)
    ensures
        meaning == decision(line@),
{
    let stripped = trim(line);
    let normalized = lowercase(stripped.as_str());
    classify(normalized.as_str())
}

/// Where a consultation stands.
#[derive(Debug, Clone, Copy, PartialEq, Eq, Structural)]
pub enum Consultation {
    /// The operator has to be asked (again).
    Asking,
    /// Settled: replace, or keep.
    Decided(bool),
}

impl Consultation {
    /// How a consultation on versions that differ begins: decided for
    /// replacement where nobody can be asked, else with the question.
    pub open spec fn opening(
        display_name: Seq<char>,
        existing_version: Seq<char>,
        new_version: Seq<char>,
        interactive: bool,
    ) -> (Consultation, Seq<NoticeView>) {
        if interactive {
            (
                Consultation::Asking,
                seq![
                    NoticeView::Mismatch {
                        name: display_name,
                        existing: existing_version,
                        new: new_version,
                    },
                ],
            )
        } else {
            (Consultation::Decided(true), seq![NoticeView::Forcing { name: display_name }])
        }
    }

    /// How a consultation goes on: an answer that is understood decides it, any
    /// other is reported and the question stands. What is decided stays
    /// decided.
    pub open spec fn after(self, response: ResponseView) -> (Consultation, Seq<NoticeView>) {
        match (self, response) {
            (Consultation::Asking, ResponseView::Answered(line)) => match decision(line) {
                Some(replace) => (Consultation::Decided(replace), Seq::empty()),
                None => (Consultation::Asking, seq![NoticeView::InvalidAnswer]),
            },
            _ => (self, Seq::empty()),
        }
    }

    /// What the consultation waits for.
    pub open spec fn pending(self) -> Option<RequestView> {
        match self {
            Consultation::Asking => Some(RequestView::AskOperator),
            Consultation::Decided(_) => None,
        }
    }

    /// What the host has to do next; `None` once the matter is decided.
    pub fn request(&self) -> (request: Option<Request>)
        ensures
            request.deep_view() == self.pending(),
    {
        match self {
            Consultation::Asking => Some(Request::AskOperator),
            Consultation::Decided(_) => None,
        }
    }

    /// Takes the host's answer and moves on.
    pub fn resume(self, response: Response) -> (next: (Consultation, Vec<Notice>))
        ensures
            (next.0, next.1.deep_view()) == self.after(response@),
    {
        match (self, response) {
            (Consultation::Asking, Response::Answered(line)) => match decide(line.as_str()) {
                Some(replace) => (Consultation::Decided(replace), silence()),
                None => (Consultation::Asking, announce(Notice::InvalidAnswer)),
            },
            (standing, _) => (standing, silence()),
        }
    }
}

/// Opens the consultation on an existing link that runs `existing_version`
/// where the source runs `new_version`.
///
/// Where `interactive` is false the link is always replaced, and a notice says
/// so. Where it is true both versions are shown and the operator is asked.
pub fn should_replace(
    display_name: &str,
    existing_version: &str,
    new_version: &str,
    interactive: bool,
) -> (opened: (Consultation, Vec<Notice>))
    ensures
        (opened.0, opened.1.deep_view()) == Consultation::opening(
            display_name@,
            existing_version@,
            new_version@,
            interactive,
        ),
{
    if interactive {
        let shown = Notice::Mismatch {
            name: String::from_str(display_name),
            existing: String::from_str(existing_version),
            new: String::from_str(new_version),
        };
        (Consultation::Asking, announce(shown))
    } else {
        (
            Consultation::Decided(true),
            announce(Notice::Forcing { name: String::from_str(display_name) }),
        )
    }
}

} // verus!
