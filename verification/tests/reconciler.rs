use std::collections::BTreeMap;
use std::collections::VecDeque;
use symlistow::{
    reconcile, verify_binary, ExecutableVerificationError, Notice, RawOutput, Reconciliation,
    Request, Response, Tone,
};

/// What stands at one path of the pretended filesystem.
#[derive(Debug, Clone, PartialEq)]
enum Entry {
    /// A binary that prints `stdout` and ends with `status`.
    Binary { status: i32, stdout: String },
    /// A file that cannot be started.
    Locked,
    /// A symbolic link to another path.
    Link(String),
}

/// A pretended filesystem and operator. An entry exists where the path is
/// known, whatever a link there leads to; running follows links.
struct World {
    entries: BTreeMap<String, Entry>,
    answers: VecDeque<String>,
    asked: Vec<Request>,
    removal_fails: bool,
    linking_fails: bool,
}

impl World {
    fn new() -> World {
        World {
            entries: BTreeMap::new(),
            answers: VecDeque::new(),
            asked: Vec::new(),
            removal_fails: false,
            linking_fails: false,
        }
    }

    fn binary(mut self, path: &str, version: &str) -> World {
        let entry = Entry::Binary { status: 0, stdout: format!("{}\n", version) };
        self.entries.insert(path.to_string(), entry);
        self
    }

    fn entry(mut self, path: &str, entry: Entry) -> World {
        self.entries.insert(path.to_string(), entry);
        self
    }

    fn link(self, path: &str, target: &str) -> World {
        self.entry(path, Entry::Link(target.to_string()))
    }

    fn answering(mut self, lines: &[&str]) -> World {
        self.answers = lines.iter().map(|line| line.to_string()).collect();
        self
    }

    fn run(&self, path: &str) -> Result<RawOutput, String> {
        let mut at = path.to_string();
        for _ in 0..8 {
            match self.entries.get(&at) {
                Some(Entry::Link(target)) => at = target.clone(),
                Some(Entry::Binary { status, stdout }) => {
                    return Ok(RawOutput { status: *status, stdout: stdout.as_bytes().to_vec() });
                }
                Some(Entry::Locked) => return Err("Permission denied (os error 13)".to_string()),
                None => return Err("No such file or directory (os error 2)".to_string()),
            }
        }
        Err("Too many levels of symbolic links (os error 40)".to_string())
    }

    fn perform(&mut self, request: Request) -> Response {
        let response = match &request {
            Request::ProbePath { path } => Response::Probed(self.entries.contains_key(path)),
            Request::RunVersion { path } => Response::Ran(self.run(path)),
            Request::AskOperator => {
                Response::Answered(self.answers.pop_front().expect("no answer is left"))
            }
            Request::RemoveEntry { path } => {
                if self.removal_fails {
                    Response::Removed(Err("Operation not permitted (os error 1)".to_string()))
                } else if self.entries.remove(path).is_some() {
                    Response::Removed(Ok(()))
                } else {
                    Response::Removed(Err("No such file or directory (os error 2)".to_string()))
                }
            }
            Request::CreateSymlink { source, link } => {
                if self.linking_fails {
                    Response::Linked(Err("Read-only file system (os error 30)".to_string()))
                } else if self.entries.contains_key(link) {
                    Response::Linked(Err("File exists (os error 17)".to_string()))
                } else {
                    self.entries.insert(link.clone(), Entry::Link(source.clone()));
                    Response::Linked(Ok(()))
                }
            }
        };
        self.asked.push(request);
        response
    }

    fn mutations(&self) -> Vec<Request> {
        self.asked
            .iter()
            .filter(|request| {
                matches!(request, Request::RemoveEntry { .. } | Request::CreateSymlink { .. })
            })
            .map(|request| match request {
                Request::RemoveEntry { path } => Request::RemoveEntry { path: path.clone() },
                Request::CreateSymlink { source, link } => {
                    Request::CreateSymlink { source: source.clone(), link: link.clone() }
                }
                other => panic!("{:?} changes nothing", other),
            })
            .collect()
    }

    fn verify(&mut self, path: &str) -> Result<String, ExecutableVerificationError> {
        let mut verification = verify_binary(path);
        while let Some(request) = verification.request() {
            let response = self.perform(request);
            verification = verification.resume(response);
        }
        verification.outcome().expect("the verification is settled")
    }
}

const LINK: &str = "/home/dev/bin/tool";
const OLD: &str = "/opt/tool-1/bin/tool";
const NEW: &str = "/opt/tool-2/bin/tool";

fn drive(world: &mut World, mut reconciliation: Reconciliation) -> Vec<Notice> {
    let mut reports = Vec::new();
    while let Some(request) = reconciliation.request() {
        assert!(!reconciliation.is_finished());
        let response = world.perform(request);
        let (next, notices) = reconciliation.resume(response);
        reports.extend(notices);
        reconciliation = next;
    }
    assert!(reconciliation.is_finished());
    reports
}

/// Hands `responses` over in order, and gives back what was asked before each
/// and all that was reported.
fn script(mut reconciliation: Reconciliation, responses: Vec<Response>) -> (Vec<Request>, Vec<Notice>) {
    let mut asked = Vec::new();
    let mut reports = Vec::new();
    for response in responses {
        asked.push(reconciliation.request().expect("something is asked for"));
        let (next, notices) = reconciliation.resume(response);
        reports.extend(notices);
        reconciliation = next;
    }
    assert_eq!(reconciliation.request(), None);
    (asked, reports)
}

fn name() -> String {
    "tool".to_string()
}

fn remove_link() -> Request {
    Request::RemoveEntry { path: LINK.to_string() }
}

fn link_to(source: &str) -> Request {
    Request::CreateSymlink { source: source.to_string(), link: LINK.to_string() }
}

#[test]
fn absent_link_is_created() {
    let mut world = World::new().binary(NEW, "1.0.0");
    let reports = drive(&mut world, reconcile(LINK, NEW, "tool", "1.0.0", false));
    assert_eq!(
        reports,
        vec![Notice::Creating { name: name() }, Notice::Created { name: name() }]
    );
    assert_eq!(world.entries.get(LINK), Some(&Entry::Link(NEW.to_string())));
    assert_eq!(world.mutations(), vec![link_to(NEW)]);
    assert_eq!(world.verify(LINK), Ok("1.0.0".to_string()));
}

#[test]
fn matching_link_is_left_alone() {
    let mut world = World::new().binary(OLD, "1.0.0").binary(NEW, "1.0.0").link(LINK, OLD);
    let before = world.entries.clone();
    let reports = drive(&mut world, reconcile(LINK, NEW, "tool", "1.0.0", false));
    assert_eq!(reports, vec![Notice::UpToDate { name: name() }]);
    assert_eq!(world.entries, before);
    assert!(world.mutations().is_empty());
}

#[test]
fn reconciling_twice_changes_nothing_the_second_time() {
    let mut world = World::new().binary(NEW, "1.0.0");
    drive(&mut world, reconcile(LINK, NEW, "tool", "1.0.0", true));
    let after_first = world.entries.clone();
    let changed_by_first = world.mutations().len();
    for _ in 0..2 {
        let reports = drive(&mut world, reconcile(LINK, NEW, "tool", "1.0.0", true));
        assert_eq!(reports, vec![Notice::UpToDate { name: name() }]);
        assert_eq!(world.entries, after_first);
        assert_eq!(world.mutations().len(), changed_by_first);
    }
}

#[test]
fn other_version_is_replaced_without_asking() {
    let mut world = World::new().binary(OLD, "1.0.0").binary(NEW, "2.0.0").link(LINK, OLD);
    let reports = drive(&mut world, reconcile(LINK, NEW, "tool", "2.0.0", false));
    assert_eq!(
        reports,
        vec![
            Notice::Forcing { name: name() },
            Notice::Replacing { name: name() },
            Notice::Replaced { name: name() },
        ]
    );
    assert_eq!(world.mutations(), vec![remove_link(), link_to(NEW)]);
    assert!(!world.asked.contains(&Request::AskOperator));
    assert_eq!(world.entries.get(LINK), Some(&Entry::Link(NEW.to_string())));
    assert_eq!(world.verify(LINK), Ok("2.0.0".to_string()));
}

#[test]
fn operator_keeps_the_link() {
    let mut world = World::new()
        .binary(OLD, "1.0.0")
        .binary(NEW, "2.0.0")
        .link(LINK, OLD)
        .answering(&["n\n"]);
    let before = world.entries.clone();
    let reports = drive(&mut world, reconcile(LINK, NEW, "tool", "2.0.0", true));
    assert_eq!(
        reports,
        vec![
            Notice::Mismatch {
                name: name(),
                existing: "1.0.0".to_string(),
                new: "2.0.0".to_string(),
            },
            Notice::Keeping { name: name() },
        ]
    );
    assert_eq!(world.entries, before);
    assert!(world.mutations().is_empty());
    assert_eq!(world.entries.get(LINK), Some(&Entry::Link(OLD.to_string())));
}

#[test]
fn operator_agrees_after_answers_that_are_not_understood() {
    let mut world = World::new()
        .binary(OLD, "1.0.0")
        .binary(NEW, "2.0.0")
        .link(LINK, OLD)
        .answering(&["hm\n", "perhaps\n", "YES\n"]);
    let reports = drive(&mut world, reconcile(LINK, NEW, "tool", "2.0.0", true));
    assert_eq!(
        reports,
        vec![
            Notice::Mismatch {
                name: name(),
                existing: "1.0.0".to_string(),
                new: "2.0.0".to_string(),
            },
            Notice::InvalidAnswer,
            Notice::InvalidAnswer,
            Notice::Replacing { name: name() },
            Notice::Replaced { name: name() },
        ]
    );
    assert!(world.answers.is_empty());
    assert_eq!(world.entries.get(LINK), Some(&Entry::Link(NEW.to_string())));
}

#[test]
fn an_empty_answer_means_yes() {
    let mut world = World::new()
        .binary(OLD, "1.0.0")
        .binary(NEW, "2.0.0")
        .link(LINK, OLD)
        .answering(&["\n"]);
    drive(&mut world, reconcile(LINK, NEW, "tool", "2.0.0", true));
    assert_eq!(world.mutations(), vec![remove_link(), link_to(NEW)]);
}

#[test]
fn link_to_a_deleted_target_is_made_anew() {
    for interactive in [false, true] {
        let mut world = World::new().binary(NEW, "2.0.0").link(LINK, OLD);
        let reports = drive(&mut world, reconcile(LINK, NEW, "tool", "2.0.0", interactive));
        assert_eq!(
            reports,
            vec![
                Notice::Repairing {
                    name: name(),
                    error: ExecutableVerificationError::ExecutionError(
                        "No such file or directory (os error 2)".to_string()
                    ),
                },
                Notice::Created { name: name() },
            ]
        );
        assert_eq!(world.mutations(), vec![remove_link(), link_to(NEW)]);
        assert!(!world.asked.contains(&Request::AskOperator));
        assert_eq!(world.verify(LINK), Ok("2.0.0".to_string()));
    }
}

#[test]
fn link_that_vanished_is_made_anew() {
    for interactive in [false, true] {
        let (asked, reports) = script(
            reconcile(LINK, NEW, "tool", "2.0.0", interactive),
            vec![
                Response::Probed(true),
                Response::Probed(false),
                Response::Removed(Err("No such file or directory (os error 2)".to_string())),
                Response::Linked(Ok(())),
            ],
        );
        assert_eq!(
            asked,
            vec![
                Request::ProbePath { path: LINK.to_string() },
                Request::ProbePath { path: LINK.to_string() },
                remove_link(),
                link_to(NEW),
            ]
        );
        assert_eq!(
            reports,
            vec![
                Notice::Repairing {
                    name: name(),
                    error: ExecutableVerificationError::MissingPath(LINK.to_string()),
                },
                Notice::Created { name: name() },
            ]
        );
    }
}

#[test]
fn entry_that_fails_its_version_call_is_made_anew() {
    let broken = Entry::Binary { status: 2, stdout: "1.0.0\n".to_string() };
    let mut world = World::new().binary(NEW, "1.0.0").entry(LINK, broken);
    let reports = drive(&mut world, reconcile(LINK, NEW, "tool", "1.0.0", true));
    assert_eq!(
        reports,
        vec![
            Notice::Repairing {
                name: name(),
                error: ExecutableVerificationError::VersionCallFail(2),
            },
            Notice::Created { name: name() },
        ]
    );
    assert_eq!(world.entries.get(LINK), Some(&Entry::Link(NEW.to_string())));
}

#[test]
fn entry_that_cannot_be_started_is_made_anew() {
    let mut world = World::new().binary(NEW, "1.0.0").entry(LINK, Entry::Locked);
    let reports = drive(&mut world, reconcile(LINK, NEW, "tool", "1.0.0", false));
    assert_eq!(reports.len(), 2);
    assert_eq!(reports[0].tone(), Tone::Failure);
    assert_eq!(reports[1], Notice::Created { name: name() });
    assert_eq!(world.mutations(), vec![remove_link(), link_to(NEW)]);
}

#[test]
fn failed_removal_ends_a_replacement() {
    let mut world = World::new().binary(OLD, "1.0.0").binary(NEW, "2.0.0").link(LINK, OLD);
    world.removal_fails = true;
    let before = world.entries.clone();
    let reports = drive(&mut world, reconcile(LINK, NEW, "tool", "2.0.0", false));
    assert_eq!(
        reports,
        vec![
            Notice::Forcing { name: name() },
            Notice::Replacing { name: name() },
            Notice::RemoveFailed {
                name: name(),
                cause: "Operation not permitted (os error 1)".to_string(),
            },
        ]
    );
    assert_eq!(world.mutations(), vec![remove_link()]);
    assert_eq!(world.entries, before);
}

#[test]
fn failed_removal_does_not_end_a_repair() {
    let mut world = World::new().binary(NEW, "2.0.0").link(LINK, OLD);
    world.removal_fails = true;
    let reports = drive(&mut world, reconcile(LINK, NEW, "tool", "2.0.0", false));
    assert_eq!(world.mutations(), vec![remove_link(), link_to(NEW)]);
    assert_eq!(
        reports.last(),
        Some(&Notice::CreateFailed {
            name: name(),
            cause: "File exists (os error 17)".to_string(),
        })
    );
}

#[test]
fn failed_creation_is_reported_and_not_tried_again() {
    let mut world = World::new().binary(NEW, "1.0.0");
    world.linking_fails = true;
    let reports = drive(&mut world, reconcile(LINK, NEW, "tool", "1.0.0", false));
    assert_eq!(
        reports,
        vec![
            Notice::Creating { name: name() },
            Notice::CreateFailed {
                name: name(),
                cause: "Read-only file system (os error 30)".to_string(),
            },
        ]
    );
    assert_eq!(world.mutations(), vec![link_to(NEW)]);
    assert_eq!(world.entries.get(LINK), None);
}

#[test]
fn failed_creation_after_removal_leaves_no_link() {
    let mut world = World::new().binary(OLD, "1.0.0").binary(NEW, "2.0.0").link(LINK, OLD);
    world.linking_fails = true;
    let reports = drive(&mut world, reconcile(LINK, NEW, "tool", "2.0.0", false));
    assert_eq!(reports.last().map(|notice| notice.tone()), Some(Tone::Failure));
    assert_eq!(world.mutations(), vec![remove_link(), link_to(NEW)]);
    assert_eq!(world.entries.get(LINK), None);
}

#[test]
fn versions_are_compared_exactly() {
    let mut world = World::new().binary(OLD, "1.0.0").binary(NEW, "1.0").link(LINK, OLD);
    let reports = drive(&mut world, reconcile(LINK, NEW, "tool", "1.0", false));
    assert_eq!(reports.first(), Some(&Notice::Forcing { name: name() }));
    let mut world = World::new().binary(OLD, "V1").binary(NEW, "v1").link(LINK, OLD);
    let reports = drive(&mut world, reconcile(LINK, NEW, "tool", "v1", false));
    assert_eq!(reports.last(), Some(&Notice::Replaced { name: name() }));
}

#[test]
fn reconciliation_begins_by_probing_the_link() {
    let reconciliation = reconcile(LINK, NEW, "tool", "1.0.0", true);
    assert!(!reconciliation.is_finished());
    assert_eq!(reconciliation.request(), Some(Request::ProbePath { path: LINK.to_string() }));
}

#[test]
fn reconciliation_passes_over_a_stray_answer() {
    let reconciliation = reconcile(LINK, NEW, "tool", "1.0.0", true);
    let (reconciliation, notices) = reconciliation.resume(Response::Linked(Ok(())));
    assert!(notices.is_empty());
    assert_eq!(reconciliation.request(), Some(Request::ProbePath { path: LINK.to_string() }));
    let (reconciliation, _) = reconciliation.resume(Response::Probed(false));
    assert_eq!(reconciliation.request(), Some(link_to(NEW)));
    let (reconciliation, notices) = reconciliation.resume(Response::Removed(Ok(())));
    assert!(notices.is_empty());
    assert_eq!(reconciliation.request(), Some(link_to(NEW)));
    let (reconciliation, _) = reconciliation.resume(Response::Linked(Ok(())));
    assert!(reconciliation.is_finished());
    let (reconciliation, notices) = reconciliation.resume(Response::Probed(true));
    assert!(notices.is_empty());
    assert!(reconciliation.is_finished());
}

#[test]
fn tones_mark_success_and_failure() {
    let cause = || "x".to_string();
    assert_eq!(Notice::Created { name: name() }.tone(), Tone::Success);
    assert_eq!(Notice::Replaced { name: name() }.tone(), Tone::Success);
    assert_eq!(Notice::UpToDate { name: name() }.tone(), Tone::Success);
    assert_eq!(Notice::Verified { name: name(), version: cause() }.tone(), Tone::Success);
    assert_eq!(Notice::RemoveFailed { name: name(), cause: cause() }.tone(), Tone::Failure);
    assert_eq!(Notice::CreateFailed { name: name(), cause: cause() }.tone(), Tone::Failure);
    assert_eq!(
        Notice::Rejected { error: ExecutableVerificationError::VersionCallFail(1) }.tone(),
        Tone::Failure
    );
    assert_eq!(Notice::Creating { name: name() }.tone(), Tone::Progress);
    assert_eq!(Notice::Replacing { name: name() }.tone(), Tone::Progress);
    assert_eq!(Notice::Keeping { name: name() }.tone(), Tone::Progress);
    assert_eq!(Notice::Forcing { name: name() }.tone(), Tone::Progress);
    assert_eq!(Notice::InvalidAnswer.tone(), Tone::Progress);
}
