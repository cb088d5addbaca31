use symlistow::{
    collect, display_name, Collection, ExecutableVerificationError, Notice, RawOutput, Request,
    Response, Tone,
};

/// A host that knows, for each path, whether it exists and what running it
/// comes to. It records every request it carries out.
struct Host {
    binaries: Vec<(String, Result<RawOutput, String>)>,
    asked: Vec<Request>,
}

impl Host {
    fn new() -> Host {
        Host { binaries: Vec::new(), asked: Vec::new() }
    }

    fn with(mut self, path: &str, status: i32, stdout: &str) -> Host {
        let output = RawOutput { status, stdout: stdout.as_bytes().to_vec() };
        self.binaries.push((path.to_string(), Ok(output)));
        self
    }

    fn with_unrunnable(mut self, path: &str, cause: &str) -> Host {
        self.binaries.push((path.to_string(), Err(cause.to_string())));
        self
    }

    fn find(&self, path: &str) -> Option<&Result<RawOutput, String>> {
        self.binaries.iter().find(|entry| entry.0 == path).map(|entry| &entry.1)
    }

    fn perform(&mut self, request: Request) -> Response {
        let response = match &request {
            Request::ProbePath { path } => Response::Probed(self.find(path).is_some()),
            Request::RunVersion { path } => match self.find(path) {
                Some(Ok(output)) => Response::Ran(Ok(RawOutput {
                    status: output.status,
                    stdout: output.stdout.clone(),
                })),
                Some(Err(cause)) => Response::Ran(Err(cause.clone())),
                None => Response::Ran(Err("No such file or directory".to_string())),
            },
            other => panic!("a collection never asks for {:?}", other),
        };
        self.asked.push(request);
        response
    }
}

fn drive(host: &mut Host, mut collection: Collection) -> (Vec<(String, String)>, Vec<Notice>) {
    let mut reports = Vec::new();
    while let Some(request) = collection.request() {
        let response = host.perform(request);
        let (next, notices) = collection.resume(response);
        reports.extend(notices);
        collection = next;
    }
    let found = collection
        .into_found()
        .iter()
        .map(|bin| (bin.path().to_string(), bin.version_report().to_string()))
        .collect();
    (found, reports)
}

fn paths(list: &[&str]) -> Vec<String> {
    list.iter().map(|path| path.to_string()).collect()
}

fn pair(path: &str, version: &str) -> (String, String) {
    (path.to_string(), version.to_string())
}

#[test]
fn collector_skips_the_candidate_that_fails() {
    let mut host = Host::new()
        .with("/opt/a/bin/alpha", 0, "1.0.0\n")
        .with("/opt/b/bin/beta", 3, "broken\n")
        .with("/opt/c/bin/gamma", 0, "3.1\n");
    let candidates = paths(&["/opt/a/bin/alpha", "/opt/b/bin/beta", "/opt/c/bin/gamma"]);
    let (found, reports) = drive(&mut host, collect(candidates));
    assert_eq!(
        found,
        vec![pair("/opt/a/bin/alpha", "1.0.0"), pair("/opt/c/bin/gamma", "3.1")]
    );
    assert_eq!(
        reports,
        vec![
            Notice::Verified { name: "alpha".to_string(), version: "1.0.0".to_string() },
            Notice::Rejected { error: ExecutableVerificationError::VersionCallFail(3) },
            Notice::Verified { name: "gamma".to_string(), version: "3.1".to_string() },
        ]
    );
    assert_eq!(
        host.asked,
        vec![
            Request::ProbePath { path: "/opt/a/bin/alpha".to_string() },
            Request::RunVersion { path: "/opt/a/bin/alpha".to_string() },
            Request::ProbePath { path: "/opt/b/bin/beta".to_string() },
            Request::RunVersion { path: "/opt/b/bin/beta".to_string() },
            Request::ProbePath { path: "/opt/c/bin/gamma".to_string() },
            Request::RunVersion { path: "/opt/c/bin/gamma".to_string() },
        ]
    );
}

#[test]
fn collector_reports_each_kind_of_rejection() {
    let mut host = Host::new()
        .with_unrunnable("/bin/locked", "Permission denied (os error 13)")
        .with("/bin/bad", 1, "")
        .with("/bin/good", 0, "0.1");
    let candidates = paths(&["/bin/absent", "/bin/locked", "/bin/bad", "/bin/good"]);
    let (found, reports) = drive(&mut host, collect(candidates));
    assert_eq!(found, vec![pair("/bin/good", "0.1")]);
    assert_eq!(
        reports,
        vec![
            Notice::Rejected {
                error: ExecutableVerificationError::MissingPath("/bin/absent".to_string()),
            },
            Notice::Rejected {
                error: ExecutableVerificationError::ExecutionError(
                    "Permission denied (os error 13)".to_string()
                ),
            },
            Notice::Rejected { error: ExecutableVerificationError::VersionCallFail(1) },
            Notice::Verified { name: "good".to_string(), version: "0.1".to_string() },
        ]
    );
    assert_eq!(host.asked.len(), 7);
    assert!(!host.asked.contains(&Request::RunVersion { path: "/bin/absent".to_string() }));
}

#[test]
fn collector_of_nothing_asks_nothing() {
    let collection = collect(Vec::new());
    assert_eq!(collection.request(), None);
    let mut host = Host::new();
    let (found, reports) = drive(&mut host, collection);
    assert!(found.is_empty());
    assert!(reports.is_empty());
    assert!(host.asked.is_empty());
}

#[test]
fn collector_keeps_nothing_when_nothing_verifies() {
    let mut host = Host::new();
    let (found, reports) = drive(&mut host, collect(paths(&["a", "b"])));
    assert!(found.is_empty());
    assert_eq!(reports.len(), 2);
    assert!(reports.iter().all(|notice| notice.tone() == Tone::Failure));
}

#[test]
fn collector_does_not_deduplicate() {
    let mut host = Host::new().with("tool", 0, "2.0\n");
    let (found, reports) = drive(&mut host, collect(paths(&["tool", "tool"])));
    assert_eq!(found, vec![pair("tool", "2.0"), pair("tool", "2.0")]);
    assert_eq!(reports.len(), 2);
    assert_eq!(host.asked.len(), 4);
}

#[test]
fn collector_keeps_the_order_of_the_candidates() {
    let mut host = Host::new().with("z", 0, "26").with("m", 0, "13").with("a", 0, "1");
    let (found, _) = drive(&mut host, collect(paths(&["m", "z", "missing", "a"])));
    assert_eq!(found, vec![pair("m", "13"), pair("z", "26"), pair("a", "1")]);
}

#[test]
fn collector_passes_over_a_stray_answer() {
    let collection = collect(paths(&["tool"]));
    let (collection, notices) = collection.resume(Response::Answered("y".to_string()));
    assert!(notices.is_empty());
    assert_eq!(collection.request(), Some(Request::ProbePath { path: "tool".to_string() }));
    let (collection, _) = collection.resume(Response::Probed(false));
    assert_eq!(collection.request(), None);
    let (collection, notices) = collection.resume(Response::Probed(true));
    assert!(notices.is_empty());
    assert_eq!(collection.request(), None);
    assert!(collection.into_found().is_empty());
}

#[test]
fn display_name_is_the_final_component() {
    assert_eq!(display_name("/usr/local/bin/tool"), "tool");
    assert_eq!(display_name("bin/tool"), "tool");
    assert_eq!(display_name("tool"), "tool");
    assert_eq!(display_name("/opt/tool/"), "tool");
    assert_eq!(display_name("dir/tool.sh/."), "tool.sh");
}

#[test]
fn display_name_falls_back_to_the_whole_path() {
    assert_eq!(display_name("/"), "/");
    assert_eq!(display_name(""), "");
    assert_eq!(display_name(".."), "..");
    assert_eq!(display_name("/opt/tool/.."), "/opt/tool/..");
}
