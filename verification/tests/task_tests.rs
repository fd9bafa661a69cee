use repo_fetch::outcome::{FetchOutcome, WorkItem};
use repo_fetch::task::{FetchTask, RemoteLookup, TaskPhase};

fn item(name: &str) -> WorkItem {
    WorkItem { name: name.to_string(), path: format!("/tmp/{}", name) }
}

#[test]
fn new_task_awaits_open() {
    let t = FetchTask::new(&item("a"));
    assert_eq!(t.name, "a".to_string());
    assert!(matches!(t.phase, TaskPhase::AwaitingOpen));
}

#[test]
fn open_failure_yields_not_a_repository() {
    let mut t = FetchTask::new(&item("empty-dir"));
    t.on_open(Err("could not find a git directory".to_string()));
    assert!(t.is_terminal());
    let o = t.into_outcome();
    assert_eq!(
        o,
        FetchOutcome::NotARepository {
            name: "empty-dir".to_string(),
            detail: "could not find a git directory".to_string(),
        }
    );
}

#[test]
fn missing_remote_yields_no_remote_configured() {
    let mut t = FetchTask::new(&item("local-only"));
    t.on_open(Ok(()));
    assert!(matches!(t.phase, TaskPhase::AwaitingRemote));
    t.on_remote(RemoteLookup::Missing);
    let o = t.into_outcome();
    assert_eq!(o, FetchOutcome::NoRemoteConfigured { name: "local-only".to_string() });
}

#[test]
fn invalid_remote_yields_remote_resolution_failed() {
    let mut t = FetchTask::new(&item("broken"));
    t.on_open(Ok(()));
    t.on_remote(RemoteLookup::Invalid { detail: "bad config".to_string() });
    let o = t.into_outcome();
    assert_eq!(
        o,
        FetchOutcome::RemoteResolutionFailed {
            name: "broken".to_string(),
            detail: "bad config".to_string(),
        }
    );
}

#[test]
fn transfer_failure_yields_fetch_failed() {
    let mut t = FetchTask::new(&item("flaky"));
    t.on_open(Ok(()));
    t.on_remote(RemoteLookup::Found);
    assert!(matches!(t.phase, TaskPhase::AwaitingTransfer));
    t.on_transfer(Err("interrupted".to_string()));
    let o = t.into_outcome();
    assert_eq!(
        o,
        FetchOutcome::FetchFailed { name: "flaky".to_string(), detail: "interrupted".to_string() }
    );
}

#[test]
fn full_success_path() {
    let mut t = FetchTask::new(&item("good"));
    t.on_open(Ok(()));
    t.on_remote(RemoteLookup::Found);
    t.on_transfer(Ok(17));
    assert!(t.is_terminal());
    let o = t.into_outcome();
    assert_eq!(o, FetchOutcome::Success { name: "good".to_string(), ref_count: 17 });
}
