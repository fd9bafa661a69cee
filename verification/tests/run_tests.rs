use repo_fetch::config::{effective_workers, ConcurrencyMode, RunConfiguration};
use repo_fetch::outcome::FetchOutcome;
use repo_fetch::plan::{join_path, plan_work};
use repo_fetch::scheduler::{Scheduler, SchedulerPhase};
use repo_fetch::task::{FetchTask, RemoteLookup};

#[test]
fn effective_workers_serial_is_one() {
    assert_eq!(effective_workers(&ConcurrencyMode::Serial, 16), 1);
}

#[test]
fn effective_workers_parallel_uses_the_ceiling() {
    assert_eq!(effective_workers(&ConcurrencyMode::Parallel { max_workers: 3 }, 16), 3);
}

#[test]
fn effective_workers_zero_means_host_default() {
    assert_eq!(effective_workers(&ConcurrencyMode::Parallel { max_workers: 0 }, 16), 16);
}

#[test]
fn join_path_puts_one_separator_between() {
    assert_eq!(join_path("/srv/repos", "alpha"), "/srv/repos/alpha".to_string());
}

#[test]
fn plan_work_builds_one_item_per_name_in_order() {
    let listing = Ok(vec!["a".to_string(), "b".to_string(), "c".to_string()]);
    let planned = plan_work(listing, "/root").unwrap();
    assert_eq!(planned.len(), 3);
    assert_eq!(planned[0].name, "a".to_string());
    assert_eq!(planned[0].path, "/root/a".to_string());
    assert_eq!(planned[1].name, "b".to_string());
    assert_eq!(planned[1].path, "/root/b".to_string());
    assert_eq!(planned[2].name, "c".to_string());
    assert_eq!(planned[2].path, "/root/c".to_string());
}

#[test]
fn plan_work_keeps_an_empty_listing_empty() {
    let planned = plan_work(Ok(Vec::new()), "/root").unwrap();
    assert_eq!(planned.len(), 0);
}

// A missing root is fatal: the error comes back once and no work items
// exist, so no task is ever scheduled.
#[test]
fn enumeration_error_is_fatal_and_schedules_nothing() {
    let listing: Result<Vec<String>, String> = Err("no such directory".to_string());
    let planned = plan_work(listing, "/missing");
    assert_eq!(planned, Err("no such directory".to_string()));
}

fn drive_task(item: &repo_fetch::outcome::WorkItem, steps: &TaskScript) -> FetchOutcome {
    let mut t = FetchTask::new(item);
    match steps {
        TaskScript::NotARepo(detail) => {
            t.on_open(Err(detail.clone()));
        },
        TaskScript::Succeeds(refs) => {
            t.on_open(Ok(()));
            t.on_remote(RemoteLookup::Found);
            t.on_transfer(Ok(*refs));
        },
    }
    t.into_outcome()
}

enum TaskScript {
    NotARepo(String),
    Succeeds(u64),
}

// Scenario: a root with three subdirectories, all valid repositories with
// reachable remotes and no interrupt, run in parallel.
#[test]
fn three_valid_repositories_give_three_successes() {
    let config = RunConfiguration {
        mode: ConcurrencyMode::Parallel { max_workers: 0 },
        search_depth: 1,
        root_path: "/srv/repos".to_string(),
    };
    let listing = Ok(vec!["one".to_string(), "two".to_string(), "three".to_string()]);
    let planned = plan_work(listing, &config.root_path).unwrap();
    let scripts = vec![TaskScript::Succeeds(4), TaskScript::Succeeds(0), TaskScript::Succeeds(250)];

    let mut s = Scheduler::new(config.mode, 4);
    s.start(planned);
    while let Some(i) = s.acquire() {
        let outcome = drive_task(&s.items[i], &scripts[i]);
        s.complete(i, outcome);
    }
    assert_eq!(s.in_flight, 0);
    let report = s.finish();
    assert_eq!(report.len(), 3);
    for o in &report {
        assert!(o.is_success());
        if let FetchOutcome::Success { ref_count, .. } = o {
            assert!(*ref_count <= 250);
        }
    }
}

// Scenario: the single subdirectory is an empty, non-git folder; the run
// ends without a fatal error, with exactly one NotARepository outcome.
#[test]
fn one_empty_folder_gives_a_single_not_a_repository() {
    let planned = plan_work(Ok(vec!["scratch".to_string()]), "/srv/repos").unwrap();
    let mut s = Scheduler::new(ConcurrencyMode::Parallel { max_workers: 0 }, 2);
    s.start(planned);
    while let Some(i) = s.acquire() {
        let outcome =
            drive_task(&s.items[i], &TaskScript::NotARepo("could not find a git directory".to_string()));
        s.complete(i, outcome);
    }
    let report = s.finish();
    assert_eq!(report.len(), 1);
    assert_eq!(
        report[0],
        FetchOutcome::NotARepository {
            name: "scratch".to_string(),
            detail: "could not find a git directory".to_string(),
        }
    );
}

// Scenario: one job in parallel mode behaves observably like serial mode —
// one task's network phase active at a time, five outcomes, in order.
#[test]
fn one_job_behaves_like_serial() {
    let names = vec![
        "a".to_string(),
        "b".to_string(),
        "c".to_string(),
        "d".to_string(),
        "e".to_string(),
    ];
    let planned = plan_work(Ok(names.clone()), "/r").unwrap();
    let mut s = Scheduler::new(ConcurrencyMode::Parallel { max_workers: 1 }, 8);
    assert_eq!(s.limit, 1);
    s.start(planned);
    assert_eq!(s.phase, SchedulerPhase::Running);

    let mut started: Vec<usize> = Vec::new();
    while let Some(i) = s.acquire() {
        // The ceiling of one makes a second concurrent acquisition impossible.
        assert_eq!(s.in_flight, 1);
        assert!(s.acquire().is_none());
        started.push(i);
        let outcome = drive_task(&s.items[i], &TaskScript::Succeeds(i as u64));
        s.complete(i, outcome);
    }
    assert_eq!(started, vec![0, 1, 2, 3, 4]);
    let report = s.finish();
    assert_eq!(report.len(), 5);
    for (j, o) in report.iter().enumerate() {
        assert_eq!(o.name(), &names[j]);
        assert!(o.is_success());
    }
}
