use std::collections::HashMap;

use littleci::config::{
    choose_data_dir, default_config_path, should_skip, AuthenticationType, GitTrigger,
    PersistedConfig, Trigger,
};
use littleci::git::GitReference;
use littleci::queue::{
    drain_step, finish_job, job_dir, job_environment, job_log_path, new_job, oldest_queued,
    push_rows, status_update, terminal_status, all_idle, ArbitraryData, DrainStep, EnqueueError,
    ExecutionStatus, JobRow, LogRow, ProcessOutcome, QueueItem, QueueItemData,
};
use littleci::repository::{Repository, RepositoryError, RepositoryRecord, RepositoryResponse};
use littleci::response::{CommandRunner, ErrorResponse, JobSummary, Response};

fn pairs(items: &[(&str, &str)]) -> Vec<(String, String)> {
    items.iter().map(|(k, v)| (k.to_string(), v.to_string())).collect()
}

fn repo(name: &str, slug: &str, triggers: Vec<Trigger>) -> Repository {
    Repository {
        id: "r1".to_string(),
        slug: slug.to_string(),
        name: name.to_string(),
        run: "echo hi".to_string(),
        working_dir: None,
        secret: "S".to_string(),
        variables: Vec::new(),
        triggers,
        webhooks: Vec::new(),
        deleted: false,
        created_at: 100,
        updated_at: 100,
    }
}

fn env_map(entries: &[(String, String)]) -> HashMap<String, String> {
    let mut m = HashMap::new();
    for (k, v) in entries {
        m.insert(k.clone(), v.clone());
    }
    m
}

fn job_row(id: &str, repository_id: &str, status: &str, created_at: i64) -> JobRow {
    JobRow {
        id: id.to_string(),
        status: status.to_string(),
        exit_code: None,
        created_at,
        updated_at: created_at,
        repository_id: repository_id.to_string(),
    }
}

#[test]
fn trigger_filter_skips_other_branch() {
    let triggers = vec![Trigger::Git(GitTrigger::Head(vec!["master".to_string()]))];
    let reference = GitReference::parse("refs/heads/dev").unwrap();
    assert!(should_skip(&triggers, &reference));
}

#[test]
fn trigger_filter_matches_listed_branch() {
    let triggers = vec![Trigger::Git(GitTrigger::Head(vec!["master".to_string()]))];
    let reference = GitReference::parse("refs/heads/master").unwrap();
    assert!(!should_skip(&triggers, &reference));
}

#[test]
fn trigger_kinds() {
    let head = GitReference::Head("dev".to_string());
    let tag = GitReference::Tag("v1".to_string());
    assert!(should_skip(&Vec::new(), &head));
    assert!(!should_skip(&vec![Trigger::Any], &tag));
    assert!(!should_skip(&vec![Trigger::Git(GitTrigger::Any)], &head));
    assert!(!should_skip(&vec![Trigger::Git(GitTrigger::Tag)], &tag));
    assert!(should_skip(&vec![Trigger::Git(GitTrigger::Tag)], &head));
    let heads = vec![Trigger::Git(GitTrigger::Head(vec!["main".to_string(), "dev".to_string()]))];
    assert!(!should_skip(&heads, &head));
    assert!(should_skip(&heads, &tag));
    let mixed = vec![Trigger::Git(GitTrigger::Tag), Trigger::Git(GitTrigger::Head(vec!["dev".to_string()]))];
    assert!(!should_skip(&mixed, &head));
}

#[test]
fn default_trigger_is_master_pushes() {
    match Trigger::default() {
        Trigger::Git(GitTrigger::Head(refs)) => assert_eq!(refs, vec!["master".to_string()]),
        _ => panic!("unexpected default trigger"),
    }
    assert_eq!(AuthenticationType::default(), AuthenticationType::Simple);
}

#[test]
fn git_reference_parsing() {
    match GitReference::parse("refs/heads/master") {
        Some(GitReference::Head(b)) => assert_eq!(b, "master"),
        other => panic!("unexpected {:?}", other),
    }
    match GitReference::parse("refs/tags/v1.0") {
        Some(GitReference::Tag(t)) => assert_eq!(t, "v1.0"),
        other => panic!("unexpected {:?}", other),
    }
    match GitReference::parse("refs/heads/feature/x\nrest") {
        Some(GitReference::Head(b)) => assert_eq!(b, "feature/x"),
        other => panic!("unexpected {:?}", other),
    }
    assert!(GitReference::parse("refs/heads/").is_none());
    assert!(GitReference::parse("refs/pull/1/head").is_none());
    assert!(GitReference::parse("xrefs/heads/master").is_none());
}

#[test]
fn status_columns() {
    assert_eq!(ExecutionStatus::Failed(7).to_columns(), ("failed".to_string(), Some(7)));
    assert_eq!(ExecutionStatus::Queued.to_columns(), ("queued".to_string(), None));
    assert_eq!(ExecutionStatus::Cancelled.to_columns(), ("cancelled".to_string(), None));
    assert_eq!(ExecutionStatus::Unknown.to_columns(), ("unknown".to_string(), None));
    assert_eq!(ExecutionStatus::from_columns("running", None), ExecutionStatus::Running);
    assert_eq!(ExecutionStatus::from_columns("completed", None), ExecutionStatus::Completed);
    assert_eq!(ExecutionStatus::from_columns("failed", Some(3)), ExecutionStatus::Failed(3));
    assert_eq!(ExecutionStatus::from_columns("failed", None), ExecutionStatus::Unknown);
    assert_eq!(ExecutionStatus::from_columns("queued", Some(1)), ExecutionStatus::Unknown);
    assert_eq!(ExecutionStatus::from_columns("paused", None), ExecutionStatus::Unknown);
    assert_eq!(ExecutionStatus::default(), ExecutionStatus::Queued);
}

#[test]
fn status_columns_round_trip() {
    for s in [
        ExecutionStatus::Cancelled,
        ExecutionStatus::Queued,
        ExecutionStatus::Running,
        ExecutionStatus::Failed(-1),
        ExecutionStatus::Failed(7),
        ExecutionStatus::Completed,
        ExecutionStatus::Unknown,
    ] {
        let (name, code) = s.to_columns();
        assert_eq!(code.is_some(), name == "failed");
        assert_eq!(ExecutionStatus::from_columns(&name, code), s);
    }
}

#[test]
fn environment_job_data_overrides_variables() {
    let vars = pairs(&[("A", "1"), ("B", "2")]);
    let data = ArbitraryData::new(pairs(&[("B", "3"), ("C", "4")]));
    let env = env_map(&job_environment(&vars, &data));
    assert_eq!(env.len(), 3);
    assert_eq!(env["A"], "1");
    assert_eq!(env["B"], "3");
    assert_eq!(env["C"], "4");
    assert_eq!(data.inner().len(), 2);
}

#[test]
fn push_enqueues_a_queued_job() {
    let r = repo("demo", "demo", vec![Trigger::Any]);
    let job = new_job("demo", Some(&r), "j1".to_string(), ArbitraryData::new(Vec::new()), 500).unwrap();
    assert_eq!(job.id, "j1");
    assert_eq!(job.repository_id, "r1");
    assert_eq!(job.status, ExecutionStatus::Queued);
    assert_eq!(job.created_at, 500);
    assert_eq!(job.updated_at, 500);
    assert!(job.logs.is_empty());
}

#[test]
fn soft_delete_blocks_enqueue() {
    let mut r = repo("demo", "demo", vec![Trigger::Any]);
    r.deleted = true;
    match new_job("demo", Some(&r), "j1".to_string(), ArbitraryData::new(Vec::new()), 500) {
        Err(e) => {
            assert!(matches!(e, EnqueueError::Deleted));
            assert_eq!(e.message(), "Repository has been deleted.");
        }
        Ok(_) => panic!("a deleted repository took a job"),
    }
}

#[test]
fn unknown_repository_is_not_found() {
    match new_job("nope", None, "j1".to_string(), ArbitraryData::new(Vec::new()), 500) {
        Err(e) => assert_eq!(e.message(), "Could not find repository nope"),
        Ok(_) => panic!("enqueued without a repository"),
    }
}

#[test]
fn failing_command_is_recorded() {
    assert_eq!(terminal_status(ProcessOutcome::Exited(7)), ExecutionStatus::Failed(7));
    assert_eq!(terminal_status(ProcessOutcome::Exited(0)), ExecutionStatus::Completed);
    assert_eq!(terminal_status(ProcessOutcome::Signalled), ExecutionStatus::Cancelled);
    assert_eq!(terminal_status(ProcessOutcome::SpawnFailed), ExecutionStatus::Failed(-1));
    let job = QueueItem::new("j1".to_string(), "r1", ArbitraryData::new(Vec::new()), 1);
    let mut running = job.clone();
    running.status = ExecutionStatus::Running;
    let done = finish_job(running, ProcessOutcome::Exited(7));
    assert_eq!(done.status, ExecutionStatus::Failed(7));
    assert_eq!(done.id, "j1");
    let update = status_update(&done, 9);
    assert_eq!(update.status, "failed");
    assert_eq!(update.exit_code, Some(7));
    assert_eq!(update.log.status, "failed");
    assert_eq!(update.log.exit_code, Some(7));
    assert_eq!(update.log.created_at, 9);
    assert_eq!(update.updated_at, 9);
}

#[test]
fn drain_steps() {
    let r = repo("demo", "demo", vec![]);
    let job = QueueItem::new("j1".to_string(), "r1", ArbitraryData::new(Vec::new()), 1);
    match drain_step(Some(&r), Some(job.clone())) {
        DrainStep::Run(j) => {
            assert_eq!(j.status, ExecutionStatus::Running);
            assert_eq!(j.id, "j1");
        }
        DrainStep::Stop => panic!("queued job not run"),
    }
    assert!(matches!(drain_step(Some(&r), None), DrainStep::Stop));
    assert!(matches!(drain_step(None, Some(job.clone())), DrainStep::Stop));
    let mut gone = r.clone();
    gone.deleted = true;
    assert!(matches!(drain_step(Some(&gone), Some(job.clone())), DrainStep::Stop));
    let mut running = job;
    running.status = ExecutionStatus::Running;
    assert!(matches!(drain_step(Some(&r), Some(running)), DrainStep::Stop));
}

#[test]
fn push_writes_a_queued_log_row() {
    let job = QueueItem::new("j1".to_string(), "r1", ArbitraryData::new(Vec::new()), 10);
    let (row, log) = push_rows(&job, 10);
    assert_eq!(row.id, "j1");
    assert_eq!(row.status, "queued");
    assert_eq!(row.exit_code, None);
    assert_eq!(row.repository_id, "r1");
    assert_eq!(log.status, "queued");
    assert_eq!(log.queue_id, "j1");
    assert_eq!(log.created_at, 10);
}

#[test]
fn jobs_run_oldest_first() {
    let rows = vec![
        job_row("a", "r1", "completed", 1),
        job_row("b", "r2", "queued", 2),
        job_row("c", "r1", "queued", 5),
        job_row("d", "r1", "queued", 3),
        job_row("e", "r1", "queued", 3),
    ];
    assert_eq!(oldest_queued(&rows, "r1"), Some(3));
    assert_eq!(oldest_queued(&rows, "r2"), Some(1));
    assert_eq!(oldest_queued(&rows, "r3"), None);
    assert_eq!(oldest_queued(&Vec::new(), "r1"), None);
}

#[test]
fn job_rows_read_back() {
    let row = JobRow { exit_code: Some(2), ..job_row("j", "r1", "failed", 4) };
    let logs = vec![
        LogRow { status: "queued".to_string(), exit_code: None, created_at: 4, queue_id: "j".to_string() },
        LogRow { status: "weird".to_string(), exit_code: None, created_at: 6, queue_id: "j".to_string() },
    ];
    let item = QueueItem::from_row(row, ArbitraryData::new(Vec::new()), logs);
    assert_eq!(item.status, ExecutionStatus::Failed(2));
    assert_eq!(item.logs.len(), 2);
    assert_eq!(item.logs[0].status, ExecutionStatus::Queued);
    assert_eq!(item.logs[1].status, ExecutionStatus::Unknown);
    assert_eq!(item.logs[1].created_at, 6);
    let data = QueueItemData::from_item(item);
    assert_eq!(data.id, "j");
    assert_eq!(data.repository, "r1");
    assert_eq!(data.status, ExecutionStatus::Failed(2));
}

#[test]
fn job_paths() {
    assert_eq!(job_dir("/data", "abc"), "/data/jobs/abc");
    assert_eq!(job_log_path("/data", "abc"), "/data/jobs/abc/output.log");
}

#[test]
fn shutdown_waits_for_busy_workers() {
    assert!(all_idle(&vec![]));
    assert!(all_idle(&vec![false, false]));
    assert!(!all_idle(&vec![false, true]));
}

#[test]
fn repository_creation_derives_slug_and_secret() {
    let input = repo("My Demo Repo!", "", vec![Trigger::Any]);
    let created = Repository::for_creation(input, false, "id24".to_string(), "abc", 77).unwrap();
    assert_eq!(created.slug, "my-demo-repo");
    assert_eq!(created.id, "id24");
    assert_eq!(created.secret, "3a985da74fe225b2045c172d6bd390bd855f086e3e9d525b46bfe24511431532");
    assert!(!created.deleted);
    assert_eq!(created.created_at, 77);
    let again = repo("My Demo Repo!", "", vec![]);
    assert_eq!(
        Repository::for_creation(again, true, "x".to_string(), "abc", 1).unwrap_err(),
        RepositoryError::SlugExists
    );
    assert_eq!(RepositoryError::SlugExists.message(), "Repository slug already exists");
}

#[test]
fn repository_update_keeps_secret() {
    let stored = repo("Demo", "demo", vec![]);
    let mut input = repo("Demo Two", "", vec![Trigger::Any]);
    input.secret = "attempted".to_string();
    input.created_at = 999;
    let saved = Repository::for_update(input.clone(), None, Some(&stored), 300).unwrap();
    assert_eq!(saved.slug, "demo-two");
    assert_eq!(saved.secret, "S");
    assert_eq!(saved.created_at, 100);
    assert_eq!(saved.updated_at, 300);
    assert_eq!(saved.triggers.len(), 1);
    let mut other = repo("Demo Two", "demo-two", vec![]);
    other.id = "r2".to_string();
    assert_eq!(
        Repository::for_update(input.clone(), Some(&other), Some(&stored), 300).unwrap_err(),
        RepositoryError::SlugExists
    );
    assert!(Repository::for_update(input.clone(), Some(&stored), Some(&stored), 300).is_ok());
    assert_eq!(
        Repository::for_update(input, None, None, 300).unwrap_err(),
        RepositoryError::NotFound
    );
}

#[test]
fn repository_columns_round_trip() {
    let mut r = repo("Demo", "demo", vec![]);
    r.variables = pairs(&[("K", "v"), ("X", "y z")]);
    r.webhooks = vec!["http://example.test/hook".to_string()];
    let vars_json = serde_json::to_string(&r.variables).unwrap();
    let hooks_json = serde_json::to_string(&r.webhooks).unwrap();
    let record = RepositoryRecord::from_repository(r.clone(), vars_json, "[]".to_string(), hooks_json);
    assert_eq!(record.deleted, 0);
    let vars: Option<Vec<(String, String)>> =
        serde_json::from_str(record.variables.as_deref().unwrap()).ok();
    let hooks: Option<Vec<String>> = serde_json::from_str(record.webhooks.as_deref().unwrap()).ok();
    let back = Repository::from_record(record, vars, Some(Vec::new()), hooks);
    assert_eq!(back.variables, r.variables);
    assert_eq!(back.webhooks, r.webhooks);
    assert_eq!(back.triggers.len(), 0);
    assert!(!back.deleted);
}

#[test]
fn unreadable_columns_read_as_empty() {
    let record = RepositoryRecord {
        id: "r".to_string(),
        slug: "s".to_string(),
        name: "n".to_string(),
        run: "true".to_string(),
        working_dir: Some("/tmp".to_string()),
        secret: "x".to_string(),
        variables: Some("not json".to_string()),
        triggers: None,
        webhooks: None,
        deleted: 1,
        created_at: 5,
        updated_at: 6,
    };
    let back = Repository::from_record(record, None, None, None);
    assert!(back.variables.is_empty());
    assert!(back.triggers.is_empty());
    assert!(back.webhooks.is_empty());
    assert!(back.deleted);
    assert_eq!(back.working_dir.as_deref(), Some("/tmp"));
    let response = RepositoryResponse::from_repository(back);
    assert_eq!(response.slug, "s");
    assert_eq!(response.secret, "x");
}

#[test]
fn summaries_and_responses() {
    let r = repo("Demo", "demo", vec![]);
    let job = QueueItem::new("j1".to_string(), "r1", ArbitraryData::new(Vec::new()), 1);
    let summary = JobSummary::from_parts(job, r);
    assert_eq!(summary.repository_slug, "demo");
    assert_eq!(summary.repository_name, "Demo");
    assert_eq!(summary.status, ExecutionStatus::Queued);
    assert_eq!(ErrorResponse::new("Not found".to_string()).message, "Not found");
    assert_eq!(Response::new(3).response, 3);
    let (program, args) = CommandRunner::invocation("echo hi");
    assert_eq!(program, "/bin/sh");
    assert_eq!(args, vec!["-c".to_string(), "echo hi".to_string()]);
}

#[test]
fn configuration_defaults() {
    assert_eq!(default_config_path("/etc/ci"), "/etc/ci/littleci.json");
    let c = PersistedConfig::with_defaults("/etc/ci", "sekrit".to_string());
    assert_eq!(c.config_path, "/etc/ci/littleci.json");
    assert_eq!(c.data_dir.as_deref(), Some("/etc/ci"));
    assert_eq!(c.network_host, "0.0.0.0");
    assert_eq!(c.port, 8000);
    assert_eq!(c.secret, "sekrit");
    assert_eq!(c.authentication_type, AuthenticationType::Simple);
    assert_eq!(choose_data_dir(Some("a".to_string()), Some("b".to_string()), "c".to_string()), "a");
    assert_eq!(choose_data_dir(None, Some("b".to_string()), "c".to_string()), "b");
    assert_eq!(choose_data_dir(None, None, "c".to_string()), "c");
}
