//! Jobs: their status machine, data, store rows, and the decisions of the per-repository queue.

use vstd::prelude::*;

use crate::repository::Repository;
use crate::text::text_eq;

verus! {

/// Where a job stands.
#[derive(Debug, Clone, Copy, PartialEq, Eq, Structural)]
pub enum ExecutionStatus {
    /// The command was terminated by a signal.
    Cancelled,
    /// Waiting for the repository's worker.
    Queued,
    /// The command is running.
    Running,
    /// The command exited with a non-zero code, or could not be started (-1).
    Failed(i32),
    /// The command exited with code zero.
    Completed,
    /// A stored status that could not be read; never written.
    Unknown,
}

impl Default for ExecutionStatus {
    fn default() -> (r: Self)
        ensures
            r == ExecutionStatus::Queued,
    {
        ExecutionStatus::Queued
    }
}

/// The status column's text.
pub open spec fn status_name(s: ExecutionStatus) -> Seq<char> {
    match s {
        ExecutionStatus::Cancelled => "cancelled"@,
        ExecutionStatus::Queued => "queued"@,
        ExecutionStatus::Running => "running"@,
        ExecutionStatus::Failed(_) => "failed"@,
        ExecutionStatus::Completed => "completed"@,
        ExecutionStatus::Unknown => "unknown"@,
    }
}

/// The exit-code column: present for a failure only.
pub open spec fn status_exit_code(s: ExecutionStatus) -> Option<i32> {
    match s {
        ExecutionStatus::Failed(c) => Some(c),
        _ => None,
    }
}

/// The status that a stored pair of columns reads as.
pub open spec fn status_from_columns(name: Seq<char>, exit_code: Option<i32>) -> ExecutionStatus {
    if name == "cancelled"@ && exit_code is None {
        ExecutionStatus::Cancelled
    } else if name == "queued"@ && exit_code is None {
        ExecutionStatus::Queued
    } else if name == "running"@ && exit_code is None {
        ExecutionStatus::Running
    } else if name == "failed"@ && exit_code is Some {
        ExecutionStatus::Failed(exit_code->Some_0)
    } else if name == "completed"@ && exit_code is None {
        ExecutionStatus::Completed
    } else {
        ExecutionStatus::Unknown
    }
}

/// A job that has finished.
pub open spec fn is_terminal(s: ExecutionStatus) -> bool {
    s is Completed || s is Failed || s is Cancelled
}

/// The steps of a job's life: taken up from the queue, then finished once.
pub open spec fn valid_transition(from: ExecutionStatus, to: ExecutionStatus) -> bool {
    (from is Queued && to is Running) || (from is Running && is_terminal(to))
}

/// The six status names differ.
pub proof fn lemma_status_names_distinct()
    ensures
        "cancelled"@ != "queued"@,
        "cancelled"@ != "running"@,
        "cancelled"@ != "failed"@,
        "cancelled"@ != "completed"@,
        "cancelled"@ != "unknown"@,
        "queued"@ != "running"@,
        "queued"@ != "failed"@,
        "queued"@ != "completed"@,
        "queued"@ != "unknown"@,
        "running"@ != "failed"@,
        "running"@ != "completed"@,
        "running"@ != "unknown"@,
        "failed"@ != "completed"@,
        "failed"@ != "unknown"@,
        "completed"@ != "unknown"@,
{
    reveal_strlit("cancelled");
    reveal_strlit("queued");
    reveal_strlit("running");
    reveal_strlit("failed");
    reveal_strlit("completed");
    reveal_strlit("unknown");
    assert("cancelled"@[0] != "queued"@[0]);
    assert("cancelled"@[0] != "running"@[0]);
    assert("cancelled"@[0] != "failed"@[0]);
    assert("cancelled"@[1] != "completed"@[1]);
    assert("cancelled"@[0] != "unknown"@[0]);
    assert("queued"@[0] != "running"@[0]);
    assert("queued"@[0] != "failed"@[0]);
    assert("queued"@[0] != "completed"@[0]);
    assert("queued"@[0] != "unknown"@[0]);
    assert("running"@[0] != "failed"@[0]);
    assert("running"@[0] != "completed"@[0]);
    assert("running"@[0] != "unknown"@[0]);
    assert("failed"@[0] != "completed"@[0]);
    assert("failed"@[0] != "unknown"@[0]);
    assert("completed"@[0] != "unknown"@[0]);
}

/// A status reads back from its stored columns unchanged.
pub proof fn lemma_status_columns_round_trip(s: ExecutionStatus)
    ensures
        status_from_columns(status_name(s), status_exit_code(s)) == s,
{
    lemma_status_names_distinct();
}

impl ExecutionStatus {
    /// The status and exit-code columns; the exit code is present exactly for `failed`.
    pub fn to_columns(&self) -> (r: (String, Option<i32>))
        ensures
            r.0@ == status_name(*self),
            r.1 == status_exit_code(*self),
            r.1 is Some <==> r.0@ == "failed"@,
    {
        proof {
            lemma_status_names_distinct();
        }
        match self {
            ExecutionStatus::Cancelled => (String::from_str("cancelled"), None),
            ExecutionStatus::Queued => (String::from_str("queued"), None),
            ExecutionStatus::Running => (String::from_str("running"), None),
            ExecutionStatus::Failed(code) => (String::from_str("failed"), Some(*code)),
            ExecutionStatus::Completed => (String::from_str("completed"), None),
            ExecutionStatus::Unknown => (String::from_str("unknown"), None),
        }
    }

    /// Reads stored columns; anything unrecognised is `Unknown`.
    pub fn from_columns(status: &str, exit_code: Option<i32>) -> (r: Self)
        ensures
            r == status_from_columns(status@, exit_code),
    {
        if text_eq(status, "cancelled") && exit_code.is_none() {
            ExecutionStatus::Cancelled
        } else if text_eq(status, "queued") && exit_code.is_none() {
            ExecutionStatus::Queued
        } else if text_eq(status, "running") && exit_code.is_none() {
            ExecutionStatus::Running
        } else if text_eq(status, "failed") && exit_code.is_some() {
            ExecutionStatus::Failed(exit_code.unwrap())
        } else if text_eq(status, "completed") && exit_code.is_none() {
            ExecutionStatus::Completed
        } else {
            ExecutionStatus::Unknown
        }
    }
}

/// The mapping that a list of name/value pairs sets, later pairs overriding earlier ones.
pub open spec fn entries_map(s: Seq<(String, String)>) -> Map<Seq<char>, Seq<char>>
    decreases s.len(),
{
    if s.len() == 0 {
        Map::empty()
    } else {
        entries_map(s.drop_last()).insert(s.last().0@, s.last().1@)
    }
}

/// User-supplied name/value pairs of a job, injected into its command's environment.
#[derive(Debug, Clone)]
pub struct ArbitraryData(pub Vec<(String, String)>);

impl View for ArbitraryData {
    type V = Map<Seq<char>, Seq<char>>;

    open spec fn view(&self) -> Map<Seq<char>, Seq<char>> {
        entries_map(self.0@)
    }
}

impl ArbitraryData {
    pub fn new(data: Vec<(String, String)>) -> (r: Self)
        ensures
            r.0 == data,
    {
        Self(data)
    }

    pub fn inner(&self) -> (r: &Vec<(String, String)>)
        ensures
            *r == self.0,
    {
        &self.0
    }
}

fn push_entry(out: &mut Vec<(String, String)>, e: &(String, String))
    ensures
        entries_map(final(out)@) == entries_map(old(out)@).insert(e.0@, e.1@),
{
    let ghost before = out@;
    out.push((e.0.clone(), e.1.clone()));
    proof {
        assert(out@.drop_last() =~= before);
    }
}

/// The environment that a job's command gets on top of the process's own: the repository's
/// variables, overridden by the job's data.
pub fn job_environment(variables: &Vec<(String, String)>, data: &ArbitraryData) -> (r: Vec<(String, String)>)
    ensures
        entries_map(r@) == entries_map(variables@).union_prefer_right(data@),
{
    let mut out: Vec<(String, String)> = Vec::new();
    let mut i: usize = 0;
    while i < variables.len()
        invariant
            0 <= i <= variables.len(),
            entries_map(out@) == entries_map(variables@.take(i as int)),
        decreases variables.len() - i,
    {
        push_entry(&mut out, &variables[i]);
        proof {
            assert(variables@.take(i as int + 1).drop_last() =~= variables@.take(i as int));
        }
        i += 1;
    }
    proof {
        assert(variables@.take(variables@.len() as int) =~= variables@);
        assert(entries_map(data.0@.take(0)) =~= Map::empty());
        assert(entries_map(out@).union_prefer_right(Map::empty()) =~= entries_map(out@));
    }
    let entries = data.inner();
    let mut j: usize = 0;
    while j < entries.len()
        invariant
            0 <= j <= entries.len(),
            *entries == data.0,
            entries_map(out@) == entries_map(variables@).union_prefer_right(
                entries_map(entries@.take(j as int)),
            ),
        decreases entries.len() - j,
    {
        let ghost m = entries_map(out@);
        push_entry(&mut out, &entries[j]);
        proof {
            let t = entries@.take(j as int + 1);
            assert(t.drop_last() =~= entries@.take(j as int));
            assert(entries_map(t) == entries_map(entries@.take(j as int)).insert(
                entries@[j as int].0@,
                entries@[j as int].1@,
            ));
            assert(entries_map(out@) =~= entries_map(variables@).union_prefer_right(
                entries_map(t),
            ));
        }
        j += 1;
    }
    proof {
        assert(entries@.take(entries@.len() as int) =~= entries@);
    }
    out
}

/// One recorded status change. Times are seconds since the Unix epoch, UTC.
#[derive(Debug, Clone, Copy)]
pub struct QueueLogItem {
    pub status: ExecutionStatus,
    pub created_at: i64,
}

/// One execution of a repository's command.
#[derive(Debug, Clone)]
pub struct QueueItem {
    /// A random system-generated execution identifier.
    pub id: String,
    pub repository_id: String,
    pub status: ExecutionStatus,
    pub data: ArbitraryData,
    pub created_at: i64,
    pub updated_at: i64,
    pub logs: Vec<QueueLogItem>,
}

impl QueueItem {
    /// A new queued job.
    pub fn new(id: String, repository_id: &str, data: ArbitraryData, now: i64) -> (r: Self)
        ensures
            r.id == id,
            r.repository_id@ == repository_id@,
            r.status == ExecutionStatus::Queued,
            r.data == data,
            r.created_at == now,
            r.updated_at == now,
            r.logs@.len() == 0,
    {
        QueueItem {
            id,
            repository_id: String::from_str(repository_id),
            status: ExecutionStatus::Queued,
            data,
            created_at: now,
            updated_at: now,
            logs: Vec::new(),
        }
    }
}

/// What outbound webhooks receive about a job.
#[derive(Debug, Clone)]
pub struct QueueItemData {
    pub id: String,
    pub repository: String,
    pub status: ExecutionStatus,
}

impl QueueItemData {
    pub fn from_item(item: QueueItem) -> (r: Self)
        ensures
            r.id == item.id,
            r.repository == item.repository_id,
            r.status == item.status,
    {
        QueueItemData { id: item.id, repository: item.repository_id, status: item.status }
    }
}

/// Why a job cannot be enqueued.
#[derive(Debug, Clone)]
pub enum EnqueueError {
    /// No repository has the slug.
    NotFound(String),
    /// The repository is soft-deleted.
    Deleted,
}

impl EnqueueError {
    pub fn message(&self) -> (r: String)
        ensures
            self matches EnqueueError::NotFound(slug) ==> r@ == "Could not find repository "@
                + slug@,
            self is Deleted ==> r@ == "Repository has been deleted."@,
    {
        match self {
            EnqueueError::NotFound(slug) => {
                let mut m = String::from_str("Could not find repository ");
                m.append(slug.as_str());
                m
            },
            EnqueueError::Deleted => String::from_str("Repository has been deleted."),
        }
    }
}

/// The job that a notification for `slug` enqueues, given the repository that the slug
/// resolves to: refused when there is none or it is deleted.
pub fn new_job(slug: &str, repository: Option<&Repository>, job_id: String, data: ArbitraryData, now: i64) -> (r: Result<QueueItem, EnqueueError>)
    ensures
        repository is None ==> (r matches Err(EnqueueError::NotFound(s)) && s@ == slug@),
        repository is Some && repository->Some_0.deleted ==> r matches Err(EnqueueError::Deleted),
        repository is Some && !repository->Some_0.deleted ==> (r matches Ok(job) && {
            &&& job.id == job_id
            &&& job.repository_id@ == repository->Some_0.id@
            &&& job.status == ExecutionStatus::Queued
            &&& job.data == data
            &&& job.created_at == now
            &&& job.updated_at == now
            &&& job.logs@.len() == 0
        }),
{
    match repository {
        None => Err(EnqueueError::NotFound(String::from_str(slug))),
        Some(repo) => {
            if repo.deleted {
                Err(EnqueueError::Deleted)
            } else {
                Ok(QueueItem::new(job_id, repo.id.as_str(), data, now))
            }
        },
    }
}

/// What a worker does next while draining its repository's queue.
#[derive(Debug, Clone)]
pub enum DrainStep {
    /// The repository is gone or deleted, or nothing is queued: the drain ends.
    Stop,
    /// Run this job, already marked running.
    Run(QueueItem),
}

/// `r` is `job` with another status.
pub open spec fn restatused(r: QueueItem, job: QueueItem, status: ExecutionStatus) -> bool {
    &&& r.id == job.id
    &&& r.repository_id == job.repository_id
    &&& r.data == job.data
    &&& r.created_at == job.created_at
    &&& r.updated_at == job.updated_at
    &&& r.logs == job.logs
    &&& r.status == status
}

/// One step of a drain: from the freshly read repository and its oldest queued job.
pub fn drain_step(repository: Option<&Repository>, next: Option<QueueItem>) -> (r: DrainStep)
    ensures
        (repository is None || repository->Some_0.deleted || next is None || next->Some_0.status
            != ExecutionStatus::Queued) <==> r is Stop,
        r matches DrainStep::Run(job) ==> restatused(job, next->Some_0, ExecutionStatus::Running)
            && valid_transition(next->Some_0.status, job.status),
{
    match repository {
        None => DrainStep::Stop,
        Some(repo) => {
            if repo.deleted {
                return DrainStep::Stop;
            }
            match next {
                None => DrainStep::Stop,
                Some(job) => {
                    if job.status != ExecutionStatus::Queued {
                        return DrainStep::Stop;
                    }
                    let mut job = job;
                    job.status = ExecutionStatus::Running;
                    DrainStep::Run(job)
                },
            }
        },
    }
}

/// How a job's command ended.
#[derive(Debug, Clone, Copy, PartialEq, Eq, Structural)]
pub enum ProcessOutcome {
    Exited(i32),
    Signalled,
    SpawnFailed,
}

/// The terminal status for a command's outcome.
pub open spec fn outcome_status(outcome: ProcessOutcome) -> ExecutionStatus {
    match outcome {
        ProcessOutcome::Exited(code) => if code == 0 {
            ExecutionStatus::Completed
        } else {
            ExecutionStatus::Failed(code)
        },
        ProcessOutcome::Signalled => ExecutionStatus::Cancelled,
        ProcessOutcome::SpawnFailed => ExecutionStatus::Failed(-1i32),
    }
}

pub fn terminal_status(outcome: ProcessOutcome) -> (r: ExecutionStatus)
    ensures
        r == outcome_status(outcome),
        is_terminal(r),
{
    match outcome {
        ProcessOutcome::Exited(code) => if code == 0 {
            ExecutionStatus::Completed
        } else {
            ExecutionStatus::Failed(code)
        },
        ProcessOutcome::Signalled => ExecutionStatus::Cancelled,
        ProcessOutcome::SpawnFailed => ExecutionStatus::Failed(-1),
    }
}

/// A running job, finished with the status that its command's outcome gives.
pub fn finish_job(job: QueueItem, outcome: ProcessOutcome) -> (r: QueueItem)
    ensures
        restatused(r, job, outcome_status(outcome)),
        job.status == ExecutionStatus::Running ==> valid_transition(job.status, r.status),
{
    let mut job = job;
    job.status = terminal_status(outcome);
    job
}

/// The directory that holds a job's output.
pub fn job_dir(data_dir: &str, job_id: &str) -> (r: String)
    ensures
        r@ == data_dir@ + "/jobs/"@ + job_id@,
{
    let mut p = String::from_str(data_dir);
    p.append("/jobs/");
    p.append(job_id);
    p
}

/// The file that holds a job's combined output.
pub fn job_log_path(data_dir: &str, job_id: &str) -> (r: String)
    ensures
        r@ == data_dir@ + "/jobs/"@ + job_id@ + "/output.log"@,
{
    let mut p = job_dir(data_dir, job_id);
    p.append("/output.log");
    p
}

/// A stored job row, without its data column.
#[derive(Debug, Clone)]
pub struct JobRow {
    pub id: String,
    pub status: String,
    pub exit_code: Option<i32>,
    pub created_at: i64,
    pub updated_at: i64,
    pub repository_id: String,
}

/// A stored status-log row.
#[derive(Debug, Clone)]
pub struct LogRow {
    pub status: String,
    pub exit_code: Option<i32>,
    pub created_at: i64,
    pub queue_id: String,
}

impl QueueItem {
    /// A job read back from its row, its data and its status-log rows; unreadable statuses
    /// read as `Unknown`.
    pub fn from_row(row: JobRow, data: ArbitraryData, logs: Vec<LogRow>) -> (r: Self)
        ensures
            r.id == row.id,
            r.repository_id == row.repository_id,
            r.status == status_from_columns(row.status@, row.exit_code),
            r.data == data,
            r.created_at == row.created_at,
            r.updated_at == row.updated_at,
            r.logs@.len() == logs@.len(),
            forall|i: int|
                0 <= i < logs@.len() ==> (#[trigger] r.logs@[i]).status == status_from_columns(
                    logs@[i].status@,
                    logs@[i].exit_code,
                ) && r.logs@[i].created_at == logs@[i].created_at,
    {
        let mut items: Vec<QueueLogItem> = Vec::new();
        let mut i: usize = 0;
        while i < logs.len()
            invariant
                0 <= i <= logs.len(),
                items@.len() == i,
                forall|k: int|
                    0 <= k < i ==> (#[trigger] items@[k]).status == status_from_columns(
                        logs@[k].status@,
                        logs@[k].exit_code,
                    ) && items@[k].created_at == logs@[k].created_at,
            decreases logs.len() - i,
        {
            let l = &logs[i];
            items.push(
                QueueLogItem {
                    status: ExecutionStatus::from_columns(l.status.as_str(), l.exit_code),
                    created_at: l.created_at,
                },
            );
            i += 1;
        }
        let status = ExecutionStatus::from_columns(row.status.as_str(), row.exit_code);
        QueueItem {
            id: row.id,
            repository_id: row.repository_id,
            status,
            data,
            created_at: row.created_at,
            updated_at: row.updated_at,
            logs: items,
        }
    }
}

/// The row records `status` in its columns.
pub open spec fn log_records(l: LogRow, status: ExecutionStatus) -> bool {
    l.status@ == status_name(status) && l.exit_code == status_exit_code(status)
}

/// A row's exit code is present exactly when its status is `failed`.
pub open spec fn exit_code_consistent(status: Seq<char>, exit_code: Option<i32>) -> bool {
    exit_code is Some <==> status == "failed"@
}

/// The status-log row for the job's current status, written at `now`.
pub fn log_row(item: &QueueItem, now: i64) -> (r: LogRow)
    ensures
        log_records(r, item.status),
        exit_code_consistent(r.status@, r.exit_code),
        r.created_at == now,
        r.queue_id@ == item.id@,
{
    let (status, exit_code) = item.status.to_columns();
    LogRow { status, exit_code, created_at: now, queue_id: item.id.clone() }
}

/// The rows that storing a new job writes: the job and its first status-log row, which
/// records `queued` for a new job.
pub fn push_rows(item: &QueueItem, now: i64) -> (r: (JobRow, LogRow))
    ensures
        r.0.id == item.id,
        r.0.repository_id == item.repository_id,
        r.0.status@ == status_name(item.status),
        r.0.exit_code == status_exit_code(item.status),
        exit_code_consistent(r.0.status@, r.0.exit_code),
        r.0.created_at == item.created_at,
        r.0.updated_at == item.updated_at,
        log_records(r.1, item.status),
        r.1.queue_id@ == item.id@,
        r.1.created_at == now,
        item.status == ExecutionStatus::Queued ==> r.1.status@ == "queued"@,
{
    let (status, exit_code) = item.status.to_columns();
    let job = JobRow {
        id: item.id.clone(),
        status,
        exit_code,
        created_at: item.created_at,
        updated_at: item.updated_at,
        repository_id: item.repository_id.clone(),
    };
    (job, log_row(item, now))
}

/// What a status update writes: the job's new columns and the status-log row.
#[derive(Debug, Clone)]
pub struct StatusUpdate {
    pub status: String,
    pub exit_code: Option<i32>,
    pub updated_at: i64,
    pub log: LogRow,
}

/// The writes of a status update at `now`. The log row records exactly the job's new status,
/// and is no older than the job when the clock has not gone back.
pub fn status_update(item: &QueueItem, now: i64) -> (r: StatusUpdate)
    ensures
        r.status@ == status_name(item.status),
        r.exit_code == status_exit_code(item.status),
        exit_code_consistent(r.status@, r.exit_code),
        r.updated_at == now,
        item.updated_at <= now ==> r.updated_at >= item.updated_at,
        log_records(r.log, item.status),
        r.log.queue_id@ == item.id@,
        r.log.created_at == now,
        item.created_at <= now ==> r.log.created_at >= item.created_at,
{
    let (status, exit_code) = item.status.to_columns();
    StatusUpdate { status, exit_code, updated_at: now, log: log_row(item, now) }
}

/// The earliest status-log row of the job `id`, in storage order.
pub open spec fn first_log(logs: Seq<LogRow>, id: Seq<char>) -> Option<LogRow>
    decreases logs.len(),
{
    if logs.len() == 0 {
        None
    } else if logs[0].queue_id@ == id {
        Some(logs[0])
    } else {
        first_log(logs.skip(1), id)
    }
}

/// Some status-log row of the job records its current status, no earlier than its creation.
pub open spec fn status_logged(job: JobRow, logs: Seq<LogRow>) -> bool {
    exists|k: int|
        0 <= k < logs.len() && #[trigger] logs[k].queue_id@ == job.id@ && logs[k].status@
            == job.status@ && logs[k].exit_code == job.exit_code && logs[k].created_at
            >= job.created_at
}

/// What the stored job and status-log rows always satisfy: a job's exit code is present
/// exactly when it failed; its earliest log row records `queued`; and a log row records its
/// current status.
pub open spec fn ledger_invariant(jobs: Seq<JobRow>, logs: Seq<LogRow>) -> bool {
    forall|i: int|
        0 <= i < jobs.len() ==> {
            &&& exit_code_consistent(#[trigger] jobs[i].status@, jobs[i].exit_code)
            &&& first_log(logs, jobs[i].id@) matches Some(l) && l.status@ == "queued"@
            &&& status_logged(jobs[i], logs)
        }
}

proof fn lemma_first_log_push(logs: Seq<LogRow>, l: LogRow, id: Seq<char>)
    ensures
        first_log(logs.push(l), id) == match first_log(logs, id) {
            Some(x) => Some(x),
            None => if l.queue_id@ == id {
                Some(l)
            } else {
                None
            },
        },
    decreases logs.len(),
{
    if logs.len() > 0 {
        assert(logs.push(l)[0] == logs[0]);
        assert(logs.push(l).skip(1) =~= logs.skip(1).push(l));
        lemma_first_log_push(logs.skip(1), l, id);
    } else {
        assert(logs.push(l)[0] == l);
        assert(logs.push(l).skip(1) =~= Seq::<LogRow>::empty());
        assert(first_log(logs.push(l).skip(1), id) is None);
    }
}

proof fn lemma_status_logged_push(job: JobRow, logs: Seq<LogRow>, l: LogRow)
    requires
        status_logged(job, logs),
    ensures
        status_logged(job, logs.push(l)),
{
    let k = choose|k: int|
        0 <= k < logs.len() && #[trigger] logs[k].queue_id@ == job.id@ && logs[k].status@
            == job.status@ && logs[k].exit_code == job.exit_code && logs[k].created_at
            >= job.created_at;
    assert(logs.push(l)[k] == logs[k]);
}

/// Storing a new queued job with its first log row, as `push_rows` writes them, keeps the
/// ledger invariant, provided no log row has the new job's identifier yet.
pub proof fn lemma_push_keeps_ledger(jobs: Seq<JobRow>, logs: Seq<LogRow>, job: JobRow, log: LogRow)
    requires
        ledger_invariant(jobs, logs),
        forall|k: int| 0 <= k < logs.len() ==> #[trigger] logs[k].queue_id@ != job.id@,
        job.status@ == "queued"@,
        job.exit_code is None,
        log_records(log, ExecutionStatus::Queued),
        log.queue_id@ == job.id@,
        log.created_at >= job.created_at,
    ensures
        ledger_invariant(jobs.push(job), logs.push(log)),
{
    lemma_status_names_distinct();
    let jobs2 = jobs.push(job);
    let logs2 = logs.push(log);
    assert forall|i: int| 0 <= i < jobs2.len() implies {
        &&& exit_code_consistent(#[trigger] jobs2[i].status@, jobs2[i].exit_code)
        &&& first_log(logs2, jobs2[i].id@) matches Some(l) && l.status@ == "queued"@
        &&& status_logged(jobs2[i], logs2)
    } by {
        lemma_first_log_push(logs, log, jobs2[i].id@);
        if i < jobs.len() {
            assert(jobs2[i] == jobs[i]);
            assert(exit_code_consistent(jobs[i].status@, jobs[i].exit_code));
            lemma_status_logged_push(jobs[i], logs, log);
        } else {
            assert(jobs2[i] == job);
            assert(first_log(logs, job.id@) is None) by {
                lemma_first_log_absent(logs, job.id@);
            }
            assert(logs2[logs.len() as int] == log);
            assert(logs2[logs.len() as int].queue_id@ == job.id@);
        }
    }
}

proof fn lemma_first_log_absent(logs: Seq<LogRow>, id: Seq<char>)
    requires
        forall|k: int| 0 <= k < logs.len() ==> #[trigger] logs[k].queue_id@ != id,
    ensures
        first_log(logs, id) is None,
    decreases logs.len(),
{
    if logs.len() > 0 {
        let rest = logs.skip(1);
        assert forall|k: int| 0 <= k < rest.len() implies #[trigger] rest[k].queue_id@ != id by {
            assert(rest[k] == logs[k + 1]);
        }
        lemma_first_log_absent(rest, id);
    }
}

/// Applying a status update to job `k` keeps the ledger invariant: the job row takes the new
/// status columns and the log row records that status at a time no earlier than the job's
/// creation, as `status_update` writes them.
pub proof fn lemma_update_keeps_ledger(jobs: Seq<JobRow>, logs: Seq<LogRow>, k: int, status: ExecutionStatus, new_row: JobRow, log: LogRow)
    requires
        ledger_invariant(jobs, logs),
        0 <= k < jobs.len(),
        new_row.id == jobs[k].id,
        new_row.created_at == jobs[k].created_at,
        new_row.status@ == status_name(status),
        new_row.exit_code == status_exit_code(status),
        log_records(log, status),
        log.queue_id@ == jobs[k].id@,
        log.created_at >= jobs[k].created_at,
    ensures
        ledger_invariant(jobs.update(k, new_row), logs.push(log)),
{
    lemma_status_names_distinct();
    let jobs2 = jobs.update(k, new_row);
    let logs2 = logs.push(log);
    assert forall|i: int| 0 <= i < jobs2.len() implies {
        &&& exit_code_consistent(#[trigger] jobs2[i].status@, jobs2[i].exit_code)
        &&& first_log(logs2, jobs2[i].id@) matches Some(l) && l.status@ == "queued"@
        &&& status_logged(jobs2[i], logs2)
    } by {
        lemma_first_log_push(logs, log, jobs2[i].id@);
        if i == k {
            assert(jobs2[i] == new_row);
            assert(exit_code_consistent(jobs[k].status@, jobs[k].exit_code));
            assert(jobs[k].id@ == new_row.id@);
            assert(logs2[logs.len() as int] == log);
            assert(logs2[logs.len() as int].queue_id@ == new_row.id@);
        } else {
            assert(jobs2[i] == jobs[i]);
            assert(exit_code_consistent(jobs[i].status@, jobs[i].exit_code));
            lemma_status_logged_push(jobs[i], logs, log);
        }
    }
}

/// A queued job of the repository.
pub open spec fn is_queued_for(row: JobRow, repository_id: Seq<char>) -> bool {
    row.repository_id@ == repository_id && row.status@ == "queued"@
}

/// Row `k` is the repository's queued job to run first: the oldest, and among equally old
/// ones the first stored.
pub open spec fn runs_first(rows: Seq<JobRow>, repository_id: Seq<char>, k: int) -> bool {
    &&& 0 <= k < rows.len()
    &&& is_queued_for(rows[k], repository_id)
    &&& forall|i: int|
        0 <= i < rows.len() && #[trigger] is_queued_for(rows[i], repository_id) ==> rows[k].created_at
            < rows[i].created_at || (rows[k].created_at == rows[i].created_at && k <= i)
}

/// Jobs run in creation order: after the job to run first is taken off the queue (its row
/// no longer `queued`) and newer jobs are stored, the next job to run is no older than it.
pub proof fn lemma_runs_in_creation_order(rows: Seq<JobRow>, repository_id: Seq<char>, k: int, taken: JobRow, added: Seq<JobRow>, k2: int)
    requires
        runs_first(rows, repository_id, k),
        taken.status@ != "queued"@,
        forall|j: int| 0 <= j < added.len() ==> #[trigger] added[j].created_at >= rows[k].created_at,
        runs_first(rows.update(k, taken) + added, repository_id, k2),
    ensures
        rows[k].created_at <= (rows.update(k, taken) + added)[k2].created_at,
        k2 != k,
{
    let next = rows.update(k, taken) + added;
    if k2 < rows.len() {
        assert(next[k2] == rows.update(k, taken)[k2]);
        if k2 == k {
            assert(next[k2] == taken);
        } else {
            assert(next[k2] == rows[k2]);
            assert(is_queued_for(rows[k2], repository_id));
        }
    } else {
        assert(next[k2] == added[k2 - rows.len()]);
    }
}

/// The repository's next job among stored rows, in creation order.
pub fn oldest_queued(rows: &Vec<JobRow>, repository_id: &str) -> (r: Option<usize>)
    ensures
        r matches Some(k) ==> runs_first(rows@, repository_id@, k as int),
        r is None ==> forall|i: int|
            0 <= i < rows@.len() ==> !#[trigger] is_queued_for(rows@[i], repository_id@),
{
    let mut best: Option<usize> = None;
    let mut i: usize = 0;
    while i < rows.len()
        invariant
            0 <= i <= rows.len(),
            best matches Some(k) ==> k < i && is_queued_for(rows@[k as int], repository_id@),
            best is None ==> forall|x: int|
                0 <= x < i ==> !#[trigger] is_queued_for(rows@[x], repository_id@),
            best matches Some(k) ==> forall|x: int|
                0 <= x < i && #[trigger] is_queued_for(rows@[x], repository_id@) ==> rows@[k as int].created_at
                    < rows@[x].created_at || (rows@[k as int].created_at == rows@[x].created_at
                    && k <= x),
        decreases rows.len() - i,
    {
        let row = &rows[i];
        if text_eq(row.repository_id.as_str(), repository_id) && text_eq(row.status.as_str(), "queued") {
            match best {
                None => {
                    best = Some(i);
                },
                Some(k) => {
                    if row.created_at < rows[k].created_at {
                        best = Some(i);
                    }
                },
            }
        }
        i += 1;
    }
    best
}

/// Shutdown may finish once no worker is busy.
pub fn all_idle(busy: &Vec<bool>) -> (r: bool)
    ensures
        r == forall|i: int| 0 <= i < busy@.len() ==> !#[trigger] busy@[i],
{
    let mut i: usize = 0;
    while i < busy.len()
        invariant
            0 <= i <= busy.len(),
            forall|x: int| 0 <= x < i ==> !#[trigger] busy@[x],
        decreases busy.len() - i,
    {
        if busy[i] {
            return false;
        }
        i += 1;
    }
    true
}

} // verus!
