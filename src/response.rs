//! Shapes of API answers.

use vstd::prelude::*;

use crate::queue::{ExecutionStatus, QueueItem};
use crate::repository::Repository;

verus! {

/// An error answer: `{ "message": ... }`.
#[derive(Debug, Clone)]
pub struct ErrorResponse {
    pub message: String,
}

impl ErrorResponse {
    pub fn new(message: String) -> (r: Self)
        ensures
            r.message == message,
    {
        Self { message }
    }
}

/// A success answer, wrapping its payload under `response`.
#[derive(Debug, Clone)]
pub struct Response<T> {
    pub response: T,
}

impl<T> Response<T> {
    pub fn new(response: T) -> (r: Self)
        ensures
            r.response == response,
    {
        Response { response }
    }
}

/// A job as listed across repositories.
#[derive(Debug, Clone)]
pub struct JobSummary {
    pub id: String,
    pub status: ExecutionStatus,
    pub repository_slug: String,
    pub repository_name: String,
    pub created_at: i64,
    pub updated_at: i64,
}

impl JobSummary {
    pub fn from_parts(job: QueueItem, repository: Repository) -> (r: Self)
        ensures
            r.id == job.id,
            r.status == job.status,
            r.repository_slug == repository.slug,
            r.repository_name == repository.name,
            r.created_at == job.created_at,
            r.updated_at == job.updated_at,
    {
        JobSummary {
            id: job.id,
            status: job.status,
            repository_slug: repository.slug,
            repository_name: repository.name,
            created_at: job.created_at,
            updated_at: job.updated_at,
        }
    }
}

/// The server's configuration as the API shows it.
#[derive(Debug, Clone)]
pub struct AppConfigResponse {
    pub signature: String,
    pub config_path: String,
    pub working_dir: String,
    pub data_dir: String,
    pub network_host: String,
    pub port: u16,
}

/// Whether a repository's worker may start new drains.
#[derive(Debug, Clone, Copy, PartialEq, Eq, Structural)]
pub enum ServiceState {
    Active,
    Inactive,
}

/// The processing token's content: a worker drains while it holds the token.
#[derive(Debug)]
pub struct ProcessingQueue;

/// Runs a repository's command with the system shell.
#[derive(Debug, Clone, Copy)]
pub struct CommandRunner;

impl CommandRunner {
    /// The program and arguments that run `command`: `/bin/sh -c <command>`.
    pub fn invocation(command: &str) -> (r: (String, Vec<String>))
        ensures
            r.0@ == "/bin/sh"@,
            r.1@.len() == 2,
            r.1@[0]@ == "-c"@,
            r.1@[1]@ == command@,
    {
        let mut args: Vec<String> = Vec::new();
        args.push(String::from_str("-c"));
        args.push(String::from_str(command));
        (String::from_str("/bin/sh"), args)
    }
}

} // verus!
