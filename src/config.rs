//! Configuration values and per-repository trigger rules.

use vstd::prelude::*;

use crate::git::GitReference;

verus! {

/// Rules that select git notifications.
#[derive(Debug, Clone)]
pub enum GitTrigger {
    Any,
    Head(Vec<String>),
    Tag,
}

/// A rule that decides whether a provider notification enqueues a job.
#[derive(Debug, Clone)]
pub enum Trigger {
    Any,
    Git(GitTrigger),
}

impl Default for Trigger {
    /// Build on pushes to `master`.
    fn default() -> (r: Self)
        ensures
            r matches Trigger::Git(GitTrigger::Head(refs)) && refs@.len() == 1 && refs@[0]@
                == "master"@,
    {
        let mut refs: Vec<String> = Vec::new();
        refs.push(String::from_str("master"));
        Trigger::Git(GitTrigger::Head(refs))
    }
}

/// `refs` names the branch `b`.
pub open spec fn names_branch(refs: Seq<String>, b: Seq<char>) -> bool {
    exists|j: int| 0 <= j < refs.len() && #[trigger] refs[j]@ == b
}

/// Whether one trigger rule accepts a git notification for `reference`.
pub open spec fn trigger_matches(t: Trigger, reference: GitReference) -> bool {
    match t {
        Trigger::Any => true,
        Trigger::Git(GitTrigger::Any) => true,
        Trigger::Git(GitTrigger::Tag) => reference is Tag,
        Trigger::Git(GitTrigger::Head(refs)) => match reference {
            GitReference::Head(b) => names_branch(refs@, b@),
            GitReference::Tag(_) => false,
        },
    }
}

/// Some rule of `triggers` accepts the notification.
pub open spec fn any_trigger_matches(triggers: Seq<Trigger>, reference: GitReference) -> bool {
    exists|i: int| 0 <= i < triggers.len() && trigger_matches(#[trigger] triggers[i], reference)
}

fn branch_listed(refs: &Vec<String>, branch: &String) -> (r: bool)
    ensures
        r == names_branch(refs@, branch@),
{
    let mut j: usize = 0;
    while j < refs.len()
        invariant
            0 <= j <= refs.len(),
            forall|k: int| 0 <= k < j ==> #[trigger] refs@[k]@ != branch@,
        decreases refs.len() - j,
    {
        if refs[j] == *branch {
            return true;
        }
        j += 1;
    }
    false
}

fn trigger_accepts(t: &Trigger, reference: &GitReference) -> (r: bool)
    ensures
        r == trigger_matches(*t, *reference),
{
    match t {
        Trigger::Any => true,
        Trigger::Git(GitTrigger::Any) => true,
        Trigger::Git(GitTrigger::Tag) => matches!(reference, GitReference::Tag(_)),
        Trigger::Git(GitTrigger::Head(refs)) => match reference {
            GitReference::Head(b) => branch_listed(refs, b),
            GitReference::Tag(_) => false,
        },
    }
}

/// Whether a git notification is skipped: true exactly when no rule of `triggers` accepts it.
/// An empty list skips every notification.
pub fn should_skip(triggers: &Vec<Trigger>, reference: &GitReference) -> (r: bool)
    ensures
        r == !any_trigger_matches(triggers@, *reference),
{
    let mut i: usize = 0;
    while i < triggers.len()
        invariant
            0 <= i <= triggers.len(),
            forall|k: int| 0 <= k < i ==> !trigger_matches(#[trigger] triggers@[k], *reference),
        decreases triggers.len() - i,
    {
        if trigger_accepts(&triggers[i], reference) {
            return false;
        }
        i += 1;
    }
    true
}

/// How API callers are authenticated.
#[derive(Debug, Clone, Copy, PartialEq, Eq)]
pub enum AuthenticationType {
    NoAuthentication,
    Simple,
}

impl Default for AuthenticationType {
    fn default() -> (r: Self)
        ensures
            r == AuthenticationType::Simple,
    {
        AuthenticationType::Simple
    }
}

/// The configuration file's contents.
#[derive(Debug, Clone)]
pub struct PersistedConfig {
    pub secret: String,
    pub config_path: String,
    pub data_dir: Option<String>,
    pub network_host: String,
    pub port: u16,
    pub authentication_type: AuthenticationType,
}

/// The file that holds the configuration when a directory is given.
pub fn default_config_path(dir: &str) -> (r: String)
    ensures
        r@ == dir@ + "/littleci.json"@,
{
    let mut path = String::from_str(dir);
    path.append("/littleci.json");
    path
}

impl PersistedConfig {
    /// The configuration written for a directory that has none: it listens on all interfaces
    /// on port 8000 and keeps its data in that directory.
    pub fn with_defaults(dir: &str, secret: String) -> (r: Self)
        ensures
            r.secret == secret,
            r.config_path@ == dir@ + "/littleci.json"@,
            r.data_dir matches Some(d) && d@ == dir@,
            r.network_host@ == "0.0.0.0"@,
            r.port == 8000,
            r.authentication_type == AuthenticationType::Simple,
    {
        PersistedConfig {
            secret,
            config_path: default_config_path(dir),
            data_dir: Some(String::from_str(dir)),
            network_host: String::from_str("0.0.0.0"),
            port: 8000,
            authentication_type: AuthenticationType::Simple,
        }
    }
}

/// The data directory: the configured one, else the directory that holds the configuration
/// file, else the working directory.
pub fn choose_data_dir(configured: Option<String>, config_parent: Option<String>, working_dir: String) -> (r: String)
    ensures
        configured matches Some(d) ==> r == d,
        configured is None && config_parent is Some ==> r == config_parent->Some_0,
        configured is None && config_parent is None ==> r == working_dir,
{
    match configured {
        Some(d) => d,
        None => match config_parent {
            Some(p) => p,
            None => working_dir,
        },
    }
}

} // verus!
