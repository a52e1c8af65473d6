//! Repositories: creation and update rules, and slug uniqueness.

use vstd::prelude::*;
use vstd::string::StringSliceAdditionalSpecFns;

use crate::config::Trigger;
use crate::identity::{hashed_value, is_lower_hex, HashedValue};
use crate::text::{kebab, kebab_case};

verus! {

/// A build target: the command to run, its environment, trigger rules and outbound webhooks.
/// Times are seconds since the Unix epoch, UTC.
#[derive(Debug, Clone)]
pub struct Repository {
    pub id: String,
    pub slug: String,
    pub name: String,
    pub run: String,
    pub working_dir: Option<String>,
    pub secret: String,
    pub variables: Vec<(String, String)>,
    pub triggers: Vec<Trigger>,
    pub webhooks: Vec<String>,
    pub deleted: bool,
    pub created_at: i64,
    pub updated_at: i64,
}

/// Why a repository cannot be stored.
#[derive(Debug, Clone, Copy, PartialEq, Eq, Structural)]
pub enum RepositoryError {
    SlugExists,
    NotFound,
}

impl RepositoryError {
    pub fn message(&self) -> (r: String)
        ensures
            *self == RepositoryError::SlugExists ==> r@ == "Repository slug already exists"@,
            *self == RepositoryError::NotFound ==> r@ == "Repository not found"@,
    {
        match self {
            RepositoryError::SlugExists => String::from_str("Repository slug already exists"),
            RepositoryError::NotFound => String::from_str("Repository not found"),
        }
    }
}

/// The user-supplied attributes of `r` are those of `input`.
pub open spec fn same_settings(r: Repository, input: Repository) -> bool {
    &&& r.name == input.name
    &&& r.run == input.run
    &&& r.working_dir == input.working_dir
    &&& r.variables == input.variables
    &&& r.triggers == input.triggers
    &&& r.webhooks == input.webhooks
}

impl Repository {
    /// The repository that creation stores: its slug derives from the name, its identifier
    /// and secret are fresh, and it is refused when another repository has that slug.
    /// `raw_secret` is the random material whose digest becomes the secret.
    pub fn for_creation(input: Repository, slug_taken: bool, id: String, raw_secret: &str, now: i64) -> (r: Result<Repository, RepositoryError>)
        ensures
            slug_taken ==> r == Err::<Repository, RepositoryError>(RepositoryError::SlugExists),
            !slug_taken ==> r is Ok,
            r matches Ok(repo) ==> {
                &&& repo.slug@ == kebab(input.name@)
                &&& repo.id == id
                &&& repo.secret@ == hashed_value(raw_secret.spec_bytes())
                &&& repo.secret@.len() == 64
                &&& forall|i: int| 0 <= i < repo.secret@.len() ==> is_lower_hex(#[trigger] repo.secret@[i])
                &&& same_settings(repo, input)
                &&& !repo.deleted
                &&& repo.created_at == now
                &&& repo.updated_at == now
            },
    {
        if slug_taken {
            return Err(RepositoryError::SlugExists);
        }
        let slug = kebab_case(input.name.as_str());
        let secret = HashedValue::new(raw_secret).into_string();
        Ok(Repository {
            id,
            slug,
            name: input.name,
            run: input.run,
            working_dir: input.working_dir,
            secret,
            variables: input.variables,
            triggers: input.triggers,
            webhooks: input.webhooks,
            deleted: false,
            created_at: now,
            updated_at: now,
        })
    }

    /// The repository that an update stores. The slug is recomputed from the name and may
    /// belong to no other repository; identifier, secret, deletion mark and creation time
    /// are kept from the stored row `current`.
    pub fn for_update(input: Repository, slug_owner: Option<&Repository>, current: Option<&Repository>, now: i64) -> (r: Result<Repository, RepositoryError>)
        ensures
            current is None ==> r == Err::<Repository, RepositoryError>(RepositoryError::NotFound),
            current is Some && slug_owner is Some && slug_owner->Some_0.id@ != input.id@ ==> r
                == Err::<Repository, RepositoryError>(RepositoryError::SlugExists),
            current is Some && (slug_owner is None || slug_owner->Some_0.id@ == input.id@) ==> r is Ok,
            r matches Ok(repo) ==> {
                &&& repo.slug@ == kebab(input.name@)
                &&& repo.id == current->Some_0.id
                &&& repo.secret == current->Some_0.secret
                &&& repo.deleted == current->Some_0.deleted
                &&& repo.created_at == current->Some_0.created_at
                &&& repo.updated_at == now
                &&& same_settings(repo, input)
            },
    {
        let current = match current {
            Some(c) => c,
            None => return Err(RepositoryError::NotFound),
        };
        if let Some(owner) = slug_owner {
            if owner.id != input.id {
                return Err(RepositoryError::SlugExists);
            }
        }
        let slug = kebab_case(input.name.as_str());
        Ok(Repository {
            id: current.id.clone(),
            slug,
            name: input.name,
            run: input.run,
            working_dir: input.working_dir,
            secret: current.secret.clone(),
            variables: input.variables,
            triggers: input.triggers,
            webhooks: input.webhooks,
            deleted: current.deleted,
            created_at: current.created_at,
            updated_at: now,
        })
    }
}

/// A stored repository row: lists are JSON text, the deletion mark an integer.
#[derive(Debug, Clone)]
pub struct RepositoryRecord {
    pub id: String,
    pub slug: String,
    pub name: String,
    pub run: String,
    pub working_dir: Option<String>,
    pub secret: String,
    pub variables: Option<String>,
    pub triggers: Option<String>,
    pub webhooks: Option<String>,
    pub deleted: i32,
    pub created_at: i64,
    pub updated_at: i64,
}

/// The row that stores `r`, given its lists as JSON text.
pub open spec fn stored_record(r: Repository, variables: String, triggers: String, webhooks: String) -> RepositoryRecord {
    RepositoryRecord {
        id: r.id,
        slug: r.slug,
        name: r.name,
        run: r.run,
        working_dir: r.working_dir,
        secret: r.secret,
        variables: Some(variables),
        triggers: Some(triggers),
        webhooks: Some(webhooks),
        deleted: if r.deleted {
            1i32
        } else {
            0i32
        },
        created_at: r.created_at,
        updated_at: r.updated_at,
    }
}

/// The repository that a row reads back as, given what its JSON columns parsed to.
pub open spec fn read_back(rec: RepositoryRecord, variables: Vec<(String, String)>, triggers: Vec<Trigger>, webhooks: Vec<String>) -> Repository {
    Repository {
        id: rec.id,
        slug: rec.slug,
        name: rec.name,
        run: rec.run,
        working_dir: rec.working_dir,
        secret: rec.secret,
        variables,
        triggers,
        webhooks,
        deleted: rec.deleted != 0,
        created_at: rec.created_at,
        updated_at: rec.updated_at,
    }
}

/// A repository survives storage: when each JSON column parses back to the list it was
/// written from, the row reads back as the same repository, lists included.
pub proof fn lemma_repository_storage_round_trip(r: Repository, variables: String, triggers: String, webhooks: String)
    ensures
        read_back(stored_record(r, variables, triggers, webhooks), r.variables, r.triggers, r.webhooks)
            == r,
{
}

impl Repository {
    /// A repository read back from its row. The lists are what its JSON columns parsed to;
    /// a missing or unparsable column reads as an empty list.
    pub fn from_record(record: RepositoryRecord, variables: Option<Vec<(String, String)>>, triggers: Option<Vec<Trigger>>, webhooks: Option<Vec<String>>) -> (r: Repository)
        ensures
            r.id == record.id,
            r.slug == record.slug,
            r.name == record.name,
            r.run == record.run,
            r.working_dir == record.working_dir,
            r.secret == record.secret,
            variables matches Some(v) ==> r.variables == v,
            variables is None ==> r.variables@.len() == 0,
            triggers matches Some(t) ==> r.triggers == t,
            triggers is None ==> r.triggers@.len() == 0,
            webhooks matches Some(w) ==> r.webhooks == w,
            webhooks is None ==> r.webhooks@.len() == 0,
            r.deleted == (record.deleted != 0),
            r.created_at == record.created_at,
            r.updated_at == record.updated_at,
            variables is Some && triggers is Some && webhooks is Some ==> r == read_back(
                record,
                variables->Some_0,
                triggers->Some_0,
                webhooks->Some_0,
            ),
    {
        Repository {
            id: record.id,
            slug: record.slug,
            name: record.name,
            run: record.run,
            working_dir: record.working_dir,
            secret: record.secret,
            variables: match variables {
                Some(v) => v,
                None => Vec::new(),
            },
            triggers: match triggers {
                Some(t) => t,
                None => Vec::new(),
            },
            webhooks: match webhooks {
                Some(w) => w,
                None => Vec::new(),
            },
            deleted: record.deleted != 0,
            created_at: record.created_at,
            updated_at: record.updated_at,
        }
    }
}

impl RepositoryRecord {
    /// The row that stores a repository, with its lists already in JSON.
    pub fn from_repository(repository: Repository, variables: String, triggers: String, webhooks: String) -> (r: RepositoryRecord)
        ensures
            r == stored_record(repository, variables, triggers, webhooks),
            r.id == repository.id,
            r.slug == repository.slug,
            r.name == repository.name,
            r.run == repository.run,
            r.working_dir == repository.working_dir,
            r.secret == repository.secret,
            r.variables == Some(variables),
            r.triggers == Some(triggers),
            r.webhooks == Some(webhooks),
            r.deleted == (if repository.deleted {
                1i32
            } else {
                0i32
            }),
            r.created_at == repository.created_at,
            r.updated_at == repository.updated_at,
    {
        RepositoryRecord {
            id: repository.id,
            slug: repository.slug,
            name: repository.name,
            run: repository.run,
            working_dir: repository.working_dir,
            secret: repository.secret,
            variables: Some(variables),
            triggers: Some(triggers),
            webhooks: Some(webhooks),
            deleted: if repository.deleted {
                1
            } else {
                0
            },
            created_at: repository.created_at,
            updated_at: repository.updated_at,
        }
    }
}

/// No two repositories of `rows` share a slug.
pub open spec fn slugs_unique(rows: Seq<Repository>) -> bool {
    forall|i: int, j: int|
        0 <= i < j < rows.len() ==> #[trigger] rows[i].slug@ != #[trigger] rows[j].slug@
}

/// Some repository of `rows` has the slug `slug`.
pub open spec fn slug_in_use(rows: Seq<Repository>, slug: Seq<char>) -> bool {
    exists|i: int| 0 <= i < rows.len() && #[trigger] rows[i].slug@ == slug
}

/// Adding a repository whose slug no row has keeps slugs unique.
pub proof fn lemma_create_keeps_slugs_unique(rows: Seq<Repository>, r: Repository)
    requires
        slugs_unique(rows),
        !slug_in_use(rows, r.slug@),
    ensures
        slugs_unique(rows.push(r)),
{
    let next = rows.push(r);
    assert forall|i: int, j: int| 0 <= i < j < next.len() implies #[trigger] next[i].slug@
        != #[trigger] next[j].slug@ by {
        if j == rows.len() {
            assert(next[i] == rows[i]);
        } else {
            assert(next[i] == rows[i] && next[j] == rows[j]);
        }
    }
}

/// Replacing row `k` by a repository whose slug only row `k` may have keeps slugs unique.
pub proof fn lemma_update_keeps_slugs_unique(rows: Seq<Repository>, k: int, r: Repository)
    requires
        slugs_unique(rows),
        0 <= k < rows.len(),
        forall|i: int| 0 <= i < rows.len() && #[trigger] rows[i].slug@ == r.slug@ ==> i == k,
    ensures
        slugs_unique(rows.update(k, r)),
{
    let next = rows.update(k, r);
    assert forall|i: int, j: int| 0 <= i < j < next.len() implies #[trigger] next[i].slug@
        != #[trigger] next[j].slug@ by {
        if i == k {
            assert(rows[j].slug@ != r.slug@);
        } else if j == k {
            assert(rows[i].slug@ != r.slug@);
        } else {
            assert(next[i] == rows[i] && next[j] == rows[j]);
        }
    }
}

/// What the API returns for a repository.
#[derive(Debug, Clone)]
pub struct RepositoryResponse {
    pub id: String,
    pub slug: String,
    pub name: String,
    pub run: String,
    pub working_dir: Option<String>,
    pub variables: Vec<(String, String)>,
    pub triggers: Vec<Trigger>,
    pub webhooks: Vec<String>,
    pub secret: String,
}

impl RepositoryResponse {
    pub fn from_repository(repository: Repository) -> (r: Self)
        ensures
            r.id == repository.id,
            r.slug == repository.slug,
            r.name == repository.name,
            r.run == repository.run,
            r.working_dir == repository.working_dir,
            r.variables == repository.variables,
            r.triggers == repository.triggers,
            r.webhooks == repository.webhooks,
            r.secret == repository.secret,
    {
        RepositoryResponse {
            id: repository.id,
            slug: repository.slug,
            name: repository.name,
            run: repository.run,
            working_dir: repository.working_dir,
            variables: repository.variables,
            triggers: repository.triggers,
            webhooks: repository.webhooks,
            secret: repository.secret,
        }
    }
}

} // verus!
