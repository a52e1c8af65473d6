//! Inbound notifications: their authentication and what a provider push enqueues.

use vstd::prelude::*;
use vstd::string::StringSliceAdditionalSpecFns;
use vstd::string::StrSliceExecFns;

use crate::config::{any_trigger_matches, should_skip};
use crate::git::GitReference;
use crate::identity::secrets_equal;
use crate::queue::ArbitraryData;
use crate::repository::Repository;
use crate::text::text_eq;

verus! {

/// Marks a request whose shared secret was accepted.
#[derive(Debug, Clone, Copy)]
pub struct SecretKey;

/// Marks a request whose Gitea-style secret header was accepted.
#[derive(Debug, Clone, Copy)]
pub struct GiteaSecret;

/// Why a notification was not authenticated.
#[derive(Debug, Clone, Copy, PartialEq, Eq, Structural)]
pub enum SecretKeyError {
    Missing,
    Invalid,
    BadData,
    Unknown,
}

impl SecretKeyError {
    pub fn message(&self) -> (r: String)
        ensures
            *self == SecretKeyError::Missing ==> r@ == "Signature was not found"@,
            *self == SecretKeyError::Invalid ==> r@ == "Signature is invalid"@,
            *self == SecretKeyError::BadData ==> r@ == "Invalid payload"@,
            *self == SecretKeyError::Unknown ==> r@ == "Unhandled error"@,
    {
        match self {
            SecretKeyError::Missing => String::from_str("Signature was not found"),
            SecretKeyError::Invalid => String::from_str("Signature is invalid"),
            SecretKeyError::BadData => String::from_str("Invalid payload"),
            SecretKeyError::Unknown => String::from_str("Unhandled error"),
        }
    }
}

/// A refused notification: the HTTP status and the reason.
#[derive(Debug, Clone, Copy, PartialEq, Eq, Structural)]
pub struct Rejection {
    pub status: u16,
    pub error: SecretKeyError,
}

/// The presented secret is the repository's, compared in constant time.
pub fn secret_key_is_valid(secret: &str, repository: &Repository) -> (r: bool)
    ensures
        r == (secret@ == repository.secret@),
{
    secrets_equal(secret, repository.secret.as_str())
}

/// The outcome of a secret check: accepted when the presented value is the secret.
pub open spec fn secret_outcome(presented: Seq<char>, secret: Seq<char>) -> Result<(), Rejection> {
    if presented == secret {
        Ok(())
    } else {
        Err(Rejection { status: 400, error: SecretKeyError::Invalid })
    }
}

/// Authenticates a generic notification for the repository that its slug resolved to: the
/// `X-Secret-Key` header if present, else the `key` query parameter.
pub fn check_secret_key(repository: Option<&Repository>, header: Option<&str>, query: Option<&str>) -> (r: Result<SecretKey, Rejection>)
    ensures
        repository is None ==> r == Err::<SecretKey, Rejection>(
            Rejection { status: 404, error: SecretKeyError::Invalid },
        ),
        repository is Some && header is Some ==> match secret_outcome(
            header->Some_0@,
            repository->Some_0.secret@,
        ) {
            Ok(_) => r is Ok,
            Err(e) => r == Err::<SecretKey, Rejection>(e),
        },
        repository is Some && header is None && query is Some ==> match secret_outcome(
            query->Some_0@,
            repository->Some_0.secret@,
        ) {
            Ok(_) => r is Ok,
            Err(e) => r == Err::<SecretKey, Rejection>(e),
        },
        repository is Some && header is None && query is None ==> r == Err::<SecretKey, Rejection>(
            Rejection { status: 400, error: SecretKeyError::Missing },
        ),
{
    let repository = match repository {
        Some(repo) => repo,
        None => return Err(Rejection { status: 404, error: SecretKeyError::Invalid }),
    };
    let presented = match header {
        Some(h) => h,
        None => match query {
            Some(q) => q,
            None => return Err(Rejection { status: 400, error: SecretKeyError::Missing }),
        },
    };
    if secret_key_is_valid(presented, repository) {
        Ok(SecretKey)
    } else {
        Err(Rejection { status: 400, error: SecretKeyError::Invalid })
    }
}

/// Authenticates a Gitea-style notification: its signature header holds the secret itself.
pub fn check_gitea_secret(repository: &Repository, header: Option<&str>) -> (r: Result<GiteaSecret, Rejection>)
    ensures
        header is None ==> r == Err::<GiteaSecret, Rejection>(
            Rejection { status: 400, error: SecretKeyError::Missing },
        ),
        header is Some ==> match secret_outcome(header->Some_0@, repository.secret@) {
            Ok(_) => r is Ok,
            Err(e) => r == Err::<GiteaSecret, Rejection>(e),
        },
{
    match header {
        Some(h) => if secret_key_is_valid(h, repository) {
            Ok(GiteaSecret)
        } else {
            Err(Rejection { status: 400, error: SecretKeyError::Invalid })
        },
        None => Err(Rejection { status: 400, error: SecretKeyError::Missing }),
    }
}

/// The value of one hexadecimal digit, either case.
pub open spec fn hex_value(c: char) -> Option<u8> {
    if '0' <= c <= '9' {
        Some(((c as u32) - 48) as u8)
    } else if 'A' <= c <= 'F' {
        Some(((c as u32) - 55) as u8)
    } else if 'a' <= c <= 'f' {
        Some(((c as u32) - 87) as u8)
    } else {
        None
    }
}

/// The bytes that a hexadecimal text stands for; `None` for an odd length or a non-digit.
pub open spec fn hex_decoded(s: Seq<char>) -> Option<Seq<u8>>
    decreases s.len(),
{
    if s.len() == 0 {
        Some(Seq::empty())
    } else if s.len() == 1 {
        None
    } else {
        match (hex_value(s[0]), hex_value(s[1]), hex_decoded(s.skip(2))) {
            (Some(h), Some(l), Some(rest)) => Some(seq![(h * 16 + l) as u8] + rest),
            _ => None,
        }
    }
}

/// Relies on hex's `decode`: an odd length or a character other than a hexadecimal digit
/// (either case) is an error; else each pair of digits is one byte.
#[verifier::external_body]
fn hex_decode(s: &str) -> (r: Option<Vec<u8>>)
    ensures
        match r {
            Some(v) => hex_decoded(s@) == Some(v@),
            None => hex_decoded(s@) is None,
        },
{
    hex::decode(s).ok()
}

pub uninterp spec fn hmac_sha1(key: Seq<u8>, msg: Seq<u8>) -> Seq<u8>;

/// Relies on hmac's `Hmac<Sha1>`: `new_from_slice` accepts a key of any length (longer keys
/// are hashed first), `update` feeds the message, and `verify_slice` accepts exactly the full
/// HMAC-SHA1 tag, compared in constant time.
#[verifier::external_body]
fn hmac_sha1_verify(key: &[u8], msg: &[u8], tag: &[u8]) -> (r: bool)
    ensures
        r == (tag@ == hmac_sha1(key@, msg@)),
{
    let mut mac = match <hmac::Hmac<sha1::Sha1> as hmac::Mac>::new_from_slice(key) {
        Ok(mac) => mac,
        Err(_) => return false,
    };
    hmac::Mac::update(&mut mac, msg);
    hmac::Mac::verify_slice(mac, tag).is_ok()
}

/// The largest body a provider webhook may send: 25 MiB.
pub const BODY_LIMIT: usize = 26214400;

/// The hexadecimal part of a `sha1=<hex>` signature header.
pub open spec fn signature_hex(header: Seq<char>) -> Option<Seq<char>> {
    if header.len() >= 5 && header.take(5) == "sha1="@ {
        Some(header.skip(5))
    } else {
        None
    }
}

fn strip_sha1_prefix(header: &str) -> (r: Option<&str>)
    ensures
        match r {
            Some(h) => signature_hex(header@) == Some(h@),
            None => signature_hex(header@) is None,
        },
{
    let len: usize = header.unicode_len();
    if len < 5 {
        return None;
    }
    if text_eq(header.substring_char(0, 5), "sha1=") {
        Some(header.substring_char(5, len))
    } else {
        None
    }
}

pub open spec fn rejection(status: u16, error: SecretKeyError) -> Rejection {
    Rejection { status, error }
}

/// The header carries the HMAC-SHA1 of the body under the secret, as `sha1=<hex>`.
pub open spec fn signature_matches(secret: Seq<u8>, header: Seq<char>, body: Seq<u8>) -> bool {
    match signature_hex(header) {
        Some(h) => hex_decoded(h) == Some(hmac_sha1(secret, body)),
        None => false,
    }
}

/// Authenticates a GitHub-style notification: the `X-Hub-Signature` header must read
/// `sha1=<hex>` where `<hex>` is the HMAC-SHA1 of the raw body under the repository secret.
/// `body` holds what was read of the body, at most one byte past the limit.
pub fn check_github_signature(secret: &str, header: Option<&str>, body: &[u8]) -> (r: Result<(), Rejection>)
    ensures
        header is None ==> r == Err::<(), Rejection>(rejection(400, SecretKeyError::Missing)),
        header is Some && body@.len() > BODY_LIMIT ==> r == Err::<(), Rejection>(
            rejection(400, SecretKeyError::BadData),
        ),
        header is Some && body@.len() <= BODY_LIMIT && signature_matches(
            secret.spec_bytes(),
            header->Some_0@,
            body@,
        ) ==> r is Ok,
        header is Some && body@.len() <= BODY_LIMIT && !signature_matches(
            secret.spec_bytes(),
            header->Some_0@,
            body@,
        ) ==> r == Err::<(), Rejection>(rejection(400, SecretKeyError::Invalid)),
{
    let header = match header {
        Some(h) => h,
        None => return Err(Rejection { status: 400, error: SecretKeyError::Missing }),
    };
    if body.len() > BODY_LIMIT {
        return Err(Rejection { status: 400, error: SecretKeyError::BadData });
    }
    let hex = match strip_sha1_prefix(header) {
        Some(h) => h,
        None => return Err(Rejection { status: 400, error: SecretKeyError::Invalid }),
    };
    let tag = match hex_decode(hex) {
        Some(t) => t,
        None => return Err(Rejection { status: 400, error: SecretKeyError::Invalid }),
    };
    if hmac_sha1_verify(secret.as_bytes(), body, tag.as_slice()) {
        Ok(())
    } else {
        Err(Rejection { status: 400, error: SecretKeyError::Invalid })
    }
}

/// The environment that a push sets: before and after commits, and the branch or the tag.
pub open spec fn push_data_spec(reference: GitReference, before: Seq<char>, after: Seq<char>) -> Seq<(Seq<char>, Seq<char>)> {
    seq![
        ("LITTLECI_GIT_BEFORE"@, before),
        ("LITTLECI_GIT_AFTER"@, after),
        match reference {
            GitReference::Head(b) => ("LITTLECI_GIT_BRANCH"@, b@),
            GitReference::Tag(t) => ("LITTLECI_GIT_TAG"@, t@),
        },
    ]
}

pub open spec fn pair_views(s: Seq<(String, String)>) -> Seq<(Seq<char>, Seq<char>)> {
    s.map_values(|p: (String, String)| (p.0@, p.1@))
}

fn push_data(reference: GitReference, before: String, after: String) -> (r: ArbitraryData)
    ensures
        pair_views(r.0@) == push_data_spec(reference, before@, after@),
{
    let mut data: Vec<(String, String)> = Vec::new();
    data.push((String::from_str("LITTLECI_GIT_BEFORE"), before));
    data.push((String::from_str("LITTLECI_GIT_AFTER"), after));
    match reference {
        GitReference::Head(branch) => data.push((String::from_str("LITTLECI_GIT_BRANCH"), branch)),
        GitReference::Tag(tag) => data.push((String::from_str("LITTLECI_GIT_TAG"), tag)),
    }
    let r = ArbitraryData::new(data);
    proof {
        assert(pair_views(r.0@) =~= push_data_spec(reference, before@, after@));
    }
    r
}

/// A GitHub push notification's body.
#[derive(Debug, Clone)]
pub struct GitHubPayload {
    pub reference: GitReference,
    pub before: String,
    pub after: String,
}

impl GitHubPayload {
    /// The job data that the push carries.
    pub fn into_data(self) -> (r: ArbitraryData)
        ensures
            pair_views(r.0@) == push_data_spec(self.reference, self.before@, self.after@),
    {
        push_data(self.reference, self.before, self.after)
    }
}

/// A Gitea push notification's body.
#[derive(Debug, Clone)]
pub struct GiteaPayload {
    pub reference: GitReference,
    pub before: String,
    pub after: String,
}

impl GiteaPayload {
    /// The job data that the push carries.
    pub fn into_data(self) -> (r: ArbitraryData)
        ensures
            pair_views(r.0@) == push_data_spec(self.reference, self.before@, self.after@),
    {
        push_data(self.reference, self.before, self.after)
    }
}

/// What a provider push for a repository slug leads to.
#[derive(Debug, Clone)]
pub enum PushDecision {
    /// No repository has the slug; the message says so.
    NotFound(String),
    /// No trigger rule matched; the message says so.
    Skipped(String),
    /// Enqueue a job with this data.
    Enqueue(ArbitraryData),
}

/// Decides an authenticated GitHub push: unknown slug, skipped by the trigger rules, or a job
/// with the push's data.
pub fn github_push(slug: &str, repository: Option<&Repository>, payload: GitHubPayload) -> (r: PushDecision)
    ensures
        repository is None ==> (r matches PushDecision::NotFound(m) && m@ == "Repository `"@
            + slug@ + "` not found"@),
        repository is Some && !any_trigger_matches(repository->Some_0.triggers@, payload.reference)
            ==> (r matches PushDecision::Skipped(m) && m@
            == "Trigger rules not matched. No job queued"@),
        repository is Some && any_trigger_matches(repository->Some_0.triggers@, payload.reference)
            ==> (r matches PushDecision::Enqueue(d) && pair_views(d.0@) == push_data_spec(
            payload.reference,
            payload.before@,
            payload.after@,
        )),
{
    match repository {
        None => {
            let mut m = String::from_str("Repository `");
            m.append(slug);
            m.append("` not found");
            PushDecision::NotFound(m)
        },
        Some(repo) => {
            if should_skip(&repo.triggers, &payload.reference) {
                PushDecision::Skipped(String::from_str("Trigger rules not matched. No job queued"))
            } else {
                PushDecision::Enqueue(payload.into_data())
            }
        },
    }
}

} // verus!
