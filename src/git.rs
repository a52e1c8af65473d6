//! Git references as sent by push webhooks.

use vstd::prelude::*;

verus! {

/// A branch head or a tag.
#[derive(Debug, Clone)]
pub enum GitReference {
    Head(String),
    Tag(String),
}

/// The characters of `s` up to its first newline.
pub open spec fn first_line(s: Seq<char>) -> Seq<char>
    decreases s.len(),
{
    if s.len() == 0 || s[0] == '\n' {
        Seq::empty()
    } else {
        seq![s[0]] + first_line(s.skip(1))
    }
}

/// What the anchored pattern `^<prefix>(.+)` captures: the rest of the first line after
/// `prefix`, when `s` starts with `prefix` and that rest is not empty.
pub open spec fn line_after(prefix: Seq<char>, s: Seq<char>) -> Option<Seq<char>> {
    if s.len() > prefix.len() && s.take(prefix.len() as int) == prefix && s[prefix.len() as int]
        != '\n' {
        Some(first_line(s.skip(prefix.len() as int)))
    } else {
        None
    }
}

pub open spec fn opt_view(o: Option<String>) -> Option<Seq<char>> {
    match o {
        Some(s) => Some(s@),
        None => None,
    }
}

/// Relies on regex's `Regex::captures`: for `^refs/heads/(.+)` and `^refs/tags/(.+)` the
/// first group, when the text matches, is the rest of the text's first line after the prefix
/// (`.` matches every character but a newline).
#[verifier::external_body]
fn capture_ref_name(pattern: &str, full_ref: &str) -> (r: Option<String>)
    requires
        pattern@ == "^refs/heads/(.+)"@ || pattern@ == "^refs/tags/(.+)"@,
    ensures
        pattern@ == "^refs/heads/(.+)"@ ==> opt_view(r) == line_after("refs/heads/"@, full_ref@),
        pattern@ == "^refs/tags/(.+)"@ ==> opt_view(r) == line_after("refs/tags/"@, full_ref@),
{
    let re = regex::Regex::new(pattern).unwrap();
    re.captures(full_ref).and_then(|c| c.get(1)).map(|m| m.as_str().to_string())
}

/// What a full reference names: a branch under `refs/heads/`, else a tag under `refs/tags/`.
pub open spec fn parse_ref_spec(s: Seq<char>) -> Option<(bool, Seq<char>)> {
    match line_after("refs/heads/"@, s) {
        Some(b) => Some((true, b)),
        None => match line_after("refs/tags/"@, s) {
            Some(t) => Some((false, t)),
            None => None,
        },
    }
}

impl GitReference {
    /// Whether it is a branch head, and the branch or tag name.
    pub open spec fn view_pair(self) -> (bool, Seq<char>) {
        match self {
            GitReference::Head(b) => (true, b@),
            GitReference::Tag(t) => (false, t@),
        }
    }

    /// Reads a full reference such as `refs/heads/master`; `None` for any other form.
    pub fn parse(full_ref: &str) -> (r: Option<GitReference>)
        ensures
            match r {
                Some(g) => parse_ref_spec(full_ref@) == Some(g.view_pair()),
                None => parse_ref_spec(full_ref@) is None,
            },
    {
        match capture_ref_name("^refs/heads/(.+)", full_ref) {
            Some(b) => Some(GitReference::Head(b)),
            None => match capture_ref_name("^refs/tags/(.+)", full_ref) {
                Some(t) => Some(GitReference::Tag(t)),
                None => None,
            },
        }
    }
}

} // verus!
