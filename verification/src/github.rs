//! Texts handed to the hosting service, and what its answers mean.

use crate::text::{join3, same_text};
use vstd::prelude::*;
use vstd::string::*;

verus! {

/// The route that generates release notes for a repository.
pub open spec fn notes_route_text(owner: Seq<char>, name: Seq<char>) -> Seq<char> {
    "/repos/"@ + owner + "/"@ + name + "/releases/generate-notes"@
}

/// The route that generates release notes for a repository.
pub fn notes_route(owner: &str, name: &str) -> (r: String)
    ensures
        r@ == notes_route_text(owner@, name@),
{
    join3("/repos/", owner, "/").concat(name).concat("/releases/generate-notes")
}

/// The head by which open pull requests of a branch are found.
pub open spec fn head_filter_text(owner: Seq<char>, branch: Seq<char>) -> Seq<char> {
    owner + ":"@ + branch
}

/// The head by which open pull requests of a branch are found:
/// `{owner}:{branch}`.
pub fn head_filter(owner: &str, branch: &str) -> (r: String)
    ensures
        r@ == head_filter_text(owner@, branch@),
{
    join3(owner, ":", branch)
}

/// The search for merged pull requests that mention a commit.
pub open spec fn merged_pull_query_text(
    owner: Seq<char>,
    name: Seq<char>,
    commit: Seq<char>,
) -> Seq<char> {
    "repo:"@ + owner + "/"@ + name + " type:pr is:merged "@ + commit
}

/// The search for merged pull requests that mention a commit.
pub fn merged_pull_query(owner: &str, name: &str, commit: &str) -> (r: String)
    ensures
        r@ == merged_pull_query_text(owner@, name@, commit@),
{
    join3("repo:", owner, "/").concat(name).concat(" type:pr is:merged ").concat(commit)
}

/// Whether a commit is a merged release: a merged pull request is related
/// to it, and the head of that pull request is the release branch.
pub fn is_release_commit(related_head: Option<&str>, release_branch: &str) -> (r: bool)
    ensures
        r == match related_head {
            Some(head) => head@ == release_branch@,
            None => false,
        },
{
    match related_head {
        Some(head) => same_text(head, release_branch),
        None => false,
    }
}

} // verus!
