//! Enumerating the commits that are reachable from a starting point and
//! not from a boundary.

use vstd::prelude::*;
use git2::{Oid, Repository};
use crate::repo::oid_text;

verus! {

/// Where a traversal starts.
#[derive(Clone, Copy, Debug, PartialEq, Eq)]
pub enum WalkStart {
    /// At the commit that the repository's head names.
    Head,
    /// At the commit given.
    At(Oid),
}

/// The commit graph could not be walked.
#[derive(Clone, Copy, Debug, PartialEq, Eq, Structural)]
pub struct GraphTraversalFailure;

/// The most commits that one traversal takes.
pub const WALK_LIMIT: usize = usize::MAX;

/// The revision that names the commits reachable from `start` and not
/// from `exclude`.
pub open spec fn range_revision(exclude: Seq<char>, start: Seq<char>) -> Seq<char> {
    exclude + ".."@ + start
}

/// Builds the revision of a range.
pub fn range_text(exclude: &str, start: &str) -> (range: String)
    ensures
        range@ == range_revision(exclude@, start@),
{
    let mut range = String::from_str(exclude);
    range.append("..");
    range.append(start);
    range
}

/// The commits reachable from `start`, in the order in which the
/// repository's traversal yields them, without those reachable from
/// `exclude`. Fails when the traversal cannot be set up, when it reports an
/// error, and when it yields more than `WALK_LIMIT` commits.
pub fn walk(repo: &Repository, start: WalkStart, exclude: Option<Oid>) -> (outcome: Result<
    Vec<Oid>,
    GraphTraversalFailure,
>) {
    let mut revwalk = match repo.revwalk() {
        Ok(w) => w,
        Err(_) => {
            return Err(GraphTraversalFailure);
        },
    };
    let marked = match exclude {
        None => {
            match start {
                WalkStart::Head => revwalk.push_head(),
                WalkStart::At(id) => revwalk.push(id),
            }
        },
        Some(boundary) => {
            let from = oid_text(&boundary);
            let range = match start {
                WalkStart::Head => range_text(from.as_str(), "HEAD"),
                WalkStart::At(id) => {
                    let to = oid_text(&id);
                    range_text(from.as_str(), to.as_str())
                },
            };
            revwalk.push_range(range.as_str())
        },
    };
    if marked.is_err() {
        return Err(GraphTraversalFailure);
    }
    let mut ids: Vec<Oid> = Vec::new();
    while ids.len() < WALK_LIMIT
        invariant
            ids@.len() <= WALK_LIMIT,
        decreases WALK_LIMIT - ids@.len(),
    {
        match revwalk.next() {
            None => {
                return Ok(ids);
            },
            Some(Ok(id)) => {
                ids.push(id);
            },
            Some(Err(_)) => {
                return Err(GraphTraversalFailure);
            },
        }
    }
    Err(GraphTraversalFailure)
}

} // verus!
