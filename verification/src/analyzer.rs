//! Contribution statistics over the whole history of a repository.

use vstd::prelude::*;
use git2::{Commit, Oid, Repository};
use crate::diffstat::commit_diff_stats;
use crate::ledger::{
    author_or_unknown, commit_counts_add_up, contributions_add_up, sum_commits, sum_contributions,
    total_lines, AuthorLedger,
};
use crate::walker::{walk, WalkStart};

verus! {

/// Why no statistics could be produced.
#[derive(Clone, Copy, Debug, PartialEq, Eq, Structural)]
pub enum AnalyzeError {
    /// The commit graph could not be walked, or one of its commits could
    /// not be loaded.
    GraphTraversalFailure,
    /// The totals have outgrown the machine's integers.
    TotalsOverflow,
}

/// The name that a commit is counted under: the name of its author, or the
/// stand-in when the commit carries no readable name.
pub fn author_of(commit: &Commit<'_>) -> (author: String) {
    let signature = commit.author();
    let name = match signature.name() {
        Ok(n) => Some(n),
        Err(_) => None,
    };
    author_or_unknown(name)
}

/// Counts the commits with the identifiers `ids` into a fresh ledger, each
/// under its author with its statistics against its first parent. On
/// success the ledger has counted every one of them: its commit counts add
/// up to their number. Where no identifier is given nothing can fail, and
/// the result is the ledger that has counted nothing.
pub fn tally(repo: &Repository, ids: &Vec<Oid>) -> (outcome: Result<AuthorLedger, AnalyzeError>)
    ensures
        ids@.len() == 0 ==> outcome is Ok,
        outcome matches Ok(ledger) ==> {
            &&& ledger.wf()
            &&& ledger.history().len() == ids@.len()
            &&& sum_commits(ledger@) == ids@.len()
            &&& sum_contributions(ledger@) == total_lines(ledger.history())
        },
{
    let mut ledger = AuthorLedger::new();
    let mut i: usize = 0;
    while i < ids.len()
        invariant
            i <= ids.len(),
            ledger.wf(),
            ledger.history().len() == i,
        decreases ids.len() - i,
    {
        let commit = match repo.find_commit(ids[i]) {
            Ok(c) => c,
            Err(_) => {
                return Err(AnalyzeError::GraphTraversalFailure);
            },
        };
        let author = author_of(&commit);
        let stat = commit_diff_stats(repo, &commit);
        if ledger.record(author.as_str(), stat).is_err() {
            return Err(AnalyzeError::TotalsOverflow);
        }
        i = i + 1;
    }
    proof {
        commit_counts_add_up(ledger.history());
        contributions_add_up(ledger.history());
    }
    Ok(ledger)
}

/// The contribution statistics of all commits reachable from the
/// repository's head. The ledger is the summary of the commits that were
/// walked: its commit counts add up to their number, and its lines to the
/// lines of all of them.
pub fn analyze_repo(repo: &Repository) -> (outcome: Result<AuthorLedger, AnalyzeError>)
    ensures
        outcome matches Ok(ledger) ==> {
            &&& ledger.wf()
            &&& sum_commits(ledger@) == ledger.history().len()
            &&& sum_contributions(ledger@) == total_lines(ledger.history())
        },
{
    match walk(repo, WalkStart::Head, None) {
        Ok(ids) => tally(repo, &ids),
        Err(_) => Err(AnalyzeError::GraphTraversalFailure),
    }
}

} // verus!
