//! The statistics of the change between two trees, and of a commit
//! against its first parent.

use vstd::prelude::*;
use git2::{Commit, DiffOptions, Repository, Tree};
use crate::models::DiffStat;

verus! {

/// What a measurement yields: the statistics measured, or zeroed
/// statistics when there was no measurement.
pub open spec fn measured_or_zero(measured: Option<DiffStat>) -> DiffStat {
    match measured {
        Some(stat) => stat,
        None => DiffStat { files_changed: 0, insertions: 0, deletions: 0 },
    }
}

/// The statistics to report for a measurement that may have failed.
pub fn stat_or_zero(measured: Option<DiffStat>) -> (stat: DiffStat)
    ensures
        stat == measured_or_zero(measured),
{
    match measured {
        Some(stat) => stat,
        None => DiffStat::zero(),
    }
}

/// Measures the change from `old_tree` to `new_tree`; no old tree stands
/// for the empty tree, against which all content counts as inserted. There
/// is no measurement when the repository cannot produce the difference or
/// its statistics.
pub fn measure(repo: &Repository, old_tree: Option<&Tree<'_>>, new_tree: &Tree<'_>) -> (measured:
    Option<DiffStat>) {
    let mut options = DiffOptions::new();
    match repo.diff_tree_to_tree(old_tree, Some(new_tree), Some(&mut options)) {
        Ok(diff) => {
            match diff.stats() {
                Ok(stats) => Some(
                    DiffStat {
                        files_changed: stats.files_changed(),
                        insertions: stats.insertions(),
                        deletions: stats.deletions(),
                    },
                ),
                Err(_) => None,
            }
        },
        Err(_) => None,
    }
}

/// The statistics of the change from `old_tree` to `new_tree`, zeroed when
/// they cannot be measured.
pub fn diff_stats(repo: &Repository, old_tree: Option<&Tree<'_>>, new_tree: &Tree<'_>) -> (stat:
    DiffStat) {
    stat_or_zero(measure(repo, old_tree, new_tree))
}

/// The statistics of a commit: the change from the tree of its first
/// parent to its own tree, or from the empty tree when it has no parent.
/// Zeroed when a tree cannot be loaded or the change cannot be measured.
pub fn commit_diff_stats(repo: &Repository, commit: &Commit<'_>) -> (stat: DiffStat) {
    let new_tree = match commit.tree() {
        Ok(tree) => tree,
        Err(_) => {
            return DiffStat::zero();
        },
    };
    match commit.parent(0) {
        Ok(parent) => {
            match parent.tree() {
                Ok(old_tree) => diff_stats(repo, Some(&old_tree), &new_tree),
                Err(_) => DiffStat::zero(),
            }
        },
        Err(_) => diff_stats(repo, None, &new_tree),
    }
}

} // verus!
