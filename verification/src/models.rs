//! The plain data that the library works on.

use vstd::prelude::*;

verus! {

/// Running totals for one author.
#[derive(Clone, Copy, Debug, PartialEq, Eq, Structural)]
pub struct AuthorStats {
    pub commits: usize,
    pub lines_added: usize,
    pub lines_deleted: usize,
}

impl AuthorStats {
    /// Lines touched by this author: additions plus deletions.
    pub open spec fn contribution(&self) -> nat {
        (self.lines_added + self.lines_deleted) as nat
    }
}

/// What one commit changed relative to its base.
#[derive(Clone, Copy, Debug, PartialEq, Eq, Structural)]
pub struct DiffStat {
    pub files_changed: usize,
    pub insertions: usize,
    pub deletions: usize,
}

impl DiffStat {
    /// The statistics reported when nothing was measured.
    pub fn zero() -> (stat: DiffStat)
        ensures
            stat == (DiffStat { files_changed: 0, insertions: 0, deletions: 0 }),
    {
        DiffStat { files_changed: 0, insertions: 0, deletions: 0 }
    }
}

/// A commit as a changelog shows it.
#[derive(Clone, Debug, PartialEq, Eq)]
pub struct CommitInfo {
    pub hash: String,
    pub author: String,
    pub date: String,
    pub message: String,
}

/// The texts of a `CommitInfo` as character sequences.
pub struct CommitText {
    pub hash: Seq<char>,
    pub author: Seq<char>,
    pub date: Seq<char>,
    pub message: Seq<char>,
}

impl View for CommitInfo {
    type V = CommitText;

    open spec fn view(&self) -> CommitText {
        CommitText {
            hash: self.hash@,
            author: self.author@,
            date: self.date@,
            message: self.message@,
        }
    }
}

/// The views of a sequence of commits, in order.
pub open spec fn commit_texts(commits: Seq<CommitInfo>) -> Seq<CommitText> {
    Seq::new(commits.len(), |i: int| commits[i]@)
}

/// The views of a sequence of borrowed commits, in order.
pub open spec fn borrowed_commit_texts(commits: Seq<&CommitInfo>) -> Seq<CommitText> {
    Seq::new(commits.len(), |i: int| commits[i]@)
}

} // verus!
