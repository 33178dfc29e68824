//! Per-author totals over a run of commits. A ledger keeps one entry for
//! each author name, in the order in which the names were first seen, and
//! the totals over all authors.

use vstd::prelude::*;
use crate::models::{AuthorStats, DiffStat};
use crate::text::same_text;

verus! {

/// The name under which commits without an author name are counted.
pub open spec fn unknown_author() -> Seq<char> {
    "Unknown"@
}

/// What one commit contributes: its author's name and its line counts.
pub struct Contribution {
    pub author: Seq<char>,
    pub insertions: nat,
    pub deletions: nat,
}

/// The contribution of a commit by `author` with the statistics `stat`.
pub open spec fn contribution_of(author: Seq<char>, stat: DiffStat) -> Contribution {
    Contribution {
        author,
        insertions: stat.insertions as nat,
        deletions: stat.deletions as nat,
    }
}

/// One author with their totals.
#[derive(Clone, Debug)]
pub struct Contributor {
    pub name: String,
    pub stats: AuthorStats,
}

/// An author's totals over mathematical integers.
pub struct Tally {
    pub name: Seq<char>,
    pub commits: nat,
    pub lines_added: nat,
    pub lines_deleted: nat,
}

impl View for Contributor {
    type V = Tally;

    open spec fn view(&self) -> Tally {
        Tally {
            name: self.name@,
            commits: self.stats.commits as nat,
            lines_added: self.stats.lines_added as nat,
            lines_deleted: self.stats.lines_deleted as nat,
        }
    }
}

/// The number of commits in `history` whose author is `name`.
pub open spec fn commits_by(history: Seq<Contribution>, name: Seq<char>) -> nat
    decreases history.len(),
{
    if history.len() == 0 {
        0
    } else {
        commits_by(history.drop_last(), name) + if history.last().author == name {
            1nat
        } else {
            0nat
        }
    }
}

/// The lines inserted in `history` by commits whose author is `name`.
pub open spec fn added_by(history: Seq<Contribution>, name: Seq<char>) -> nat
    decreases history.len(),
{
    if history.len() == 0 {
        0
    } else {
        added_by(history.drop_last(), name) + if history.last().author == name {
            history.last().insertions
        } else {
            0nat
        }
    }
}

/// The lines deleted in `history` by commits whose author is `name`.
pub open spec fn deleted_by(history: Seq<Contribution>, name: Seq<char>) -> nat
    decreases history.len(),
{
    if history.len() == 0 {
        0
    } else {
        deleted_by(history.drop_last(), name) + if history.last().author == name {
            history.last().deletions
        } else {
            0nat
        }
    }
}

/// All lines inserted or deleted in `history`.
pub open spec fn total_lines(history: Seq<Contribution>) -> nat
    decreases history.len(),
{
    if history.len() == 0 {
        0
    } else {
        total_lines(history.drop_last()) + history.last().insertions + history.last().deletions
    }
}

/// The author names of `history`, each once, in the order of first appearance.
pub open spec fn authors_in_order(history: Seq<Contribution>) -> Seq<Seq<char>>
    decreases history.len(),
{
    if history.len() == 0 {
        Seq::empty()
    } else {
        let earlier = authors_in_order(history.drop_last());
        if earlier.contains(history.last().author) {
            earlier
        } else {
            earlier.push(history.last().author)
        }
    }
}

/// The totals of `name` over `history`.
pub open spec fn tally_of(history: Seq<Contribution>, name: Seq<char>) -> Tally {
    Tally {
        name,
        commits: commits_by(history, name),
        lines_added: added_by(history, name),
        lines_deleted: deleted_by(history, name),
    }
}

/// The per-author summary of `history`: one tally for each author, in the
/// order of first appearance.
pub open spec fn summary(history: Seq<Contribution>) -> Seq<Tally> {
    Seq::new(
        authors_in_order(history).len(),
        |i: int| tally_of(history, authors_in_order(history)[i]),
    )
}

/// The commits of all tallies together.
pub open spec fn sum_commits(tallies: Seq<Tally>) -> nat
    decreases tallies.len(),
{
    if tallies.len() == 0 {
        0
    } else {
        sum_commits(tallies.drop_last()) + tallies.last().commits
    }
}

/// The lines added and deleted of all tallies together.
pub open spec fn sum_contributions(tallies: Seq<Tally>) -> nat
    decreases tallies.len(),
{
    if tallies.len() == 0 {
        0
    } else {
        sum_contributions(tallies.drop_last()) + tallies.last().lines_added
            + tallies.last().lines_deleted
    }
}

/// The tallies of a sequence of contributors, in order.
pub open spec fn tallies_of(entries: Seq<Contributor>) -> Seq<Tally> {
    Seq::new(entries.len(), |i: int| entries[i]@)
}

/// No author name occurs twice among the authors of a history.
pub proof fn authors_are_distinct(history: Seq<Contribution>)
    ensures
        authors_in_order(history).no_duplicates(),
    decreases history.len(),
{
    if history.len() > 0 {
        authors_are_distinct(history.drop_last());
    }
}

/// The authors of a history are exactly the names that its commits carry.
pub proof fn authors_are_the_names_seen(history: Seq<Contribution>, name: Seq<char>)
    ensures
        authors_in_order(history).contains(name) <==> commits_by(history, name) > 0,
    decreases history.len(),
{
    if history.len() > 0 {
        let earlier = authors_in_order(history.drop_last());
        authors_are_the_names_seen(history.drop_last(), name);
        if earlier.contains(history.last().author) {
        } else {
            let grown = earlier.push(history.last().author);
            if earlier.contains(name) {
                let k = choose|k: int| 0 <= k < earlier.len() && earlier[k] == name;
                assert(grown[k] == name);
            }
            if history.last().author == name {
                assert(grown[earlier.len() as int] == name);
            }
        }
    }
}

/// How the summary grows with one more commit: the tally of a known author
/// is raised in place, a new author is entered at the end with the
/// commit's own counts. All other tallies stay as they are.
pub proof fn summary_after(history: Seq<Contribution>, next: Contribution)
    ensures
        ({
            let authors = authors_in_order(history);
            let before = summary(history);
            let after = summary(history.push(next));
            if authors.contains(next.author) {
                let i = authors.index_of(next.author);
                &&& 0 <= i < before.len()
                &&& after == before.update(
                    i,
                    Tally {
                        name: next.author,
                        commits: before[i].commits + 1,
                        lines_added: before[i].lines_added + next.insertions,
                        lines_deleted: before[i].lines_deleted + next.deletions,
                    },
                )
            } else {
                after == before.push(
                    Tally {
                        name: next.author,
                        commits: 1,
                        lines_added: next.insertions,
                        lines_deleted: next.deletions,
                    },
                )
            }
        }),
{
    let authors = authors_in_order(history);
    assert(history.push(next).drop_last() == history);
    authors_are_distinct(history);
    if !authors.contains(next.author) {
        authors_are_the_names_seen(history, next.author);
        unseen_author_has_nothing(history, next.author);
    }
}

/// An author without commits has added and deleted nothing.
pub proof fn unseen_author_has_nothing(history: Seq<Contribution>, name: Seq<char>)
    requires
        commits_by(history, name) == 0,
    ensures
        added_by(history, name) == 0,
        deleted_by(history, name) == 0,
    decreases history.len(),
{
    if history.len() > 0 {
        unseen_author_has_nothing(history.drop_last(), name);
    }
}

/// Replacing one tally changes the sums by the difference between the new
/// tally and the old one.
pub proof fn sums_after_update(tallies: Seq<Tally>, i: int, tally: Tally)
    requires
        0 <= i < tallies.len(),
    ensures
        sum_commits(tallies.update(i, tally)) == sum_commits(tallies) - tallies[i].commits
            + tally.commits,
        sum_contributions(tallies.update(i, tally)) == sum_contributions(tallies)
            - tallies[i].lines_added - tallies[i].lines_deleted + tally.lines_added
            + tally.lines_deleted,
        tallies[i].commits <= sum_commits(tallies),
        tallies[i].lines_added + tallies[i].lines_deleted <= sum_contributions(tallies),
    decreases tallies.len(),
{
    let changed = tallies.update(i, tally);
    if i == tallies.len() - 1 {
        assert(changed.drop_last() == tallies.drop_last());
    } else {
        sums_after_update(tallies.drop_last(), i, tally);
        assert(changed.drop_last() == tallies.drop_last().update(i, tally));
    }
}

/// The commit counts of all authors add up to the number of commits.
pub proof fn commit_counts_add_up(history: Seq<Contribution>)
    ensures
        sum_commits(summary(history)) == history.len(),
    decreases history.len(),
{
    if history.len() == 0 {
    } else {
        let earlier = history.drop_last();
        let next = history.last();
        commit_counts_add_up(earlier);
        assert(history == earlier.push(next));
        summary_after(earlier, next);
        let before = summary(earlier);
        if authors_in_order(earlier).contains(next.author) {
            let i = authors_in_order(earlier).index_of(next.author);
            sums_after_update(before, i, summary(history)[i]);
        } else {
            assert(summary(history).drop_last() == before);
        }
    }
}

/// The lines added and deleted of all authors add up to the lines added
/// and deleted by all commits: the total that shares are taken of.
pub proof fn contributions_add_up(history: Seq<Contribution>)
    ensures
        sum_contributions(summary(history)) == total_lines(history),
    decreases history.len(),
{
    if history.len() == 0 {
    } else {
        let earlier = history.drop_last();
        let next = history.last();
        contributions_add_up(earlier);
        assert(history == earlier.push(next));
        summary_after(earlier, next);
        let before = summary(earlier);
        if authors_in_order(earlier).contains(next.author) {
            let i = authors_in_order(earlier).index_of(next.author);
            sums_after_update(before, i, summary(history)[i]);
        } else {
            assert(summary(history).drop_last() == before);
        }
    }
}

/// An author's totals never go down when another commit is counted.
pub proof fn totals_never_decrease(history: Seq<Contribution>, next: Contribution, name: Seq<char>)
    ensures
        commits_by(history, name) <= commits_by(history.push(next), name),
        added_by(history, name) <= added_by(history.push(next), name),
        deleted_by(history, name) <= deleted_by(history.push(next), name),
{
    assert(history.push(next).drop_last() == history);
}

/// One commit as the ledger takes it: the author's name and the commit's
/// statistics.
#[derive(Clone, Debug)]
pub struct Attribution {
    pub author: String,
    pub stat: DiffStat,
}

impl View for Attribution {
    type V = Contribution;

    open spec fn view(&self) -> Contribution {
        contribution_of(self.author@, self.stat)
    }
}

/// The contributions of a sequence of attributions, in order.
pub open spec fn contributions_of(commits: Seq<Attribution>) -> Seq<Contribution> {
    Seq::new(commits.len(), |i: int| commits[i]@)
}

/// A total has outgrown the machine's integers.
#[derive(Clone, Copy, Debug, PartialEq, Eq, Structural)]
pub struct TotalsOverflow;

/// The name that a commit is counted under: its author's name, or the
/// stand-in for commits that carry none.
pub fn author_or_unknown(name: Option<&str>) -> (author: String)
    ensures
        author@ == match name {
            Some(n) => n@,
            None => unknown_author(),
        },
{
    match name {
        Some(n) => String::from_str(n),
        None => String::from_str("Unknown"),
    }
}

/// Per-author totals, one entry for each author in the order of first
/// appearance, with the totals over all authors.
pub struct AuthorLedger {
    entries: Vec<Contributor>,
    commits: usize,
    contributions: usize,
    history: Ghost<Seq<Contribution>>,
}

impl View for AuthorLedger {
    type V = Seq<Tally>;

    closed spec fn view(&self) -> Seq<Tally> {
        tallies_of(self.entries@)
    }
}

impl AuthorLedger {
    /// The commits counted so far, in the order in which they came.
    pub closed spec fn history(&self) -> Seq<Contribution> {
        self.history@
    }

    /// The stored count of all commits.
    pub closed spec fn commit_total(&self) -> nat {
        self.commits as nat
    }

    /// The stored count of all lines added and deleted.
    pub closed spec fn line_total(&self) -> nat {
        self.contributions as nat
    }

    /// The ledger is the summary of its history, and its totals are those
    /// of its history.
    pub open spec fn wf(&self) -> bool {
        &&& self@ == summary(self.history())
        &&& self.commit_total() == self.history().len()
        &&& self.line_total() == total_lines(self.history())
    }

    /// The totals of a ledger are the sums over its entries: the commit
    /// counts of all authors add up to the number of commits counted, and
    /// their lines to the lines of all commits.
    pub proof fn totals_are_sums(&self)
        requires
            self.wf(),
        ensures
            sum_commits(self@) == self.commit_total(),
            sum_contributions(self@) == self.line_total(),
    {
        commit_counts_add_up(self.history());
        contributions_add_up(self.history());
    }

    /// A ledger that has counted nothing.
    pub fn new() -> (ledger: AuthorLedger)
        ensures
            ledger.wf(),
            ledger.history() == Seq::<Contribution>::empty(),
    {
        let ledger = AuthorLedger {
            entries: Vec::new(),
            commits: 0,
            contributions: 0,
            history: Ghost(Seq::empty()),
        };
        assert(ledger@ =~= summary(ledger.history()));
        ledger
    }

    /// The number of authors.
    pub fn len(&self) -> (n: usize)
        ensures
            n == self@.len(),
    {
        self.entries.len()
    }

    /// The entry at position `i`, counting authors from the first seen.
    pub fn get(&self, i: usize) -> (entry: &Contributor)
        requires
            i < self@.len(),
        ensures
            entry@ == self@[i as int],
    {
        &self.entries[i]
    }

    /// The number of commits counted.
    pub fn total_commits(&self) -> (n: usize)
        ensures
            n == self.commit_total(),
    {
        self.commits
    }

    /// The lines added and deleted by all authors together.
    pub fn total_contributions(&self) -> (n: usize)
        ensures
            n == self.line_total(),
    {
        self.contributions
    }

    /// The position of the entry of `name`, if the ledger has one.
    pub fn position(&self, name: &str) -> (found: Option<usize>)
        ensures
            match found {
                Some(i) => i < self@.len() && self@[i as int].name == name@ && forall|j: int|
                    0 <= j < i ==> self@[j].name != name@,
                None => forall|j: int| 0 <= j < self@.len() ==> self@[j].name != name@,
            },
    {
        let mut i: usize = 0;
        while i < self.entries.len()
            invariant
                i <= self.entries.len(),
                forall|j: int| 0 <= j < i ==> self@[j].name != name@,
            decreases self.entries.len() - i,
        {
            if same_text(self.entries[i].name.as_str(), name) {
                return Some(i);
            }
            i = i + 1;
        }
        None
    }

    /// The totals of `name`, if any commit of that author was counted.
    pub fn stats_of(&self, name: &str) -> (stats: Option<AuthorStats>)
        requires
            self.wf(),
        ensures
            stats is Some <==> commits_by(self.history(), name@) > 0,
            stats matches Some(s) ==> s.commits == commits_by(self.history(), name@)
                && s.lines_added == added_by(self.history(), name@) && s.lines_deleted
                == deleted_by(self.history(), name@),
    {
        proof {
            authors_are_the_names_seen(self.history(), name@);
        }
        let ghost authors = authors_in_order(self.history());
        match self.position(name) {
            Some(i) => {
                Some(self.entries[i].stats)
            },
            None => {
                assert forall|j: int| 0 <= j < authors.len() implies authors[j] != name@ by {
                    assert(self@[j].name == authors[j]);
                }
                None
            },
        }
    }

    /// Counts one commit of `author` with the statistics `stat`. The commit
    /// is refused, and the ledger left as it was, exactly when a total would
    /// no longer fit.
    pub fn record(&mut self, author: &str, stat: DiffStat) -> (outcome: Result<(), TotalsOverflow>)
        requires
            old(self).wf(),
        ensures
            final(self).wf(),
            outcome is Ok <==> total_lines(old(self).history()) + stat.insertions + stat.deletions
                <= usize::MAX && old(self).history().len() < usize::MAX,
            outcome is Ok ==> final(self).history() == old(self).history().push(
                contribution_of(author@, stat),
            ),
            outcome is Err ==> *final(self) == *old(self),
    {
        let lines: usize = match stat.insertions.checked_add(stat.deletions) {
            Some(n) => n,
            None => {
                return Err(TotalsOverflow);
            },
        };
        let contributions: usize = match self.contributions.checked_add(lines) {
            Some(n) => n,
            None => {
                return Err(TotalsOverflow);
            },
        };
        let commits: usize = match self.commits.checked_add(1) {
            Some(n) => n,
            None => {
                return Err(TotalsOverflow);
            },
        };
        let ghost before = self.history@;
        let ghost next = contribution_of(author@, stat);
        proof {
            summary_after(before, next);
            authors_are_distinct(before);
            assert(before.push(next).drop_last() == before);
        }
        match self.position(author) {
            Some(i) => {
                proof {
                    sums_after_update(summary(before), i as int, summary(before)[i as int]);
                    commit_counts_add_up(before);
                    contributions_add_up(before);
                }
                let entry = &self.entries[i];
                let raised = Contributor {
                    name: entry.name.clone(),
                    stats: AuthorStats {
                        commits: entry.stats.commits + 1,
                        lines_added: entry.stats.lines_added + stat.insertions,
                        lines_deleted: entry.stats.lines_deleted + stat.deletions,
                    },
                };
                self.entries.set(i, raised);
                assert(tallies_of(self.entries@) =~= summary(before.push(next)));
            },
            None => {
                let entered = Contributor {
                    name: String::from_str(author),
                    stats: AuthorStats {
                        commits: 1,
                        lines_added: stat.insertions,
                        lines_deleted: stat.deletions,
                    },
                };
                self.entries.push(entered);
                assert(tallies_of(self.entries@) =~= summary(before.push(next)));
            },
        }
        self.commits = commits;
        self.contributions = contributions;
        self.history = Ghost(before.push(next));
        Ok(())
    }
}

/// Counts a run of commits into a fresh ledger. The result is the summary
/// of the whole run: its commit counts add up to the number of commits and
/// its lines to the lines of all commits. There is no result exactly when
/// the lines of all commits together no longer fit the machine's integers.
pub fn aggregate(commits: &[Attribution]) -> (outcome: Result<AuthorLedger, TotalsOverflow>)
    ensures
        outcome is Ok <==> total_lines(contributions_of(commits@)) <= usize::MAX,
        outcome matches Ok(ledger) ==> {
            &&& ledger.wf()
            &&& ledger.history() == contributions_of(commits@)
            &&& ledger@ == summary(contributions_of(commits@))
            &&& sum_commits(ledger@) == commits@.len()
            &&& sum_contributions(ledger@) == total_lines(contributions_of(commits@))
        },
{
    let mut ledger = AuthorLedger::new();
    let ghost all = contributions_of(commits@);
    let mut i: usize = 0;
    while i < commits.len()
        invariant
            i <= commits.len(),
            all == contributions_of(commits@),
            ledger.wf(),
            ledger.history() == all.take(i as int),
        decreases commits.len() - i,
    {
        let commit = &commits[i];
        proof {
            assert(all.take(i + 1).drop_last() == all.take(i as int));
        }
        match ledger.record(commit.author.as_str(), commit.stat) {
            Ok(()) => {},
            Err(e) => {
                proof {
                    total_lines_grow(all, i + 1);
                }
                return Err(e);
            },
        }
        i = i + 1;
    }
    proof {
        assert(all.take(commits.len() as int) == all);
        commit_counts_add_up(all);
        contributions_add_up(all);
    }
    Ok(ledger)
}

/// The lines of the first `n` commits are among the lines of all commits.
pub proof fn total_lines_grow(history: Seq<Contribution>, n: int)
    requires
        0 <= n <= history.len(),
    ensures
        total_lines(history.take(n)) <= total_lines(history),
    decreases history.len(),
{
    if n < history.len() {
        total_lines_grow(history.drop_last(), n);
        assert(history.drop_last().take(n) == history.take(n));
    } else {
        assert(history.take(n) == history);
    }
}

} // verus!
