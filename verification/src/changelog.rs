//! The Markdown changelog of a range of commits: a title, a statistics
//! section, and one section for each category that has commits.

use vstd::prelude::*;
use git2::{Commit, Oid, Repository};
use crate::analyzer::author_of;
use crate::classify::{bucket, bucket_of_nothing, classify_commits, Category};
use crate::diffstat::diff_stats;
use crate::models::{borrowed_commit_texts, commit_texts, CommitInfo, CommitText, DiffStat};
use crate::repo::{oid_text, resolve_tag, TagResolution};
use crate::text::{decimal, first_line, first_line_of, push_decimal, short_id, short_id_of};
use crate::text::signed_decimal;
use crate::utils::{format_time, local_seconds, CommitTime};
use crate::walker::{walk, GraphTraversalFailure, WalkStart};

verus! {

/// The title of the changelog between two tags.
pub open spec fn changelog_title(from_tag: Seq<char>, to_tag: Seq<char>) -> Seq<char> {
    "Changelog from "@ + from_tag + " to "@ + to_tag
}

/// One commit as a changelog lists it.
#[derive(Clone, Debug, PartialEq, Eq)]
pub struct ChangelogEntry {
    pub short_id: String,
    pub author: String,
    pub date: String,
    pub title: String,
}

/// A changelog entry over character sequences.
pub struct EntryText {
    pub short_id: Seq<char>,
    pub author: Seq<char>,
    pub date: Seq<char>,
    pub title: Seq<char>,
}

impl View for ChangelogEntry {
    type V = EntryText;

    open spec fn view(&self) -> EntryText {
        EntryText {
            short_id: self.short_id@,
            author: self.author@,
            date: self.date@,
            title: self.title@,
        }
    }
}

/// The entry of a commit: its abbreviated identifier, its author and date
/// as they are, and the first line of its message.
pub open spec fn entry_of(commit: CommitText) -> EntryText {
    EntryText {
        short_id: short_id_of(commit.hash),
        author: commit.author,
        date: commit.date,
        title: first_line_of(commit.message),
    }
}

/// The two lines of an entry: the title and the abbreviated identifier,
/// then the author and the date.
pub open spec fn entry_lines(entry: EntryText) -> Seq<char> {
    "- "@ + entry.title + " ("@ + entry.short_id + ")\n  _by "@ + entry.author + " on "@
        + entry.date + "_\n"@
}

/// The two lines that list one commit.
pub open spec fn entry_text(commit: CommitText) -> Seq<char> {
    entry_lines(entry_of(commit))
}

/// The entries of `commits`, one after the other.
pub open spec fn entries_text(commits: Seq<CommitText>) -> Seq<char>
    decreases commits.len(),
{
    if commits.len() == 0 {
        Seq::empty()
    } else {
        entries_text(commits.drop_last()) + entry_text(commits.last())
    }
}

/// A section: heading, entries and closing text. A section without commits
/// is left out altogether.
pub open spec fn section_text(heading: Seq<char>, commits: Seq<CommitText>, closing: Seq<char>) -> Seq<
    char,
> {
    if commits.len() == 0 {
        Seq::empty()
    } else {
        heading + entries_text(commits) + closing
    }
}

/// The head of a changelog: the title line and the statistics section.
pub open spec fn header_text(
    title: Seq<char>,
    files_changed: nat,
    insertions: nat,
    deletions: nat,
    commits: nat,
) -> Seq<char> {
    "# "@ + title + "\n\n"@ + "## Statistics\n\n"@ + "- Files changed: "@ + decimal(files_changed)
        + "\n"@ + "- Lines added: "@ + decimal(insertions) + "\n"@ + "- Lines deleted: "@
        + decimal(deletions) + "\n"@ + "- Total commits: "@ + decimal(commits) + "\n\n"@
}

/// The whole changelog: the head, then the features, the fixes and the
/// other changes, each category listing its commits in the order given.
pub open spec fn changelog_text(
    title: Seq<char>,
    commits: Seq<CommitText>,
    files_changed: nat,
    insertions: nat,
    deletions: nat,
) -> Seq<char> {
    header_text(title, files_changed, insertions, deletions, commits.len()) + section_text(
        "## New Features\n\n"@,
        bucket(commits, Category::Feature),
        "\n"@,
    ) + section_text("## Bug Fixes\n\n"@, bucket(commits, Category::Fix), "\n"@) + section_text(
        "## Other Changes\n\n"@,
        bucket(commits, Category::Other),
        Seq::empty(),
    )
}

/// The changelog of an empty range is its head alone: the statistics with
/// a commit count of zero, and no category section.
pub proof fn empty_range_has_no_sections(
    title: Seq<char>,
    files_changed: nat,
    insertions: nat,
    deletions: nat,
)
    ensures
        changelog_text(title, Seq::empty(), files_changed, insertions, deletions) == header_text(
            title,
            files_changed,
            insertions,
            deletions,
            0,
        ),
{
    bucket_of_nothing(Category::Feature);
    bucket_of_nothing(Category::Fix);
    bucket_of_nothing(Category::Other);
}

/// Builds the title of the changelog between two tags.
pub fn make_title(from_tag: &str, to_tag: &str) -> (title: String)
    ensures
        title@ == changelog_title(from_tag@, to_tag@),
{
    let mut title = String::from_str("Changelog from ");
    title.append(from_tag);
    title.append(" to ");
    title.append(to_tag);
    title
}

/// The entry of a commit.
pub fn changelog_entry(commit: &CommitInfo) -> (entry: ChangelogEntry)
    ensures
        entry@ == entry_of(commit@),
{
    ChangelogEntry {
        short_id: String::from_str(short_id(commit.hash.as_str())),
        author: commit.author.clone(),
        date: commit.date.clone(),
        title: String::from_str(first_line(commit.message.as_str())),
    }
}

/// Appends the entry of one commit to `out`.
pub fn push_entry(out: &mut String, commit: &CommitInfo)
    ensures
        final(out)@ == old(out)@ + entry_text(commit@),
{
    out.append("- ");
    out.append(first_line(commit.message.as_str()));
    out.append(" (");
    out.append(short_id(commit.hash.as_str()));
    out.append(")\n  _by ");
    out.append(commit.author.as_str());
    out.append(" on ");
    out.append(commit.date.as_str());
    out.append("_\n");
}

/// Appends a section to `out`; nothing at all when it has no commits.
pub fn push_section(out: &mut String, heading: &str, commits: &Vec<&CommitInfo>, closing: &str)
    ensures
        final(out)@ == old(out)@ + section_text(
            heading@,
            borrowed_commit_texts(commits@),
            closing@,
        ),
{
    let ghost texts = borrowed_commit_texts(commits@);
    if commits.len() == 0 {
        return ;
    }
    out.append(heading);
    let mut i: usize = 0;
    while i < commits.len()
        invariant
            i <= commits.len(),
            texts == borrowed_commit_texts(commits@),
            out@ == old(out)@ + heading@ + entries_text(texts.take(i as int)),
        decreases commits.len() - i,
    {
        push_entry(out, commits[i]);
        proof {
            let seen = texts.take(i as int);
            let next = texts.take(i + 1);
            assert(next.drop_last() =~= seen);
        }
        i = i + 1;
    }
    out.append(closing);
    proof {
        assert(texts.take(commits.len() as int) =~= texts);
    }
}

/// Appends the head of a changelog to `out`.
pub fn push_header(
    out: &mut String,
    title: &str,
    files_changed: usize,
    insertions: usize,
    deletions: usize,
    commits: usize,
)
    ensures
        final(out)@ == old(out)@ + header_text(
            title@,
            files_changed as nat,
            insertions as nat,
            deletions as nat,
            commits as nat,
        ),
{
    out.append("# ");
    out.append(title);
    out.append("\n\n");
    out.append("## Statistics\n\n");
    out.append("- Files changed: ");
    push_decimal(out, files_changed as u128);
    out.append("\n");
    out.append("- Lines added: ");
    push_decimal(out, insertions as u128);
    out.append("\n");
    out.append("- Lines deleted: ");
    push_decimal(out, deletions as u128);
    out.append("\n");
    out.append("- Total commits: ");
    push_decimal(out, commits as u128);
    out.append("\n\n");
}

/// Renders the changelog of `commits` under `title`, with the statistics of
/// the range as given and the number of commits counted here.
pub fn format_changelog(
    title: String,
    commits: &[CommitInfo],
    files_changed: usize,
    insertions: usize,
    deletions: usize,
) -> (text: String)
    ensures
        text@ == changelog_text(
            title@,
            commit_texts(commits@),
            files_changed as nat,
            insertions as nat,
            deletions as nat,
        ),
{
    let mut text = String::new();
    push_header(&mut text, title.as_str(), files_changed, insertions, deletions, commits.len());
    let buckets = classify_commits(commits);
    push_section(&mut text, "## New Features\n\n", &buckets.features, "\n");
    push_section(&mut text, "## Bug Fixes\n\n", &buckets.fixes, "\n");
    push_section(&mut text, "## Other Changes\n\n", &buckets.others, "");
    proof {
        reveal_strlit("");
    }
    text
}

/// Why no changelog could be produced.
#[derive(Clone, Debug, PartialEq, Eq)]
pub enum ChangelogError {
    /// The tag with this name does not exist.
    TagNotFound(String),
    /// The tag with this name exists and does not lead to a commit.
    TagUnresolvable(String),
    /// The commit graph could not be walked, or one of its objects could
    /// not be loaded.
    GraphTraversalFailure,
}

/// A `ChangelogError` over character sequences.
pub enum Fault {
    TagNotFound(Seq<char>),
    TagUnresolvable(Seq<char>),
    GraphTraversalFailure,
}

impl View for ChangelogError {
    type V = Fault;

    open spec fn view(&self) -> Fault {
        match self {
            ChangelogError::TagNotFound(name) => Fault::TagNotFound(name@),
            ChangelogError::TagUnresolvable(name) => Fault::TagUnresolvable(name@),
            ChangelogError::GraphTraversalFailure => Fault::GraphTraversalFailure,
        }
    }
}

/// The message that tells a user of a fault.
pub open spec fn fault_text(fault: Fault) -> Seq<char> {
    match fault {
        Fault::TagNotFound(name) => "Tag '"@ + name + "' does not exist!"@,
        Fault::TagUnresolvable(name) => "Cannot resolve tag '"@ + name + "' to a commit"@,
        Fault::GraphTraversalFailure => "Failed to walk the commit graph"@,
    }
}

/// Whether two faults are of the same kind, whatever tag they name.
pub open spec fn same_kind(a: Fault, b: Fault) -> bool {
    ||| a is TagNotFound && b is TagNotFound
    ||| a is TagUnresolvable && b is TagUnresolvable
    ||| a is GraphTraversalFailure && b is GraphTraversalFailure
}

/// Faults of different kinds never share a message: a tag that is missing
/// reads differently from one that cannot be resolved, whatever the names.
pub proof fn messages_tell_kinds_apart(a: Fault, b: Fault)
    requires
        fault_text(a) == fault_text(b),
    ensures
        same_kind(a, b),
{
    reveal_strlit("Tag '");
    reveal_strlit("Cannot resolve tag '");
    reveal_strlit("Failed to walk the commit graph");
    // The three messages begin with three different letters.
    assert(forall|n: Seq<char>| (#[trigger] fault_text(Fault::TagNotFound(n)))[0] == 'T');
    assert(forall|n: Seq<char>| (#[trigger] fault_text(Fault::TagUnresolvable(n)))[0] == 'C');
    assert(fault_text(Fault::GraphTraversalFailure)[0] == 'F');
}

impl ChangelogError {
    /// The message that tells a user of this error.
    pub fn describe(&self) -> (text: String)
        ensures
            text@ == fault_text(self@),
    {
        match self {
            ChangelogError::TagNotFound(name) => {
                let mut text = String::from_str("Tag '");
                text.append(name.as_str());
                text.append("' does not exist!");
                text
            },
            ChangelogError::TagUnresolvable(name) => {
                let mut text = String::from_str("Cannot resolve tag '");
                text.append(name.as_str());
                text.append("' to a commit");
                text
            },
            ChangelogError::GraphTraversalFailure => String::from_str(
                "Failed to walk the commit graph",
            ),
        }
    }
}

/// The two ends of a range, or the fault that the resolutions of its two
/// tags amount to. A missing tag is reported before an unresolvable one,
/// and the starting tag before the ending tag.
pub open spec fn range_of(
    from_tag: Seq<char>,
    from: TagResolution,
    to_tag: Seq<char>,
    to: TagResolution,
) -> Result<(Oid, Oid), Fault> {
    if from is NotFound {
        Err(Fault::TagNotFound(from_tag))
    } else if to is NotFound {
        Err(Fault::TagNotFound(to_tag))
    } else if from is Unresolvable {
        Err(Fault::TagUnresolvable(from_tag))
    } else if to is Unresolvable {
        Err(Fault::TagUnresolvable(to_tag))
    } else {
        Ok((from->Resolved_0, to->Resolved_0))
    }
}

/// The view of the outcome of a range check.
pub open spec fn range_view(outcome: Result<(Oid, Oid), ChangelogError>) -> Result<
    (Oid, Oid),
    Fault,
> {
    match outcome {
        Ok(ends) => Ok(ends),
        Err(e) => Err(e@),
    }
}

/// Decides from the resolutions of the two tags whether there is a range,
/// and which fault is reported when there is none.
pub fn check_range(from_tag: &str, from: TagResolution, to_tag: &str, to: TagResolution) -> (outcome:
    Result<(Oid, Oid), ChangelogError>)
    ensures
        range_view(outcome) == range_of(from_tag@, from, to_tag@, to),
{
    match (from, to) {
        (TagResolution::NotFound, _) => Err(ChangelogError::TagNotFound(String::from_str(from_tag))),
        (_, TagResolution::NotFound) => Err(ChangelogError::TagNotFound(String::from_str(to_tag))),
        (TagResolution::Unresolvable, _) => Err(
            ChangelogError::TagUnresolvable(String::from_str(from_tag)),
        ),
        (_, TagResolution::Unresolvable) => Err(
            ChangelogError::TagUnresolvable(String::from_str(to_tag)),
        ),
        (TagResolution::Resolved(start), TagResolution::Resolved(end)) => Ok((start, end)),
    }
}

/// A commit as the changelog shows it: its identifier in hexadecimal, the
/// name it is counted under, its time as a number, and its message, empty
/// when the message cannot be read.
pub fn commit_info(id: &Oid, commit: &Commit<'_>) -> (info: CommitInfo)
    ensures
        exists|when: CommitTime| info.date@ == signed_decimal(local_seconds(when)),
{
    let time = commit.time();
    let when = CommitTime { seconds: time.seconds(), offset_minutes: time.offset_minutes() };
    let message = match commit.message() {
        Ok(m) => m,
        Err(_) => "",
    };
    CommitInfo {
        hash: oid_text(id),
        author: author_of(commit),
        date: format_time(&when),
        message: String::from_str(message),
    }
}

/// Loads the commits of `ids` in order; with no identifier nothing can fail.
pub fn load_commits(repo: &Repository, ids: &Vec<Oid>) -> (outcome: Result<
    Vec<CommitInfo>,
    GraphTraversalFailure,
>)
    ensures
        ids@.len() == 0 ==> outcome is Ok,
        outcome matches Ok(commits) ==> commits@.len() == ids@.len(),
{
    let mut commits: Vec<CommitInfo> = Vec::new();
    let mut i: usize = 0;
    while i < ids.len()
        invariant
            i <= ids.len(),
            commits@.len() == i,
        decreases ids.len() - i,
    {
        match repo.find_commit(ids[i]) {
            Ok(commit) => {
                commits.push(commit_info(&ids[i], &commit));
            },
            Err(_) => {
                return Err(GraphTraversalFailure);
            },
        }
        i = i + 1;
    }
    Ok(commits)
}

/// The statistics of a whole range: one measurement of the change from the
/// tree of the commit `from` to the tree of the commit `to`. Fails when a
/// commit or its tree cannot be loaded; the statistics are zeroed when the
/// change cannot be measured.
pub fn range_stats(repo: &Repository, from: Oid, to: Oid) -> (outcome: Result<
    DiffStat,
    GraphTraversalFailure,
>) {
    let from_commit = match repo.find_commit(from) {
        Ok(c) => c,
        Err(_) => {
            return Err(GraphTraversalFailure);
        },
    };
    let to_commit = match repo.find_commit(to) {
        Ok(c) => c,
        Err(_) => {
            return Err(GraphTraversalFailure);
        },
    };
    let from_tree = match from_commit.tree() {
        Ok(t) => t,
        Err(_) => {
            return Err(GraphTraversalFailure);
        },
    };
    let to_tree = match to_commit.tree() {
        Ok(t) => t,
        Err(_) => {
            return Err(GraphTraversalFailure);
        },
    };
    Ok(diff_stats(repo, Some(&from_tree), &to_tree))
}

/// Resolves the two tags of a range to the commits at its ends: the
/// outcome is what `range_of` makes of the resolutions of the two tags.
pub fn resolve_range(repo: &Repository, from_tag: &str, to_tag: &str) -> (outcome: Result<
    (Oid, Oid),
    ChangelogError,
>)
    ensures
        exists|from: TagResolution, to: TagResolution|
            range_view(outcome) == range_of(from_tag@, from, to_tag@, to),
{
    let from = resolve_tag(repo, from_tag);
    let to = resolve_tag(repo, to_tag);
    check_range(from_tag, from, to_tag, to)
}

/// The changelog of the commits reachable from `end` and not from
/// `start`, under the title of the two tags and the statistics of the
/// change from `start` to `end`. A changelog is the rendering of some run
/// of commits under that title.
pub fn changelog_between(
    repo: &Repository,
    from_tag: &str,
    to_tag: &str,
    start: Oid,
    end: Oid,
) -> (outcome: Result<String, GraphTraversalFailure>)
    ensures
        outcome matches Ok(text) ==> is_changelog_under(text@, changelog_title(from_tag@, to_tag@)),
{
    let ids = match walk(repo, WalkStart::At(end), Some(start)) {
        Ok(ids) => ids,
        Err(e) => {
            return Err(e);
        },
    };
    let commits = match load_commits(repo, &ids) {
        Ok(commits) => commits,
        Err(e) => {
            return Err(e);
        },
    };
    let stat = match range_stats(repo, start, end) {
        Ok(stat) => stat,
        Err(e) => {
            return Err(e);
        },
    };
    let text = format_changelog(
        make_title(from_tag, to_tag),
        commits.as_slice(),
        stat.files_changed,
        stat.insertions,
        stat.deletions,
    );
    Ok(text)
}

/// `text` is the changelog of some run of commits and some statistics
/// under `title`.
pub open spec fn is_changelog_under(text: Seq<char>, title: Seq<char>) -> bool {
    exists|commits: Seq<CommitText>, files_changed: nat, insertions: nat, deletions: nat|
        text == changelog_text(title, commits, files_changed, insertions, deletions)
}

/// Generate a changelog between two tags: the commits reachable from
/// `to_tag` and not from `from_tag`, under the statistics of the change
/// between the two tags. A fault names the tag that it is about; a
/// changelog is the rendering of some run of commits under the title of
/// the two tags.
pub fn generate_changelog(repo: &Repository, from_tag: &str, to_tag: &str) -> (outcome: Result<
    String,
    ChangelogError,
>)
    ensures
        outcome matches Ok(text) ==> is_changelog_under(text@, changelog_title(from_tag@, to_tag@)),
        outcome matches Err(e) ==> match e@ {
            Fault::TagNotFound(name) => name == from_tag@ || name == to_tag@,
            Fault::TagUnresolvable(name) => name == from_tag@ || name == to_tag@,
            Fault::GraphTraversalFailure => true,
        },
{
    let (start, end) = match resolve_range(repo, from_tag, to_tag) {
        Ok(ends) => ends,
        Err(e) => {
            return Err(e);
        },
    };
    match changelog_between(repo, from_tag, to_tag, start, end) {
        Ok(text) => Ok(text),
        Err(_) => Err(ChangelogError::GraphTraversalFailure),
    }
}

} // verus!
