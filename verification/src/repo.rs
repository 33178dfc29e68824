//! Access to a repository: the outside types and calls that the library
//! relies on, and the resolution of tag names to commits.

use vstd::prelude::*;
use git2::{
    Commit, Diff, DiffOptions, DiffStats, Error, Object, ObjectType, Oid, Repository, Revwalk,
    Signature, Time, Tree,
};

verus! {

// The types of git2 that pass through the library. Each one is opaque here:
// the library hands its values on and reads them through the calls below.
#[verifier::external_type_specification]
#[verifier::external_body]
pub struct ExRepository(Repository);

#[verifier::external_type_specification]
#[verifier::external_body]
pub struct ExObject<'repo>(Object<'repo>);

#[verifier::external_type_specification]
#[verifier::external_body]
pub struct ExOid(Oid);

#[verifier::external_type_specification]
#[verifier::external_body]
pub struct ExError(Error);

#[verifier::external_type_specification]
#[verifier::external_body]
pub struct ExRevwalk<'repo>(Revwalk<'repo>);

#[verifier::external_type_specification]
#[verifier::external_body]
pub struct ExCommit<'repo>(Commit<'repo>);

#[verifier::external_type_specification]
#[verifier::external_body]
pub struct ExTree<'repo>(Tree<'repo>);

#[verifier::external_type_specification]
#[verifier::external_body]
pub struct ExDiff<'repo>(Diff<'repo>);

#[verifier::external_type_specification]
#[verifier::external_body]
pub struct ExDiffOptions(DiffOptions);

#[verifier::external_type_specification]
#[verifier::external_body]
pub struct ExDiffStats(DiffStats);

#[verifier::external_type_specification]
#[verifier::external_body]
pub struct ExSignature<'a>(Signature<'a>);

#[verifier::external_type_specification]
#[verifier::external_body]
pub struct ExTime(Time);

// The calls of git2 that the library makes. What they return depends on
// the repository on disk, so no contract claims anything of their results.

/// `Repository::revparse_single` looks an object up by a revision string.
/// Nothing is claimed of what it finds.
pub assume_specification<'a>[ Repository::revparse_single ](
    repo: &'a Repository,
    spec: &str,
) -> (found: Result<Object<'a>, Error>)
;

/// `Object::id` gives the identifier of an object. Nothing is claimed of it.
pub assume_specification<'a>[ Object::<'a>::id ](object: &Object<'a>) -> (id: Oid)
;

/// `Repository::revwalk` starts a traversal of the commit graph. Nothing
/// is claimed of it.
pub assume_specification<'a>[ Repository::revwalk ](repo: &'a Repository) -> (revwalk: Result<
    Revwalk<'a>,
    Error,
>)
;

/// `Revwalk::push` marks a commit to start from. Nothing is claimed of it.
pub assume_specification<'a>[ Revwalk::<'a>::push ](revwalk: &mut Revwalk<'a>, oid: Oid) -> (done:
    Result<(), Error>)
;

/// `Revwalk::push_head` marks the repository's head to start from. Nothing
/// is claimed of it.
pub assume_specification<'a>[ Revwalk::<'a>::push_head ](revwalk: &mut Revwalk<'a>) -> (done: Result<
    (),
    Error,
>)
;

/// `Revwalk::push_range` takes a range of the form `<commit>..<commit>`,
/// marks its right-hand commit to start from and its left-hand commit, and
/// with it its ancestors, as not wanted. Nothing is claimed of it.
pub assume_specification<'a>[ Revwalk::<'a>::push_range ](
    revwalk: &mut Revwalk<'a>,
    range: &str,
) -> (done: Result<(), Error>)
;

/// `Revwalk::next` gives the next commit of the traversal, or an error, or
/// nothing when the traversal is over. Nothing is claimed of it.
pub assume_specification<'a>[ <Revwalk<'a> as Iterator>::next ](revwalk: &mut Revwalk<'a>) -> (next:
    Option<Result<Oid, Error>>)
;

/// `Repository::find_commit` loads a commit by its identifier. Nothing is
/// claimed of it.
pub assume_specification<'a>[ Repository::find_commit ](repo: &'a Repository, oid: Oid) -> (found:
    Result<Commit<'a>, Error>)
;

/// `Commit::author` gives the author's signature. Nothing is claimed of it.
pub assume_specification<'a, 'b>[ Commit::<'a>::author ](commit: &'b Commit<'a>) -> (author:
    Signature<'b>)
;

/// `Signature::name` gives the name on a signature, or an error when it is
/// not valid UTF-8. Nothing is claimed of it.
pub assume_specification<'a, 'b>[ Signature::<'a>::name ](signature: &'b Signature<'a>) -> (name:
    Result<&'b str, Error>)
;

/// `Commit::message` gives the commit message, or an error when it is not
/// valid UTF-8. Nothing is claimed of it.
pub assume_specification<'a, 'b>[ Commit::<'a>::message ](commit: &'b Commit<'a>) -> (message:
    Result<&'b str, Error>)
;

/// `Commit::parent` loads the parent with the given number. Nothing is
/// claimed of it.
pub assume_specification<'a>[ Commit::<'a>::parent ](commit: &Commit<'a>, i: usize) -> (parent:
    Result<Commit<'a>, Error>)
;

/// `Commit::tree` loads the tree of a commit. Nothing is claimed of it.
pub assume_specification<'a>[ Commit::<'a>::tree ](commit: &Commit<'a>) -> (tree: Result<
    Tree<'a>,
    Error,
>)
;

/// `Commit::time` gives the commit time. Nothing is claimed of it.
pub assume_specification<'a>[ Commit::<'a>::time ](commit: &Commit<'a>) -> (time: Time)
;

/// `Time::seconds` gives the seconds since the epoch. Nothing is claimed of it.
pub assume_specification[ Time::seconds ](time: &Time) -> (seconds: i64)
;

/// `Time::offset_minutes` gives the time zone offset in minutes. Nothing is
/// claimed of it.
pub assume_specification[ Time::offset_minutes ](time: &Time) -> (minutes: i32)
;

/// `DiffOptions::new` makes the default options for a diff.
pub assume_specification[ DiffOptions::new ]() -> (options: DiffOptions)
;

/// `Repository::diff_tree_to_tree` computes the difference between two
/// trees; no old tree stands for the empty tree. Nothing is claimed of it.
pub assume_specification<'a>[ Repository::diff_tree_to_tree ](
    repo: &'a Repository,
    old_tree: Option<&Tree<'_>>,
    new_tree: Option<&Tree<'_>>,
    opts: Option<&mut DiffOptions>,
) -> (diff: Result<Diff<'a>, Error>)
;

/// `Diff::stats` accumulates the statistics of a diff. Nothing is claimed of it.
pub assume_specification<'a>[ Diff::<'a>::stats ](diff: &Diff<'a>) -> (stats: Result<
    DiffStats,
    Error,
>)
;

/// `DiffStats::files_changed` gives the number of files changed.
pub assume_specification[ DiffStats::files_changed ](stats: &DiffStats) -> (n: usize)
;

/// `DiffStats::insertions` gives the number of lines inserted.
pub assume_specification[ DiffStats::insertions ](stats: &DiffStats) -> (n: usize)
;

/// `DiffStats::deletions` gives the number of lines deleted.
pub assume_specification[ DiffStats::deletions ](stats: &DiffStats) -> (n: usize)
;

/// The kind of an object in a repository.
#[derive(Clone, Copy, Debug, PartialEq, Eq, Structural)]
pub enum ObjectKind {
    CommitObject,
    TagObject,
    TreeObject,
    BlobObject,
    AnyObject,
    Unknown,
}

/// Calls `Object::kind` and hands the kind on as the library's own value;
/// `Unknown` stands for a kind that the call could not tell. Nothing is
/// claimed of which kind comes back.
#[verifier::external_body]
fn object_kind(object: &Object<'_>) -> (kind: ObjectKind) {
    match object.kind() {
        Some(ObjectType::Commit) => ObjectKind::CommitObject,
        Some(ObjectType::Tag) => ObjectKind::TagObject,
        Some(ObjectType::Tree) => ObjectKind::TreeObject,
        Some(ObjectType::Blob) => ObjectKind::BlobObject,
        Some(ObjectType::Any) => ObjectKind::AnyObject,
        None => ObjectKind::Unknown,
    }
}

/// Calls `Object::peel` with the commit kind as its target: follows an
/// object until a commit is met. Nothing is claimed of the outcome.
#[verifier::external_body]
fn peel_to_commit<'a>(object: &Object<'a>) -> (peeled: Result<Object<'a>, Error>) {
    object.peel(ObjectType::Commit)
}

/// Calls `to_string` on an identifier, which writes it in hexadecimal.
/// Nothing is claimed of the text.
#[verifier::external_body]
pub(crate) fn oid_text(oid: &Oid) -> (text: String) {
    oid.to_string()
}

/// What a tag name was found to lead to.
#[derive(Clone, Copy, Debug, PartialEq, Eq)]
pub enum TagTarget {
    /// No such tag.
    Absent,
    /// The tag names a commit directly.
    Lightweight(Oid),
    /// The tag names a tag object; following it led to the commit given, or
    /// to none.
    Annotated(Option<Oid>),
    /// The tag names an object that is neither a commit nor a tag.
    NotACommit,
}

/// The outcome of resolving a tag name.
#[derive(Clone, Copy, Debug, PartialEq, Eq)]
pub enum TagResolution {
    /// The tag does not exist.
    NotFound,
    /// The tag exists and does not lead to a commit.
    Unresolvable,
    /// The tag leads to this commit.
    Resolved(Oid),
}

/// Whether the tag exists, whatever it leads to.
pub open spec fn target_exists(target: TagTarget) -> bool {
    !(target is Absent)
}

/// The commit that a tag leads to: the commit itself for a lightweight
/// tag, the commit that was reached for an annotated tag, none otherwise.
pub open spec fn target_commit(target: TagTarget) -> Option<Oid> {
    match target {
        TagTarget::Lightweight(id) => Some(id),
        TagTarget::Annotated(peeled) => peeled,
        TagTarget::Absent => None,
        TagTarget::NotACommit => None,
    }
}

/// The three outcomes of a resolution: not found when the tag is absent,
/// resolved when it leads to a commit, unresolvable when it exists and
/// leads to none.
pub open spec fn resolution_of(target: TagTarget) -> TagResolution {
    if !target_exists(target) {
        TagResolution::NotFound
    } else {
        match target_commit(target) {
            Some(id) => TagResolution::Resolved(id),
            None => TagResolution::Unresolvable,
        }
    }
}

/// The name of the reference that holds the tag `tag_name`.
pub open spec fn tag_reference(tag_name: Seq<char>) -> Seq<char> {
    "refs/tags/"@ + tag_name
}

/// Builds the name of the reference that holds a tag.
pub fn tag_reference_name(tag_name: &str) -> (name: String)
    ensures
        name@ == tag_reference(tag_name@),
{
    let mut name = String::from_str("refs/tags/");
    name.append(tag_name);
    name
}

/// Whether a found tag exists.
pub fn is_present(target: &TagTarget) -> (found: bool)
    ensures
        found == target_exists(*target),
{
    match target {
        TagTarget::Absent => false,
        _ => true,
    }
}

/// The commit of a found tag.
pub fn commit_of(target: &TagTarget) -> (commit: Option<Oid>)
    ensures
        commit == target_commit(*target),
{
    match target {
        TagTarget::Lightweight(id) => Some(*id),
        TagTarget::Annotated(peeled) => *peeled,
        TagTarget::Absent => None,
        TagTarget::NotACommit => None,
    }
}

/// The outcome that a found tag stands for.
pub fn resolution(target: &TagTarget) -> (outcome: TagResolution)
    ensures
        outcome == resolution_of(*target),
{
    if !is_present(target) {
        TagResolution::NotFound
    } else {
        match commit_of(target) {
            Some(id) => TagResolution::Resolved(id),
            None => TagResolution::Unresolvable,
        }
    }
}

/// Looks a tag up in the repository and reports what it leads to: the
/// reference of the tag is looked up, an object that must be followed is
/// followed to its commit, and `target_of` says what the object found
/// leads to. A tag whose reference is not found is absent.
pub fn inspect_tag(repo: &Repository, tag_name: &str) -> (target: TagTarget) {
    let name = tag_reference_name(tag_name);
    match repo.revparse_single(name.as_str()) {
        Ok(object) => {
            let kind = object_kind(&object);
            let peeled = if needs_peeling(kind) {
                match peel_to_commit(&object) {
                    Ok(commit) => Some(commit.id()),
                    Err(_) => None,
                }
            } else {
                None
            };
            target_of(kind, object.id(), peeled)
        },
        Err(_) => TagTarget::Absent,
    }
}

/// Check if a tag exists in the repository
pub fn tag_exists(repo: &Repository, tag_name: &str) -> (found: bool) {
    let target = inspect_tag(repo, tag_name);
    is_present(&target)
}

/// Get the commit that a tag name leads to
pub fn get_commit_from_tag(repo: &Repository, tag_name: &str) -> (commit: Option<Oid>) {
    let target = inspect_tag(repo, tag_name);
    commit_of(&target)
}

/// Resolves a tag name to one of the three outcomes.
pub fn resolve_tag(repo: &Repository, tag_name: &str) -> (outcome: TagResolution) {
    let target = inspect_tag(repo, tag_name);
    resolution(&target)
}

/// Whether an object of this kind must be followed to find its commit:
/// only a tag object must.
pub open spec fn must_peel(kind: ObjectKind) -> bool {
    kind is TagObject
}

/// What an object found under a tag name leads to. A tag object makes the
/// tag annotated, and it leads to the commit that following it reached, if
/// any; a commit makes the tag lightweight and is taken as it is; an object
/// of any other kind is no commit.
pub open spec fn found_target(kind: ObjectKind, id: Oid, peeled: Option<Oid>) -> TagTarget {
    match kind {
        ObjectKind::TagObject => TagTarget::Annotated(peeled),
        ObjectKind::CommitObject => TagTarget::Lightweight(id),
        ObjectKind::TreeObject => TagTarget::NotACommit,
        ObjectKind::BlobObject => TagTarget::NotACommit,
        ObjectKind::AnyObject => TagTarget::NotACommit,
        ObjectKind::Unknown => TagTarget::NotACommit,
    }
}

/// Whether an object of this kind must be followed to find its commit.
pub fn needs_peeling(kind: ObjectKind) -> (needed: bool)
    ensures
        needed == must_peel(kind),
{
    match kind {
        ObjectKind::TagObject => true,
        _ => false,
    }
}

/// What an object of kind `kind` with the identifier `id` leads to, where
/// `peeled` is the commit that following it reached.
pub fn target_of(kind: ObjectKind, id: Oid, peeled: Option<Oid>) -> (target: TagTarget)
    ensures
        target == found_target(kind, id, peeled),
{
    match kind {
        ObjectKind::TagObject => TagTarget::Annotated(peeled),
        ObjectKind::CommitObject => TagTarget::Lightweight(id),
        _ => TagTarget::NotACommit,
    }
}

/// Only a tag that leads to a commit resolves: an object that is neither a
/// tag object nor a commit is unresolvable, and so is a tag object that
/// could not be followed to a commit.
pub proof fn only_commits_resolve(kind: ObjectKind, id: Oid, peeled: Option<Oid>)
    ensures
        resolution_of(found_target(kind, id, peeled)) == match kind {
            ObjectKind::CommitObject => TagResolution::Resolved(id),
            ObjectKind::TagObject => match peeled {
                Some(commit) => TagResolution::Resolved(commit),
                None => TagResolution::Unresolvable,
            },
            _ => TagResolution::Unresolvable,
        },
{
}

} // verus!
