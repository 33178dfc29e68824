use git2::{Oid, Repository, Signature, Time};
use gitstat::analyzer::{analyze_repo, author_of, tally, AnalyzeError};
use gitstat::changelog::{
    changelog_between, commit_info, generate_changelog, load_commits, range_stats, resolve_range,
    ChangelogError,
};
use gitstat::diffstat::{commit_diff_stats, diff_stats, measure};
use gitstat::models::{AuthorStats, CommitInfo, DiffStat};
use gitstat::repo::{get_commit_from_tag, inspect_tag, resolve_tag, tag_exists, TagResolution, TagTarget};
use gitstat::walker::{walk, GraphTraversalFailure, WalkStart};

fn fresh(name: &str) -> Repository {
    let path = format!("/tmp/gitstat_fixture_{}", name);
    Repository::init_bare(&path).unwrap()
}

fn lines(n: usize, tag: &str) -> String {
    let mut text = String::new();
    for i in 0..n {
        text.push_str(&format!("{} {}\n", tag, i));
    }
    text
}

fn commit_file(
    repo: &Repository,
    author: &str,
    when: i64,
    message: &str,
    content: &str,
    parents: &[Oid],
) -> Oid {
    let blob = repo.blob(content.as_bytes()).unwrap();
    let mut builder = repo.treebuilder(None).unwrap();
    builder.insert("notes.txt", blob, 0o100644).unwrap();
    let tree_id = builder.write().unwrap();
    let tree = repo.find_tree(tree_id).unwrap();
    let who = Signature::new(author, "someone@example.com", &Time::new(when, 0)).unwrap();
    let parent_commits: Vec<git2::Commit> =
        parents.iter().map(|id| repo.find_commit(*id).unwrap()).collect();
    let parent_refs: Vec<&git2::Commit> = parent_commits.iter().collect();
    repo.commit(None, &who, &who, message, &tree, &parent_refs).unwrap()
}

fn set_head(repo: &Repository, tip: Oid) {
    repo.reference("refs/heads/trunk", tip, true, "fixture").unwrap();
    repo.set_head("refs/heads/trunk").unwrap();
}

fn light_tag(repo: &Repository, name: &str, target: Oid) {
    repo.reference(&format!("refs/tags/{}", name), target, true, "fixture").unwrap();
}

#[test]
fn root_commit_counts_all_lines_as_added() {
    let repo = fresh("root_commit");
    let root = commit_file(&repo, "Ada", 1_000, "feat: init", &lines(10, "a"), &[]);
    set_head(&repo, root);
    let ledger = analyze_repo(&repo).unwrap();
    assert_eq!(ledger.len(), 1);
    assert_eq!(ledger.get(0).name, "Ada");
    assert_eq!(
        ledger.get(0).stats,
        AuthorStats { commits: 1, lines_added: 10, lines_deleted: 0 }
    );
    assert_eq!(ledger.total_commits(), 1);
    assert_eq!(ledger.total_contributions(), 10);
}

#[test]
fn history_is_attributed_per_author() {
    let repo = fresh("per_author");
    let a = commit_file(&repo, "Ada", 1_000, "one", &lines(4, "a"), &[]);
    let b = commit_file(&repo, "Bob", 2_000, "two", &lines(6, "a"), &[a]);
    let c = commit_file(&repo, "Ada", 3_000, "three", &lines(5, "a"), &[b]);
    set_head(&repo, c);
    let ledger = analyze_repo(&repo).unwrap();
    assert_eq!(ledger.total_commits(), 3);
    assert_eq!(
        ledger.stats_of("Ada"),
        Some(AuthorStats { commits: 2, lines_added: 4, lines_deleted: 1 })
    );
    assert_eq!(
        ledger.stats_of("Bob"),
        Some(AuthorStats { commits: 1, lines_added: 2, lines_deleted: 0 })
    );
    assert_eq!(ledger.stats_of("Eve"), None);
    assert_eq!(ledger.total_contributions(), 7);
    // The newest commit is walked first, so Ada is the first author seen.
    assert_eq!(ledger.get(0).name, "Ada");
    assert_eq!(ledger.get(1).name, "Bob");
}

#[test]
fn repository_without_head_commit_fails_the_walk() {
    let repo = fresh("no_head");
    assert_eq!(analyze_repo(&repo).err(), Some(AnalyzeError::GraphTraversalFailure));
}

#[test]
fn tag_range_scenario() {
    let repo = fresh("scenario");
    let first = commit_file(&repo, "Ada", 1_000, "feat: init", &lines(10, "a"), &[]);
    let mut second_text = lines(9, "a");
    second_text.push_str("b 0\nb 1\n");
    let second = commit_file(&repo, "Bob", 2_000, "fix: bug", &second_text, &[first]);
    light_tag(&repo, "v1", first);
    light_tag(&repo, "v2", second);
    let text = generate_changelog(&repo, "v1", "v2").unwrap();
    let short: String = second.to_string().chars().take(7).collect();
    let expected = format!(
        "# Changelog from v1 to v2\n\n## Statistics\n\n- Files changed: 1\n- Lines added: 2\n- Lines deleted: 1\n- Total commits: 1\n\n## Bug Fixes\n\n- fix: bug ({})\n  _by Bob on 2000_\n\n",
        short
    );
    assert_eq!(text, expected);
    let first_short: String = first.to_string().chars().take(7).collect();
    assert!(!text.contains(&first_short));
    assert!(!text.contains("feat: init"));
}

#[test]
fn empty_range_has_statistics_only() {
    let repo = fresh("empty_range");
    let only = commit_file(&repo, "Ada", 1_000, "feat: init", &lines(3, "a"), &[]);
    light_tag(&repo, "v1", only);
    light_tag(&repo, "same", only);
    let text = generate_changelog(&repo, "v1", "same").unwrap();
    assert_eq!(
        text,
        "# Changelog from v1 to same\n\n## Statistics\n\n- Files changed: 0\n- Lines added: 0\n- Lines deleted: 0\n- Total commits: 0\n\n"
    );
}

#[test]
fn range_walk_leaves_out_the_boundary_and_its_ancestors() {
    // root - left - merge
    //     \\ right /
    // The boundary `left` is reachable from `merge` directly, and its
    // ancestor `root` also through `right`.
    let repo = fresh("diamond");
    let root = commit_file(&repo, "Ada", 1_000, "root", &lines(1, "a"), &[]);
    let left = commit_file(&repo, "Ada", 2_000, "left", &lines(2, "a"), &[root]);
    let right = commit_file(&repo, "Bob", 3_000, "right", &lines(3, "a"), &[root]);
    let merge = commit_file(&repo, "Bob", 4_000, "merge", &lines(4, "a"), &[left, right]);
    let ids = walk(&repo, WalkStart::At(merge), Some(left)).unwrap();
    assert!(!ids.contains(&left));
    assert!(!ids.contains(&root));
    assert_eq!(ids, vec![merge, right]);
    let all = walk(&repo, WalkStart::At(merge), None).unwrap();
    assert_eq!(all.len(), 4);
    assert_eq!(all[0], merge);
    set_head(&repo, merge);
    assert_eq!(walk(&repo, WalkStart::Head, None).unwrap(), all);
    assert_eq!(walk(&repo, WalkStart::Head, Some(left)).unwrap(), ids);
}

#[test]
fn merge_history_counts_each_commit_once() {
    let repo = fresh("merge_count");
    let root = commit_file(&repo, "Ada", 1_000, "root", &lines(1, "a"), &[]);
    let left = commit_file(&repo, "Ada", 2_000, "left", &lines(2, "a"), &[root]);
    let right = commit_file(&repo, "Bob", 3_000, "right", &lines(3, "a"), &[root]);
    let merge = commit_file(&repo, "Bob", 4_000, "merge", &lines(4, "a"), &[left, right]);
    set_head(&repo, merge);
    let ledger = analyze_repo(&repo).unwrap();
    assert_eq!(ledger.total_commits(), 4);
    assert_eq!(ledger.stats_of("Ada").unwrap().commits, 2);
    assert_eq!(ledger.stats_of("Bob").unwrap().commits, 2);
    // The merge is measured against its first parent `left` only: 2 -> 4 lines.
    assert_eq!(ledger.stats_of("Bob").unwrap().lines_added, 2 + 2);
}

#[test]
fn tags_resolve_to_their_commits() {
    let repo = fresh("tags");
    let first = commit_file(&repo, "Ada", 1_000, "feat: init", &lines(2, "a"), &[]);
    light_tag(&repo, "light", first);
    let who = Signature::new("Ada", "someone@example.com", &Time::new(1_000, 0)).unwrap();
    let object = repo.find_object(first, None).unwrap();
    repo.tag("annotated", &object, &who, "release", true).unwrap();

    assert!(tag_exists(&repo, "light"));
    assert!(tag_exists(&repo, "annotated"));
    assert!(!tag_exists(&repo, "ghost"));
    assert_eq!(get_commit_from_tag(&repo, "light"), Some(first));
    assert_eq!(get_commit_from_tag(&repo, "annotated"), Some(first));
    assert_eq!(get_commit_from_tag(&repo, "ghost"), None);
    assert_eq!(inspect_tag(&repo, "light"), TagTarget::Lightweight(first));
    assert_eq!(inspect_tag(&repo, "annotated"), TagTarget::Annotated(Some(first)));
    assert_eq!(inspect_tag(&repo, "ghost"), TagTarget::Absent);
    assert_eq!(resolve_tag(&repo, "annotated"), TagResolution::Resolved(first));
}

#[test]
fn tag_on_a_tree_is_unresolvable_and_a_missing_tag_is_not_found() {
    let repo = fresh("broken");
    let first = commit_file(&repo, "Ada", 1_000, "feat: init", &lines(2, "a"), &[]);
    light_tag(&repo, "v1", first);
    let tree_id = repo.find_commit(first).unwrap().tree_id();
    light_tag(&repo, "broken", tree_id);

    assert!(tag_exists(&repo, "broken"));
    assert_eq!(get_commit_from_tag(&repo, "broken"), None);
    assert_eq!(resolve_tag(&repo, "broken"), TagResolution::Unresolvable);
    assert_eq!(resolve_tag(&repo, "ghost"), TagResolution::NotFound);

    let unresolvable = generate_changelog(&repo, "v1", "broken").unwrap_err();
    assert_eq!(unresolvable, ChangelogError::TagUnresolvable("broken".to_string()));
    let missing = generate_changelog(&repo, "ghost", "v1").unwrap_err();
    assert_eq!(missing, ChangelogError::TagNotFound("ghost".to_string()));
    assert_eq!(unresolvable.describe(), "Cannot resolve tag 'broken' to a commit");
    assert_eq!(missing.describe(), "Tag 'ghost' does not exist!");
    assert_ne!(unresolvable.describe(), missing.describe());
    // A missing tag is reported before an unresolvable one.
    assert_eq!(
        generate_changelog(&repo, "broken", "ghost").unwrap_err(),
        ChangelogError::TagNotFound("ghost".to_string())
    );
}

#[test]
fn annotated_tag_on_a_tree_is_unresolvable() {
    let repo = fresh("broken_annotated");
    let first = commit_file(&repo, "Ada", 1_000, "feat: init", &lines(2, "a"), &[]);
    let tree_id = repo.find_commit(first).unwrap().tree_id();
    let who = Signature::new("Ada", "someone@example.com", &Time::new(1_000, 0)).unwrap();
    let tree_object = repo.find_object(tree_id, None).unwrap();
    repo.tag("wrapped", &tree_object, &who, "a tree", true).unwrap();
    assert_eq!(inspect_tag(&repo, "wrapped"), TagTarget::Annotated(None));
    assert_eq!(resolve_tag(&repo, "wrapped"), TagResolution::Unresolvable);
}

#[test]
fn changelog_lists_commits_newest_first_with_offset_dates() {
    let repo = fresh("ordering");
    let base = commit_file(&repo, "Ada", 1_000, "chore: base", &lines(1, "a"), &[]);
    let who = Signature::new("Cy", "someone@example.com", &Time::new(5_000, -90)).unwrap();
    let blob = repo.blob(lines(2, "a").as_bytes()).unwrap();
    let mut builder = repo.treebuilder(None).unwrap();
    builder.insert("notes.txt", blob, 0o100644).unwrap();
    let tree = repo.find_tree(builder.write().unwrap()).unwrap();
    let parent = repo.find_commit(base).unwrap();
    let one = repo.commit(None, &who, &who, "fix: first\n\ndetails", &tree, &[&parent]).unwrap();
    let two = commit_file(&repo, "Bob", 6_000, "fix: second", &lines(3, "a"), &[one]);
    light_tag(&repo, "old", base);
    light_tag(&repo, "new", two);
    let text = generate_changelog(&repo, "old", "new").unwrap();
    let short = |id: Oid| -> String { id.to_string().chars().take(7).collect() };
    let expected = format!(
        "# Changelog from old to new\n\n## Statistics\n\n- Files changed: 1\n- Lines added: 2\n- Lines deleted: 0\n- Total commits: 2\n\n## Bug Fixes\n\n- fix: second ({})\n  _by Bob on 6000_\n- fix: first ({})\n  _by Cy on -400_\n\n",
        short(two),
        short(one)
    );
    assert_eq!(text, expected);
}

fn absent_id() -> Oid {
    Oid::from_str("00000000000000000000000000000000deadbeef").unwrap()
}

#[test]
fn commits_that_are_not_there_fail_the_traversal() {
    let repo = fresh("absent");
    let only = commit_file(&repo, "Ada", 1_000, "feat: init", &lines(3, "a"), &[]);
    assert_eq!(walk(&repo, WalkStart::At(absent_id()), None), Err(GraphTraversalFailure));
    assert_eq!(walk(&repo, WalkStart::At(only), Some(absent_id())), Err(GraphTraversalFailure));
    assert_eq!(
        changelog_between(&repo, "a", "b", only, absent_id()),
        Err(GraphTraversalFailure)
    );
    assert_eq!(load_commits(&repo, &vec![only, absent_id()]), Err(GraphTraversalFailure));
    assert_eq!(range_stats(&repo, only, absent_id()), Err(GraphTraversalFailure));
    assert_eq!(range_stats(&repo, absent_id(), only), Err(GraphTraversalFailure));
    assert_eq!(
        tally(&repo, &vec![only, absent_id()]).err(),
        Some(AnalyzeError::GraphTraversalFailure)
    );
}

#[test]
fn a_commit_as_the_changelog_shows_it() {
    let repo = fresh("commit_info");
    let who = Signature::new("Grace", "someone@example.com", &Time::new(86_400, 120)).unwrap();
    let blob = repo.blob(b"x\n").unwrap();
    let mut builder = repo.treebuilder(None).unwrap();
    builder.insert("notes.txt", blob, 0o100644).unwrap();
    let tree = repo.find_tree(builder.write().unwrap()).unwrap();
    let id = repo.commit(None, &who, &who, "task: write notes\n\nAll of them.\n", &tree, &[]).unwrap();
    let commit = repo.find_commit(id).unwrap();
    assert_eq!(
        commit_info(&id, &commit),
        CommitInfo {
            hash: id.to_string(),
            author: "Grace".to_string(),
            date: "93600".to_string(),
            message: "task: write notes\n\nAll of them.\n".to_string(),
        }
    );
    assert_eq!(id.to_string().len(), 40);
    assert_eq!(author_of(&commit), "Grace");
    assert_eq!(load_commits(&repo, &vec![id, id]).unwrap().len(), 2);
    assert_eq!(load_commits(&repo, &Vec::new()).unwrap(), Vec::new());
}

#[test]
fn statistics_between_trees_and_of_commits() {
    let repo = fresh("trees");
    let first = commit_file(&repo, "Ada", 1_000, "one", &lines(5, "a"), &[]);
    let mut changed = lines(3, "a");
    changed.push_str("z\n");
    let second = commit_file(&repo, "Ada", 2_000, "two", &changed, &[first]);
    let old_tree = repo.find_commit(first).unwrap().tree().unwrap();
    let new_tree = repo.find_commit(second).unwrap().tree().unwrap();
    let forward = DiffStat { files_changed: 1, insertions: 1, deletions: 2 };
    assert_eq!(measure(&repo, Some(&old_tree), &new_tree), Some(forward));
    assert_eq!(diff_stats(&repo, Some(&old_tree), &new_tree), forward);
    assert_eq!(
        diff_stats(&repo, Some(&new_tree), &old_tree),
        DiffStat { files_changed: 1, insertions: 2, deletions: 1 }
    );
    // Against the empty tree everything counts as inserted.
    assert_eq!(
        diff_stats(&repo, None, &new_tree),
        DiffStat { files_changed: 1, insertions: 4, deletions: 0 }
    );
    assert_eq!(diff_stats(&repo, Some(&old_tree), &old_tree), DiffStat::zero());
    assert_eq!(commit_diff_stats(&repo, &repo.find_commit(second).unwrap()), forward);
    assert_eq!(
        commit_diff_stats(&repo, &repo.find_commit(first).unwrap()),
        DiffStat { files_changed: 1, insertions: 5, deletions: 0 }
    );
    assert_eq!(range_stats(&repo, first, second), Ok(forward));
}

#[test]
fn a_range_is_resolved_before_it_is_rendered() {
    let repo = fresh("resolve_range");
    let first = commit_file(&repo, "Ada", 1_000, "feat: init", &lines(2, "a"), &[]);
    let second = commit_file(&repo, "Bob", 2_000, "docs: more", &lines(3, "a"), &[first]);
    light_tag(&repo, "v1", first);
    light_tag(&repo, "v2", second);
    assert_eq!(resolve_range(&repo, "v1", "v2"), Ok((first, second)));
    assert_eq!(
        resolve_range(&repo, "v1", "v3"),
        Err(ChangelogError::TagNotFound("v3".to_string()))
    );
    let text = changelog_between(&repo, "v1", "v2", first, second).unwrap();
    assert_eq!(text, generate_changelog(&repo, "v1", "v2").unwrap());
    assert!(text.contains("## Other Changes\n\n- docs: more ("));
    assert!(text.ends_with("_by Bob on 2000_\n"));
    // Walking the other way round there is nothing to list.
    let back = generate_changelog(&repo, "v2", "v1").unwrap();
    assert!(back.contains("- Total commits: 0\n"));
    assert!(back.contains("- Lines deleted: 1\n"));
    assert!(!back.contains("## Other Changes"));
}

#[test]
fn counting_given_commits() {
    let repo = fresh("tally");
    let a = commit_file(&repo, "Ada", 1_000, "one", &lines(4, "a"), &[]);
    let b = commit_file(&repo, "Bob", 2_000, "two", &lines(6, "a"), &[a]);
    let ledger = tally(&repo, &vec![a, b, a]).unwrap();
    assert_eq!(ledger.total_commits(), 3);
    assert_eq!(
        ledger.stats_of("Ada"),
        Some(AuthorStats { commits: 2, lines_added: 8, lines_deleted: 0 })
    );
    assert_eq!(ledger.total_contributions(), 10);
    assert_eq!(tally(&repo, &Vec::new()).unwrap().len(), 0);
}
