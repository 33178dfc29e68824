//! Sorting commits into changelog categories by the leading word of their
//! title line. The rules are an ordered table of prefixes; the first rule
//! whose prefix starts the title decides.

use vstd::prelude::*;
use crate::models::{borrowed_commit_texts, commit_texts, CommitInfo, CommitText};
use crate::text::{first_line, first_line_of, starts_with};

verus! {

/// The section of a changelog that a commit is listed under.
#[derive(Clone, Copy, Debug, PartialEq, Eq, Structural)]
pub enum Category {
    Feature,
    Fix,
    Other,
}

/// One classification rule: titles that begin with `prefix` belong to `category`.
#[derive(Clone, Debug)]
pub struct Rule {
    pub prefix: String,
    pub category: Category,
}

/// A rule over character sequences.
pub struct RuleText {
    pub prefix: Seq<char>,
    pub category: Category,
}

impl View for Rule {
    type V = RuleText;

    open spec fn view(&self) -> RuleText {
        RuleText { prefix: self.prefix@, category: self.category }
    }
}

/// The views of a rule table, in order.
pub open spec fn rule_texts(rules: Seq<Rule>) -> Seq<RuleText> {
    Seq::new(rules.len(), |i: int| rules[i]@)
}

/// The built-in rule table: feature prefixes first, then fix prefixes.
pub open spec fn standard_rules() -> Seq<RuleText> {
    seq![
        RuleText { prefix: "feat"@, category: Category::Feature },
        RuleText { prefix: "feature"@, category: Category::Feature },
        RuleText { prefix: "Merged PR"@, category: Category::Feature },
        RuleText { prefix: "task"@, category: Category::Feature },
        RuleText { prefix: "fix"@, category: Category::Fix },
        RuleText { prefix: "bug"@, category: Category::Fix },
    ]
}

/// The category that the rules from position `from` on give to `title`:
/// that of the first rule whose prefix starts the title, `Other` when none does.
pub open spec fn category_from(rules: Seq<RuleText>, title: Seq<char>, from: int) -> Category
    decreases rules.len() - from,
{
    if from < 0 || from >= rules.len() {
        Category::Other
    } else if rules[from].prefix.is_prefix_of(title) {
        rules[from].category
    } else {
        category_from(rules, title, from + 1)
    }
}

/// The category of a commit message under `rules`, decided on its first line.
pub open spec fn category_under(rules: Seq<RuleText>, message: Seq<char>) -> Category {
    category_from(rules, first_line_of(message), 0)
}

/// The category of a commit message under the built-in rules.
pub open spec fn category_of(message: Seq<char>) -> Category {
    category_under(standard_rules(), message)
}

/// The test that a commit falls in `category`.
pub open spec fn in_category(category: Category) -> spec_fn(CommitText) -> bool {
    |c: CommitText| category_of(c.message) == category
}

/// The commits of `commits` that fall in `category`, in the order in which
/// they came.
pub open spec fn bucket(commits: Seq<CommitText>, category: Category) -> Seq<CommitText> {
    commits.filter(in_category(category))
}

/// A commit that comes after `commits` goes to the end of its own bucket
/// and leaves the other buckets as they are.
pub proof fn bucket_of_push(commits: Seq<CommitText>, commit: CommitText, category: Category)
    ensures
        bucket(commits.push(commit), category) == if category_of(commit.message) == category {
            bucket(commits, category).push(commit)
        } else {
            bucket(commits, category)
        },
{
    commits.lemma_filter_push(commit, in_category(category));
}

/// The first matching rule wins: when rule `i` matches the title and no
/// earlier rule does, the title gets the category of rule `i`, whatever the
/// later rules say.
pub proof fn first_matching_rule_wins(rules: Seq<RuleText>, title: Seq<char>, i: int)
    requires
        0 <= i < rules.len(),
        rules[i].prefix.is_prefix_of(title),
        forall|j: int| 0 <= j < i ==> !rules[j].prefix.is_prefix_of(title),
    ensures
        category_from(rules, title, 0) == rules[i].category,
{
    matching_rule_reached(rules, title, i, 0);
}

proof fn matching_rule_reached(rules: Seq<RuleText>, title: Seq<char>, i: int, from: int)
    requires
        0 <= from <= i < rules.len(),
        rules[i].prefix.is_prefix_of(title),
        forall|j: int| from <= j < i ==> !rules[j].prefix.is_prefix_of(title),
    ensures
        category_from(rules, title, from) == rules[i].category,
    decreases i - from,
{
    if from < i {
        matching_rule_reached(rules, title, i, from + 1);
    }
}

/// A title that no rule matches belongs to `Other`.
pub proof fn unmatched_title_is_other(rules: Seq<RuleText>, title: Seq<char>)
    requires
        forall|j: int| 0 <= j < rules.len() ==> !rules[j].prefix.is_prefix_of(title),
    ensures
        category_from(rules, title, 0) == Category::Other,
{
    unmatched_from(rules, title, 0);
}

proof fn unmatched_from(rules: Seq<RuleText>, title: Seq<char>, from: int)
    requires
        0 <= from,
        forall|j: int| from <= j < rules.len() ==> !rules[j].prefix.is_prefix_of(title),
    ensures
        category_from(rules, title, from) == Category::Other,
    decreases rules.len() - from,
{
    if from < rules.len() {
        unmatched_from(rules, title, from + 1);
    }
}

/// Under the built-in rules a message is a feature exactly when its title
/// begins with a feature prefix, a fix exactly when it begins with a fix
/// prefix and with no feature prefix, and `Other` otherwise.
pub proof fn standard_categories(message: Seq<char>)
    ensures
        ({
            let title = first_line_of(message);
            let feature = "feat"@.is_prefix_of(title) || "feature"@.is_prefix_of(title)
                || "Merged PR"@.is_prefix_of(title) || "task"@.is_prefix_of(title);
            let fix = "fix"@.is_prefix_of(title) || "bug"@.is_prefix_of(title);
            &&& category_of(message) == Category::Feature <==> feature
            &&& category_of(message) == Category::Fix <==> !feature && fix
            &&& category_of(message) == Category::Other <==> !feature && !fix
        }),
{
    reveal_with_fuel(category_from, 7);
}

/// Every commit is in exactly one bucket: the three buckets together hold
/// as many commits as were classified.
pub proof fn buckets_partition(commits: Seq<CommitText>)
    ensures
        bucket(commits, Category::Feature).len() + bucket(commits, Category::Fix).len() + bucket(
            commits,
            Category::Other,
        ).len() == commits.len(),
    decreases commits.len(),
{
    if commits.len() > 0 {
        let earlier = commits.drop_last();
        buckets_partition(earlier);
        assert(commits == earlier.push(commits.last()));
        bucket_of_push(earlier, commits.last(), Category::Feature);
        bucket_of_push(earlier, commits.last(), Category::Fix);
        bucket_of_push(earlier, commits.last(), Category::Other);
    } else {
        bucket_of_nothing(Category::Feature);
        bucket_of_nothing(Category::Fix);
        bucket_of_nothing(Category::Other);
    }
}

/// No commits, empty bucket.
pub proof fn bucket_of_nothing(category: Category)
    ensures
        bucket(Seq::<CommitText>::empty(), category) == Seq::<CommitText>::empty(),
{
    reveal(Seq::filter);
}

/// The built-in rule table.
pub fn default_rules() -> (rules: Vec<Rule>)
    ensures
        rule_texts(rules@) == standard_rules(),
{
    let mut rules: Vec<Rule> = Vec::new();
    rules.push(Rule { prefix: String::from_str("feat"), category: Category::Feature });
    rules.push(Rule { prefix: String::from_str("feature"), category: Category::Feature });
    rules.push(Rule { prefix: String::from_str("Merged PR"), category: Category::Feature });
    rules.push(Rule { prefix: String::from_str("task"), category: Category::Feature });
    rules.push(Rule { prefix: String::from_str("fix"), category: Category::Fix });
    rules.push(Rule { prefix: String::from_str("bug"), category: Category::Fix });
    rules
}

/// Classifies a commit message under a rule table.
pub fn classify_with(rules: &Vec<Rule>, message: &str) -> (category: Category)
    ensures
        category == category_under(rule_texts(rules@), message@),
{
    let title = first_line(message);
    let mut i: usize = 0;
    while i < rules.len()
        invariant
            i <= rules.len(),
            title@ == first_line_of(message@),
            category_under(rule_texts(rules@), message@) == category_from(
                rule_texts(rules@),
                title@,
                i as int,
            ),
        decreases rules.len() - i,
    {
        if starts_with(title, rules[i].prefix.as_str()) {
            return rules[i].category;
        }
        i = i + 1;
    }
    Category::Other
}

/// Classifies a commit message under the built-in rules.
pub fn classify(message: &str) -> (category: Category)
    ensures
        category == category_of(message@),
{
    let rules = default_rules();
    classify_with(&rules, message)
}

/// The commits of a range, sorted into their categories.
pub struct Buckets<'a> {
    pub features: Vec<&'a CommitInfo>,
    pub fixes: Vec<&'a CommitInfo>,
    pub others: Vec<&'a CommitInfo>,
}

/// Sorts commits into the three categories. Each bucket keeps the order in
/// which its commits came.
pub fn classify_commits<'a>(commits: &'a [CommitInfo]) -> (buckets: Buckets<'a>)
    ensures
        borrowed_commit_texts(buckets.features@) == bucket(
            commit_texts(commits@),
            Category::Feature,
        ),
        borrowed_commit_texts(buckets.fixes@) == bucket(commit_texts(commits@), Category::Fix),
        borrowed_commit_texts(buckets.others@) == bucket(commit_texts(commits@), Category::Other),
{
    let rules = default_rules();
    let mut features: Vec<&CommitInfo> = Vec::new();
    let mut fixes: Vec<&CommitInfo> = Vec::new();
    let mut others: Vec<&CommitInfo> = Vec::new();
    let mut i: usize = 0;
    proof {
        bucket_of_nothing(Category::Feature);
        bucket_of_nothing(Category::Fix);
        bucket_of_nothing(Category::Other);
    }
    while i < commits.len()
        invariant
            i <= commits.len(),
            rule_texts(rules@) == standard_rules(),
            borrowed_commit_texts(features@) == bucket(
                commit_texts(commits@.take(i as int)),
                Category::Feature,
            ),
            borrowed_commit_texts(fixes@) == bucket(
                commit_texts(commits@.take(i as int)),
                Category::Fix,
            ),
            borrowed_commit_texts(others@) == bucket(
                commit_texts(commits@.take(i as int)),
                Category::Other,
            ),
        decreases commits.len() - i,
    {
        let commit = &commits[i];
        let category = classify_with(&rules, commit.message.as_str());
        proof {
            let seen = commit_texts(commits@.take(i as int));
            let next = commit_texts(commits@.take(i + 1));
            assert(next == seen.push(commit@));
            bucket_of_push(seen, commit@, Category::Feature);
            bucket_of_push(seen, commit@, Category::Fix);
            bucket_of_push(seen, commit@, Category::Other);
        }
        match category {
            Category::Feature => {
                features.push(commit);
            },
            Category::Fix => {
                fixes.push(commit);
            },
            Category::Other => {
                others.push(commit);
            },
        }
        i = i + 1;
    }
    assert(commits@.take(commits.len() as int) == commits@);
    Buckets { features, fixes, others }
}

} // verus!
