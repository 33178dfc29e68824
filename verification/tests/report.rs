use gitstat::ledger::{aggregate, Attribution, AuthorLedger, Contributor};
use gitstat::models::{AuthorStats, DiffStat};
use gitstat::ranking::presentation_order;
use gitstat::report::{report_header, report_row, report_rows, ReportRow};
use gitstat::share::{
    contribution_percentage, contribution_share, percentage, push_percent, share_of, WHOLE,
};

fn by(author: &str, insertions: usize, deletions: usize) -> Attribution {
    Attribution {
        author: author.to_string(),
        stat: DiffStat { files_changed: 1, insertions, deletions },
    }
}

fn ledger_of(commits: &[(&str, usize, usize)]) -> AuthorLedger {
    let all: Vec<Attribution> = commits.iter().map(|(a, i, d)| by(a, *i, *d)).collect();
    aggregate(&all).unwrap()
}

#[test]
fn most_commits_first() {
    let ledger = ledger_of(&[
        ("one", 1, 0),
        ("three", 1, 0),
        ("two", 1, 0),
        ("three", 1, 0),
        ("two", 1, 0),
        ("three", 1, 0),
    ]);
    assert_eq!(presentation_order(&ledger), vec![1, 2, 0]);
}

#[test]
fn ties_keep_the_order_of_first_appearance() {
    let ledger = ledger_of(&[
        ("a", 1, 0),
        ("b", 1, 0),
        ("c", 1, 0),
        ("d", 1, 0),
        ("c", 1, 0),
        ("a", 1, 0),
        ("e", 1, 0),
    ]);
    // a and c have two commits, b, d and e one.
    assert_eq!(presentation_order(&ledger), vec![0, 2, 1, 3, 4]);
}

#[test]
fn order_of_an_empty_and_of_a_single_ledger() {
    assert_eq!(presentation_order(&AuthorLedger::new()), Vec::<usize>::new());
    assert_eq!(presentation_order(&ledger_of(&[("a", 0, 0)])), vec![0]);
}

#[test]
fn order_agrees_with_a_stable_sort() {
    let names = ["p", "q", "r", "s", "t", "u", "v"];
    let mut commits: Vec<(&str, usize, usize)> = Vec::new();
    let mut seed: usize = 12345;
    for _ in 0..60 {
        seed = (seed * 1103515245 + 12345) % 2147483648;
        commits.push((names[(seed >> 16) % names.len()], 1, 0));
    }
    let ledger = ledger_of(&commits);
    let mut expected: Vec<usize> = (0..ledger.len()).collect();
    expected.sort_by(|a, b| ledger.get(*b).stats.commits.cmp(&ledger.get(*a).stats.commits));
    assert_eq!(presentation_order(&ledger), expected);
}

#[test]
fn shares_in_hundredths_of_a_percent() {
    assert_eq!(WHOLE, 10000);
    assert_eq!(share_of(0, 10), 0);
    assert_eq!(share_of(10, 10), 10000);
    assert_eq!(share_of(1, 2), 5000);
    assert_eq!(share_of(1, 3), 3333);
    assert_eq!(share_of(2, 3), 6667);
    assert_eq!(share_of(1, 7), 1429);
    assert_eq!(share_of(1, 1_000_000), 0);
    assert_eq!(share_of(usize::MAX, usize::MAX), 10000);
    assert_eq!(share_of(usize::MAX, 1), usize::MAX as u128 * 10000);
}

#[test]
fn a_share_half_way_goes_to_the_even_hundredth() {
    // 1/32 is 3.125 %, 3/32 is 9.375 %.
    assert_eq!(share_of(1, 32), 312);
    assert_eq!(share_of(3, 32), 938);
    assert_eq!(share_of(1, 20000), 0);
    assert_eq!(share_of(3, 20000), 2);
    assert_eq!(percentage(1, 32), "3.12%");
    assert_eq!(percentage(3, 32), "9.38%");
}

#[test]
fn the_share_in_nothing_is_zero() {
    assert_eq!(share_of(0, 0), 0);
    assert_eq!(share_of(5, 0), 0);
    assert_eq!(percentage(0, 0), "0.00%");
    assert_eq!(percentage(5, 0), "0.00%");
}

#[test]
fn percentages_have_two_decimal_places() {
    assert_eq!(percentage(1, 1), "100.00%");
    assert_eq!(percentage(1, 2), "50.00%");
    assert_eq!(percentage(1, 3), "33.33%");
    assert_eq!(percentage(2, 3), "66.67%");
    assert_eq!(percentage(1, 100), "1.00%");
    assert_eq!(percentage(1, 1000), "0.10%");
    assert_eq!(percentage(7, 10000), "0.07%");
    assert_eq!(percentage(3, 2), "150.00%");
    let mut out = String::from("share ");
    push_percent(&mut out, 1205);
    assert_eq!(out, "share 12.05%");
}

#[test]
fn percentages_agree_with_floating_point_away_from_ties() {
    for total in [3usize, 7, 11, 13, 97, 101, 997, 65537] {
        for part in 0..=total.min(120) {
            let expected = format!("{:.2}%", part as f64 / total as f64 * 100.0);
            assert_eq!(percentage(part, total), expected);
        }
    }
}

#[test]
fn the_share_of_an_author_counts_added_and_deleted_lines() {
    let stats = AuthorStats { commits: 1, lines_added: 3, lines_deleted: 1 };
    assert_eq!(contribution_share(&stats, 16), 2500);
    assert_eq!(contribution_percentage(&stats, 16), "25.00%");
    let wide = AuthorStats { commits: 1, lines_added: usize::MAX, lines_deleted: usize::MAX };
    assert_eq!(contribution_share(&wide, usize::MAX), 20000);
}

#[test]
fn shares_add_up_to_a_whole_within_rounding() {
    let ledger = ledger_of(&[("a", 1, 0), ("b", 1, 0), ("c", 0, 1), ("a", 2, 2), ("d", 5, 1)]);
    let total = ledger.total_contributions();
    assert_eq!(total, 13);
    let mut sum: i128 = 0;
    for i in 0..ledger.len() {
        sum += contribution_share(&ledger.get(i).stats, total) as i128;
    }
    assert!(2 * (sum - 10000).abs() <= ledger.len() as i128);
    assert_eq!(sum, 3846 + 769 + 769 + 4615);
}

#[test]
fn header_titles() {
    assert_eq!(
        report_header(),
        vec!["Author", "Commits", "Lines Added", "Lines Deleted", "Contribution %"]
    );
}

#[test]
fn one_row() {
    let entry = Contributor {
        name: "Ada".to_string(),
        stats: AuthorStats { commits: 12, lines_added: 340, lines_deleted: 60 },
    };
    assert_eq!(
        report_row(&entry, 1600),
        ReportRow {
            author: "Ada".to_string(),
            commits: "12".to_string(),
            lines_added: "340".to_string(),
            lines_deleted: "60".to_string(),
            contribution: "25.00%".to_string(),
        }
    );
}

#[test]
fn the_table_of_a_ledger() {
    let ledger = ledger_of(&[("Ada", 10, 0), ("Bob", 2, 1), ("Bob", 0, 3), ("Cy", 4, 0)]);
    let rows = report_rows(&ledger);
    let cells: Vec<Vec<&str>> = rows
        .iter()
        .map(|r| {
            vec![
                r.author.as_str(),
                r.commits.as_str(),
                r.lines_added.as_str(),
                r.lines_deleted.as_str(),
                r.contribution.as_str(),
            ]
        })
        .collect();
    assert_eq!(
        cells,
        vec![
            vec!["Bob", "2", "2", "4", "30.00%"],
            vec!["Ada", "1", "10", "0", "50.00%"],
            vec!["Cy", "1", "4", "0", "20.00%"],
        ]
    );
}

#[test]
fn a_table_without_contributions_reads_zero_percent() {
    let ledger = ledger_of(&[("Ada", 0, 0), ("Bob", 0, 0), ("Ada", 0, 0)]);
    let rows = report_rows(&ledger);
    assert_eq!(rows.len(), 2);
    assert_eq!(rows[0].author, "Ada");
    assert_eq!(rows[0].commits, "2");
    for row in &rows {
        assert_eq!(row.contribution, "0.00%");
    }
    assert!(report_rows(&AuthorLedger::new()).is_empty());
}
