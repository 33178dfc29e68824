//! The contribution table: one row of texts for each author, in
//! presentation order.

use vstd::prelude::*;
use crate::ledger::{contributions_add_up, sum_contributions, AuthorLedger, Contributor, Tally};
use crate::ranking::{is_presentation_order, presentation_order};
use crate::share::{contribution_percentage, percent_text, share_hundredths};
use crate::text::{decimal, decimal_text};

verus! {

/// One row of the contribution table, cell by cell.
#[derive(Clone, Debug, PartialEq, Eq)]
pub struct ReportRow {
    pub author: String,
    pub commits: String,
    pub lines_added: String,
    pub lines_deleted: String,
    pub contribution: String,
}

/// A row over character sequences.
pub struct RowText {
    pub author: Seq<char>,
    pub commits: Seq<char>,
    pub lines_added: Seq<char>,
    pub lines_deleted: Seq<char>,
    pub contribution: Seq<char>,
}

impl View for ReportRow {
    type V = RowText;

    open spec fn view(&self) -> RowText {
        RowText {
            author: self.author@,
            commits: self.commits@,
            lines_added: self.lines_added@,
            lines_deleted: self.lines_deleted@,
            contribution: self.contribution@,
        }
    }
}

/// The views of a sequence of rows, in order.
pub open spec fn row_texts(rows: Seq<ReportRow>) -> Seq<RowText> {
    Seq::new(rows.len(), |i: int| rows[i]@)
}

/// The row of one author: the name, the three counts as decimal numerals,
/// and the share of the author's lines in `total`.
pub open spec fn row_of(tally: Tally, total: nat) -> RowText {
    RowText {
        author: tally.name,
        commits: decimal(tally.commits),
        lines_added: decimal(tally.lines_added),
        lines_deleted: decimal(tally.lines_deleted),
        contribution: percent_text(
            share_hundredths(tally.lines_added + tally.lines_deleted, total),
        ),
    }
}

/// `rows` is the table of `tallies`: the row of every author, in
/// presentation order, with shares taken of the contributions of all.
pub open spec fn is_report(tallies: Seq<Tally>, rows: Seq<RowText>) -> bool {
    exists|order: Seq<usize>|
        {
            &&& is_presentation_order(tallies, order)
            &&& rows.len() == tallies.len()
            &&& forall|k: int|
                0 <= k < rows.len() ==> #[trigger] rows[k] == row_of(
                    tallies[order[k] as int],
                    sum_contributions(tallies),
                )
        }
}

/// The titles of the table's columns.
pub fn report_header() -> (titles: Vec<&'static str>)
    ensures
        titles@.len() == 5,
        titles@[0]@ == "Author"@,
        titles@[1]@ == "Commits"@,
        titles@[2]@ == "Lines Added"@,
        titles@[3]@ == "Lines Deleted"@,
        titles@[4]@ == "Contribution %"@,
{
    let mut titles: Vec<&'static str> = Vec::new();
    titles.push("Author");
    titles.push("Commits");
    titles.push("Lines Added");
    titles.push("Lines Deleted");
    titles.push("Contribution %");
    titles
}

/// The row of one entry, with the share taken of `total`.
pub fn report_row(entry: &Contributor, total: usize) -> (row: ReportRow)
    ensures
        row@ == row_of(entry@, total as nat),
{
    ReportRow {
        author: entry.name.clone(),
        commits: decimal_text(entry.stats.commits as u128),
        lines_added: decimal_text(entry.stats.lines_added as u128),
        lines_deleted: decimal_text(entry.stats.lines_deleted as u128),
        contribution: contribution_percentage(&entry.stats, total),
    }
}

/// The contribution table of a ledger.
pub fn report_rows(ledger: &AuthorLedger) -> (rows: Vec<ReportRow>)
    requires
        ledger.wf(),
    ensures
        is_report(ledger@, row_texts(rows@)),
{
    let order = presentation_order(ledger);
    let total: usize = ledger.total_contributions();
    proof {
        contributions_add_up(ledger.history());
    }
    let mut rows: Vec<ReportRow> = Vec::new();
    let mut k: usize = 0;
    while k < order.len()
        invariant
            k <= order.len(),
            ledger.wf(),
            is_presentation_order(ledger@, order@),
            total == sum_contributions(ledger@),
            rows@.len() == k,
            forall|j: int|
                0 <= j < k ==> #[trigger] rows@[j]@ == row_of(
                    ledger@[order@[j] as int],
                    total as nat,
                ),
        decreases order.len() - k,
    {
        let entry = ledger.get(order[k]);
        let row = report_row(entry, total);
        rows.push(row);
        k = k + 1;
    }
    proof {
        // The order just computed is the one that the table is laid out by.
        let texts = row_texts(rows@);
        assert forall|j: int| 0 <= j < texts.len() implies #[trigger] texts[j] == row_of(
            ledger@[order@[j] as int],
            sum_contributions(ledger@),
        ) by {}
    }
    rows
}

} // verus!
