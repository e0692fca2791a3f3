//! What the run store's answers become: history items, overview counts, the overview
//! and the health probe. The queries themselves run outside the library.

use vstd::prelude::*;
use crate::models::{HistoryItem, OverviewCounts, OverviewPayload};

verus! {

/// A row of the run history as the store returns it.
#[derive(Debug, Clone, Default, PartialEq, Eq)]
pub struct HistoryRow {
    pub id: String,
    pub repo: String,
    pub branch: String,
    pub target_version: String,
    pub target_tag: String,
    pub decision: String,
    pub score: i64,
    pub summary: String,
    pub created_at: String,
    pub updated_at: String,
}

/// The history item for a stored row: its status is its decision, and its score is the
/// stored integer cast to `u32`.
pub open spec fn history_item(row: HistoryRow) -> HistoryItem {
    HistoryItem {
        id: row.id,
        repo: row.repo,
        branch: row.branch,
        target_version: row.target_version,
        target_tag: row.target_tag,
        status: row.decision,
        decision: row.decision,
        score: row.score as u32,
        summary: row.summary,
        created_at: row.created_at,
        updated_at: row.updated_at,
    }
}

/// The history items for the rows read so far.
pub open spec fn history_items(rows: Seq<Option<HistoryRow>>) -> Seq<HistoryItem>
    decreases rows.len(),
{
    if rows.len() == 0 {
        Seq::empty()
    } else {
        match rows.last() {
            Some(row) => history_items(rows.drop_last()).push(history_item(row)),
            None => history_items(rows.drop_last()),
        }
    }
}

/// The history item for a stored row.
fn history_item_of(row: &HistoryRow) -> (r: HistoryItem)
    ensures
        r == history_item(*row),
{
    HistoryItem {
        id: row.id.clone(),
        repo: row.repo.clone(),
        branch: row.branch.clone(),
        target_version: row.target_version.clone(),
        target_tag: row.target_tag.clone(),
        status: row.decision.clone(),
        decision: row.decision.clone(),
        score: row.score as u32,
        summary: row.summary.clone(),
        created_at: row.created_at.clone(),
        updated_at: row.updated_at.clone(),
    }
}

/// The run history from the store's answer: nothing when the query failed, and the
/// rows that could be read, in order, otherwise.
pub fn history(rows: &Option<Vec<Option<HistoryRow>>>) -> (r: Vec<HistoryItem>)
    ensures
        r@ == match *rows {
            Some(v) => history_items(v@),
            None => Seq::empty(),
        },
{
    let mut out: Vec<HistoryItem> = Vec::new();
    match rows {
        None => {
            return out;
        },
        Some(v) => {
            let mut i: usize = 0;
            while i < v.len()
                invariant
                    i <= v@.len(),
                    out@ == history_items(v@.take(i as int)),
                decreases v@.len() - i,
            {
                assert(v@.take(i + 1).drop_last() =~= v@.take(i as int));
                match &v[i] {
                    Some(row) => {
                        out.push(history_item_of(row));
                    },
                    None => {},
                }
                i = i + 1;
            }
            assert(v@.take(v@.len() as int) =~= v@);
            out
        },
    }
}

/// The overview counts from the store's answer (runs, distinct repositories, and runs
/// decided ready, watch and hold): all zero when the query failed, and each stored
/// integer cast to `u32` otherwise.
pub fn overview_counts(row: Option<(i64, i64, i64, i64, i64)>) -> (r: OverviewCounts)
    ensures
        match row {
            None => r == OverviewCounts { runs: 0, repos: 0, ready: 0, watch: 0, hold: 0 },
            Some((a, b, c, d, e)) => r == OverviewCounts {
                runs: a as u32,
                repos: b as u32,
                ready: c as u32,
                watch: d as u32,
                hold: e as u32,
            },
        },
{
    match row {
        None => OverviewCounts { runs: 0, repos: 0, ready: 0, watch: 0, hold: 0 },
        Some((a, b, c, d, e)) => OverviewCounts {
            runs: a as u32,
            repos: b as u32,
            ready: c as u32,
            watch: d as u32,
            hold: e as u32,
        },
    }
}

/// The product overview for the given totals and recent runs.
pub fn overview(counts: OverviewCounts, recent_runs: Vec<HistoryItem>) -> (r: OverviewPayload)
    ensures
        r.product@ == "ReleaseSentry by PatchHive"@,
        r.tagline@ == "Check release readiness with CI, tags, changelog, blocker, and release evidence."@,
        r.counts == counts,
        r.recent_runs@ == recent_runs@,
{
    OverviewPayload {
        product: String::from_str("ReleaseSentry by PatchHive"),
        tagline: String::from_str(
            "Check release readiness with CI, tags, changelog, blocker, and release evidence.",
        ),
        counts,
        recent_runs,
    }
}

/// Whether the store answered the probe query.
pub fn health_check(probe: Option<i64>) -> (r: bool)
    ensures
        r == probe is Some,
{
    probe.is_some()
}

} // verus!
