//! The records that a release-readiness run reads and produces.

use vstd::prelude::*;

verus! {

/// What a caller asks to be checked.
#[derive(Debug, Clone, PartialEq, Eq)]
pub struct ReleaseCheckRequest {
    pub repo: String,
    pub branch: String,
    pub target_version: String,
    pub target_tag: String,
    pub changelog_path: String,
    pub workflow_run_limit: u32,
    pub blocker_labels: Vec<String>,
}

/// Counters gathered over the checks and the GitHub evidence.
#[derive(Debug, Clone, Copy, Default, PartialEq, Eq)]
pub struct ReleaseReadinessMetrics {
    pub checks: u32,
    pub passed: u32,
    pub warned: u32,
    pub blocked: u32,
    pub workflow_runs: u32,
    pub workflow_successes: u32,
    pub workflow_failures: u32,
    pub workflow_pending: u32,
    pub release_blockers: u32,
    pub tags_seen: u32,
    pub releases_seen: u32,
}

/// A labelled link to a piece of evidence.
#[derive(Debug, Clone, Default, PartialEq, Eq)]
pub struct ReleaseEvidenceLink {
    pub label: String,
    pub url: String,
}

/// One readiness check: its key, a status (`pass`, `warn` or `block`) and its evidence.
#[derive(Debug, Clone, Default, PartialEq, Eq)]
pub struct ReleaseCheck {
    pub key: String,
    pub label: String,
    pub status: String,
    pub detail: String,
    pub evidence: Vec<String>,
    pub links: Vec<ReleaseEvidenceLink>,
}

/// The outcome of one release-readiness run.
#[derive(Debug, Clone, Default, PartialEq, Eq)]
pub struct ReleaseReadinessResult {
    pub id: String,
    pub created_at: String,
    pub updated_at: String,
    pub repo: String,
    pub branch: String,
    pub target_version: String,
    pub target_tag: String,
    pub status: String,
    pub decision: String,
    pub score: u32,
    pub title: String,
    pub summary: String,
    pub metrics: ReleaseReadinessMetrics,
    pub checks: Vec<ReleaseCheck>,
    pub warnings: Vec<String>,
}

/// A stored run, as the history lists it.
#[derive(Debug, Clone, Default, PartialEq, Eq)]
pub struct HistoryItem {
    pub id: String,
    pub repo: String,
    pub branch: String,
    pub target_version: String,
    pub target_tag: String,
    pub status: String,
    pub decision: String,
    pub score: u32,
    pub summary: String,
    pub created_at: String,
    pub updated_at: String,
}

/// Totals over the stored runs.
#[derive(Debug, Clone, Copy, Default, PartialEq, Eq)]
pub struct OverviewCounts {
    pub runs: u32,
    pub repos: u32,
    pub ready: u32,
    pub watch: u32,
    pub hold: u32,
}

/// The product overview: name, tagline, totals and recent runs.
#[derive(Debug, Clone, Default, PartialEq, Eq)]
pub struct OverviewPayload {
    pub product: String,
    pub tagline: String,
    pub counts: OverviewCounts,
    pub recent_runs: Vec<HistoryItem>,
}

/// The abstract value of a link: its label and its URL.
pub open spec fn link_view(l: ReleaseEvidenceLink) -> (Seq<char>, Seq<char>) {
    (l.label@, l.url@)
}

/// The abstract value of a check.
#[verifier::ext_equal]
pub struct CheckView {
    pub key: Seq<char>,
    pub label: Seq<char>,
    pub status: Seq<char>,
    pub detail: Seq<char>,
    pub evidence: Seq<Seq<char>>,
    pub links: Seq<(Seq<char>, Seq<char>)>,
}

impl View for ReleaseCheck {
    type V = CheckView;

    open spec fn view(&self) -> CheckView {
        CheckView {
            key: self.key@,
            label: self.label@,
            status: self.status@,
            detail: self.detail@,
            evidence: self.evidence@.map_values(|s: String| s@),
            links: self.links@.map_values(|l: ReleaseEvidenceLink| link_view(l)),
        }
    }
}

/// The abstract values of a list of checks.
pub open spec fn check_views(v: Seq<ReleaseCheck>) -> Seq<CheckView> {
    v.map_values(|c: ReleaseCheck| c@)
}

/// A check with no evidence and no links.
pub open spec fn plain_check(key: Seq<char>, label: Seq<char>, status: Seq<char>, detail: Seq<char>) -> CheckView {
    CheckView { key, label, status, detail, evidence: Seq::empty(), links: Seq::empty() }
}

/// The number of workflow runs a request looks at when it names none.
pub fn default_run_limit() -> (r: u32)
    ensures
        r == 20,
{
    20
}

/// The changelog path a request uses when it names none.
pub fn default_changelog_path() -> (r: String)
    ensures
        r@ == "CHANGELOG.md"@,
{
    String::from_str("CHANGELOG.md")
}

/// The labels that mark a release blocker when a request names none.
pub open spec fn default_blocker_label_texts() -> Seq<Seq<char>> {
    seq!["release-blocker"@, "blocker"@, "critical"@, "regression"@]
}

/// The labels that mark a release blocker when a request names none.
pub fn default_blocker_labels() -> (r: Vec<String>)
    ensures
        r@.map_values(|s: String| s@) == default_blocker_label_texts(),
{
    let mut r: Vec<String> = Vec::new();
    r.push(String::from_str("release-blocker"));
    r.push(String::from_str("blocker"));
    r.push(String::from_str("critical"));
    r.push(String::from_str("regression"));
    assert(r@.map_values(|s: String| s@) =~= default_blocker_label_texts());
    r
}

/// A check with the given key, label, status and detail and no evidence.
pub fn new_check(key: &str, label: &str, status: &str, detail: String) -> (r: ReleaseCheck)
    ensures
        r@ == plain_check(key@, label@, status@, detail@),
{
    let r = ReleaseCheck {
        key: key.to_owned(),
        label: label.to_owned(),
        status: status.to_owned(),
        detail,
        evidence: Vec::new(),
        links: Vec::new(),
    };
    assert(r@.evidence =~= Seq::<Seq<char>>::empty());
    assert(r@.links =~= Seq::<(Seq<char>, Seq<char>)>::empty());
    r
}

/// A link with the given label and URL.
pub fn new_link(label: &str, url: String) -> (r: ReleaseEvidenceLink)
    ensures
        link_view(r) == (label@, url@),
{
    ReleaseEvidenceLink { label: label.to_owned(), url }
}

} // verus!
