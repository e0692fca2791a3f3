//! The individual readiness checks over the GitHub evidence.

use vstd::prelude::*;
use crate::github::{
    GitHubActionsWorkflowRun, GitHubContentFile, GitHubIssue, GitHubRelease,
    GitHubRepositoryDetail, GitHubTag, decode_content, decoded_content,
};
use crate::models::{
    CheckView, ReleaseCheck, ReleaseEvidenceLink, link_view, new_check, new_link, plain_check,
};
use crate::text::{
    ascii_lower, bool_text, contains, contains_text, decimal, join, prefix, push_bool,
    push_decimal, push_decimal_usize, same_text, take_chars, texts, to_ascii_lowercase, trim,
    trim_text,
};

verus! {

// ---------------------------------------------------------------------------
// Selection
// ---------------------------------------------------------------------------

/// The items of `s` that satisfy `p`, in order.
pub open spec fn select<A>(s: Seq<A>, p: spec_fn(A) -> bool) -> Seq<A>
    decreases s.len(),
{
    if s.len() == 0 {
        Seq::empty()
    } else if p(s.last()) {
        select(s.drop_last(), p).push(s.last())
    } else {
        select(s.drop_last(), p)
    }
}

/// One more item of `s` either joins the selection or leaves it as it was.
pub proof fn lemma_select_step<A>(s: Seq<A>, p: spec_fn(A) -> bool, i: int)
    requires
        0 <= i < s.len(),
    ensures
        select(s.take(i + 1), p) == (if p(s[i]) {
            select(s.take(i), p).push(s[i])
        } else {
            select(s.take(i), p)
        }),
{
    assert(s.take(i + 1).drop_last() =~= s.take(i));
}

/// Taking the whole of `s` selects as `s` itself does.
pub proof fn lemma_select_whole<A>(s: Seq<A>, p: spec_fn(A) -> bool)
    ensures
        select(s.take(s.len() as int), p) == select(s, p),
{
    assert(s.take(s.len() as int) =~= s);
}

/// The selection is empty exactly when no item satisfies `p`.
pub proof fn lemma_select_empty<A>(s: Seq<A>, p: spec_fn(A) -> bool)
    ensures
        (select(s, p).len() == 0) <==> (forall|i: int| 0 <= i < s.len() ==> !p(#[trigger] s[i])),
    decreases s.len(),
{
    if s.len() > 0 {
        lemma_select_empty(s.drop_last(), p);
        if forall|i: int| 0 <= i < s.len() ==> !p(#[trigger] s[i]) {
            assert(!p(s.last()));
            assert forall|i: int| 0 <= i < s.drop_last().len() implies !p(#[trigger] s.drop_last()[i]) by {
                assert(s.drop_last()[i] == s[i]);
            }
        }
        if !p(s.last()) && select(s.drop_last(), p).len() == 0 {
            assert forall|i: int| 0 <= i < s.len() implies !p(#[trigger] s[i]) by {
                if i < s.len() - 1 {
                    assert(s.drop_last()[i] == s[i]);
                }
            }
        }
    }
}

/// The selection is never longer than `s`.
pub proof fn lemma_select_len<A>(s: Seq<A>, p: spec_fn(A) -> bool)
    ensures
        select(s, p).len() <= s.len(),
    decreases s.len(),
{
    if s.len() > 0 {
        lemma_select_len(s.drop_last(), p);
    }
}

// ---------------------------------------------------------------------------
// Small helpers
// ---------------------------------------------------------------------------

/// The plural suffix for a count: nothing for one, `s` otherwise.
pub open spec fn plural_suffix(value: u32) -> Seq<char> {
    if value == 1 { ""@ } else { "s"@ }
}

/// The plural suffix for a count: nothing for one, `s` otherwise.
pub fn plural(value: u32) -> (r: &'static str)
    ensures
        r@ == plural_suffix(value),
{
    if value == 1 {
        ""
    } else {
        "s"
    }
}

/// A workflow conclusion that counts as a failure.
pub open spec fn is_failing(conclusion: Seq<char>) -> bool {
    ||| conclusion == "failure"@
    ||| conclusion == "cancelled"@
    ||| conclusion == "timed_out"@
    ||| conclusion == "action_required"@
    ||| conclusion == "startup_failure"@
}

/// Whether a workflow conclusion counts as a failure.
pub fn failing_conclusion(conclusion: &str) -> (r: bool)
    ensures
        r == is_failing(conclusion@),
{
    same_text(conclusion, "failure") || same_text(conclusion, "cancelled") || same_text(
        conclusion,
        "timed_out",
    ) || same_text(conclusion, "action_required") || same_text(conclusion, "startup_failure")
}

/// The first seven characters of a commit hash.
pub fn short_sha(value: &str) -> (r: String)
    ensures
        r@ == prefix(value@, 7),
{
    take_chars(value, 7)
}

/// The values joined by `, `, or the fallback when there are none.
pub open spec fn fallback_join_text(values: Seq<Seq<char>>, fallback: Seq<char>) -> Seq<char> {
    if values.len() == 0 {
        fallback
    } else {
        join(values, ", "@)
    }
}

/// The values joined by `, `, or the fallback when there are none.
pub fn fallback_join(values: &Vec<String>, fallback: &str) -> (r: String)
    ensures
        r@ == fallback_join_text(texts(values@), fallback@),
{
    if values.len() == 0 {
        fallback.to_owned()
    } else {
        crate::text::join_strings(values, ", ")
    }
}

/// The evidence lines for a release.
pub open spec fn release_evidence_texts(release: GitHubRelease) -> Seq<Seq<char>> {
    seq![
        "tag: "@ + release.tag_name@,
        "draft: "@ + bool_text(release.draft),
        "prerelease: "@ + bool_text(release.prerelease),
        "published: "@ + match release.published_at {
            Some(p) => p@,
            None => "not published"@,
        },
    ]
}

/// The evidence lines for a release: its tag, draft and prerelease flags and publication time.
pub fn release_evidence(release: &GitHubRelease) -> (r: Vec<String>)
    ensures
        texts(r@) == release_evidence_texts(*release),
{
    let mut tag = String::from_str("tag: ");
    tag.append(release.tag_name.as_str());
    let mut draft = String::from_str("draft: ");
    push_bool(&mut draft, release.draft);
    let mut pre = String::from_str("prerelease: ");
    push_bool(&mut pre, release.prerelease);
    let mut published = String::from_str("published: ");
    match &release.published_at {
        Some(p) => published.append(p.as_str()),
        None => published.append("not published"),
    }
    let mut r: Vec<String> = Vec::new();
    r.push(tag);
    r.push(draft);
    r.push(pre);
    r.push(published);
    assert(texts(r@) =~= release_evidence_texts(*release));
    r
}

/// The link to a release, when it has a URL.
pub open spec fn release_link_views(release: GitHubRelease) -> Seq<(Seq<char>, Seq<char>)> {
    if release.html_url@.len() == 0 {
        Seq::empty()
    } else {
        seq![("Release"@, release.html_url@)]
    }
}

/// The link views of a list of links.
pub open spec fn link_views(v: Seq<ReleaseEvidenceLink>) -> Seq<(Seq<char>, Seq<char>)> {
    v.map_values(|l: ReleaseEvidenceLink| link_view(l))
}

/// The link to a release, when it has a URL.
pub fn release_link(release: &GitHubRelease) -> (r: Vec<ReleaseEvidenceLink>)
    ensures
        link_views(r@) == release_link_views(*release),
{
    let mut r: Vec<ReleaseEvidenceLink> = Vec::new();
    if release.html_url.as_str().is_empty() {
        assert(link_views(r@) =~= release_link_views(*release));
        r
    } else {
        r.push(new_link("Release", release.html_url.clone()));
        assert(link_views(r@) =~= release_link_views(*release));
        r
    }
}

// ---------------------------------------------------------------------------
// Repository
// ---------------------------------------------------------------------------

/// Whether the repository blocks, warns or passes for the requested branch.
pub open spec fn repository_blocks(repo: GitHubRepositoryDetail) -> bool {
    repo.archived || repo.disabled
}

/// The requested branch is set and is not the default branch.
pub open spec fn repository_branch_differs(repo: GitHubRepositoryDetail, branch: Seq<char>) -> bool {
    repo.default_branch@ != branch && branch.len() > 0
}

/// The repository check.
pub open spec fn spec_check_repository(repo: GitHubRepositoryDetail, branch: Seq<char>) -> CheckView {
    CheckView {
        key: "repository"@,
        label: "Repository"@,
        status: if repository_blocks(repo) {
            "block"@
        } else if repository_branch_differs(repo, branch) {
            "warn"@
        } else {
            "pass"@
        },
        detail: if repository_blocks(repo) {
            "Repository is archived or disabled, so release automation should hold."@
        } else if repository_branch_differs(repo, branch) {
            "Requested branch `"@ + branch + "` differs from the repository default branch `"@
                + repo.default_branch@ + "`."@
        } else {
            "Repository is reachable and active."@
        },
        evidence: match repo.pushed_at {
            Some(p) => seq!["Default branch: "@ + repo.default_branch@, "Last push: "@ + p@],
            None => seq!["Default branch: "@ + repo.default_branch@],
        },
        links: seq![("Repository"@, repo.html_url@)],
    }
}

/// Checks that the repository is active and that the requested branch is its default branch.
pub fn check_repository(repository: &GitHubRepositoryDetail, branch: &str) -> (r: ReleaseCheck)
    ensures
        r@ == spec_check_repository(*repository, branch@),
{
    let mut evidence: Vec<String> = Vec::new();
    let mut first = String::from_str("Default branch: ");
    first.append(repository.default_branch.as_str());
    evidence.push(first);
    match &repository.pushed_at {
        Some(p) => {
            let mut line = String::from_str("Last push: ");
            line.append(p.as_str());
            evidence.push(line);
        },
        None => {},
    }
    let blocks = repository.archived || repository.disabled;
    let differs = !same_text(repository.default_branch.as_str(), branch) && !branch.is_empty();
    let status;
    let detail;
    if blocks {
        status = "block";
        detail = String::from_str("Repository is archived or disabled, so release automation should hold.");
    } else if differs {
        status = "warn";
        let mut d = String::from_str("Requested branch `");
        d.append(branch);
        d.append("` differs from the repository default branch `");
        d.append(repository.default_branch.as_str());
        d.append("`.");
        detail = d;
    } else {
        status = "pass";
        detail = String::from_str("Repository is reachable and active.");
    }
    let mut links: Vec<ReleaseEvidenceLink> = Vec::new();
    links.push(new_link("Repository", repository.html_url.clone()));
    let r = ReleaseCheck {
        key: String::from_str("repository"),
        label: String::from_str("Repository"),
        status: status.to_owned(),
        detail,
        evidence,
        links,
    };
    assert(r@ =~= spec_check_repository(*repository, branch@));
    r
}

// ---------------------------------------------------------------------------
// Releases
// ---------------------------------------------------------------------------

/// `i` is the first release whose tag is `t`.
pub open spec fn first_with_tag(rs: Seq<GitHubRelease>, t: Seq<char>, i: int) -> bool {
    &&& 0 <= i < rs.len()
    &&& rs[i].tag_name@ == t
    &&& forall|j: int| 0 <= j < i ==> rs[j].tag_name@ != t
}

/// The release-history check.
pub open spec fn spec_check_releases(rs: Seq<GitHubRelease>, t: Seq<char>) -> CheckView {
    if rs.len() == 0 {
        plain_check(
            "release-history"@,
            "Release History"@,
            "warn"@,
            "No GitHub releases were found. This may be the first release, but the ship call needs extra human attention."@,
        )
    } else if t.len() > 0 && exists|i: int| first_with_tag(rs, t, i) {
        let rel = rs[choose|i: int| first_with_tag(rs, t, i)];
        CheckView {
            key: "release-history"@,
            label: "Release History"@,
            status: if rel.draft { "warn"@ } else { "pass"@ },
            detail: if rel.draft {
                "Target release `"@ + t + "` exists, but it is still a draft."@
            } else {
                "Target release `"@ + t + "` exists in GitHub releases."@
            },
            evidence: release_evidence_texts(rel),
            links: release_link_views(rel),
        }
    } else {
        let latest = rs[0];
        CheckView {
            key: "release-history"@,
            label: "Release History"@,
            status: if t.len() == 0 { "pass"@ } else { "warn"@ },
            detail: if t.len() == 0 {
                "Latest release is `"@ + latest.tag_name@ + "`."@
            } else {
                "Target release `"@ + t + "` is not published yet. Latest release is `"@
                    + latest.tag_name@ + "`."@
            },
            evidence: release_evidence_texts(latest),
            links: release_link_views(latest),
        }
    }
}

/// A release-history check built from one release.
fn release_check(status: &str, detail: String, release: &GitHubRelease) -> (r: ReleaseCheck)
    ensures
        r@ == (CheckView {
            key: "release-history"@,
            label: "Release History"@,
            status: status@,
            detail: detail@,
            evidence: release_evidence_texts(*release),
            links: release_link_views(*release),
        }),
{
    let r = ReleaseCheck {
        key: String::from_str("release-history"),
        label: String::from_str("Release History"),
        status: status.to_owned(),
        detail,
        evidence: release_evidence(release),
        links: release_link(release),
    };
    assert(r@.evidence == texts(r.evidence@));
    assert(r@.links == link_views(r.links@));
    r
}

/// Checks the release history: whether the target release exists, and whether it is a draft.
pub fn check_releases(releases: &Vec<GitHubRelease>, target_tag: &str) -> (r: ReleaseCheck)
    ensures
        r@ == spec_check_releases(releases@, target_tag@),
{
    if releases.len() == 0 {
        return new_check(
            "release-history",
            "Release History",
            "warn",
            String::from_str(
                "No GitHub releases were found. This may be the first release, but the ship call needs extra human attention.",
            ),
        );
    }
    if !target_tag.is_empty() {
        let mut i: usize = 0;
        while i < releases.len()
            invariant
                i <= releases@.len(),
                releases@.len() > 0,
                target_tag@.len() > 0,
                forall|j: int| 0 <= j < i ==> releases@[j].tag_name@ != target_tag@,
            decreases releases@.len() - i,
        {
            let release = &releases[i];
            if same_text(release.tag_name.as_str(), target_tag) {
                proof {
                    assert(first_with_tag(releases@, target_tag@, i as int));
                    let k = choose|k: int| first_with_tag(releases@, target_tag@, k);
                    if k < i {
                        assert(releases@[k].tag_name@ != target_tag@);
                    }
                    if k > i {
                        assert(releases@[i as int].tag_name@ != target_tag@);
                    }
                    assert(k == i);
                }
                let mut d = String::from_str("Target release `");
                d.append(target_tag);
                if release.draft {
                    d.append("` exists, but it is still a draft.");
                    let r = release_check("warn", d, release);
                    assert(r@ =~= spec_check_releases(releases@, target_tag@));
                    return r;
                } else {
                    d.append("` exists in GitHub releases.");
                    let r = release_check("pass", d, release);
                    assert(r@ =~= spec_check_releases(releases@, target_tag@));
                    return r;
                }
            }
            i = i + 1;
        }
        assert(!exists|k: int| first_with_tag(releases@, target_tag@, k));
    }
    let latest = &releases[0];
    if target_tag.is_empty() {
        let mut d = String::from_str("Latest release is `");
        d.append(latest.tag_name.as_str());
        d.append("`.");
        release_check("pass", d, latest)
    } else {
        let mut d = String::from_str("Target release `");
        d.append(target_tag);
        d.append("` is not published yet. Latest release is `");
        d.append(latest.tag_name.as_str());
        d.append("`.");
        release_check("warn", d, latest)
    }
}

// ---------------------------------------------------------------------------
// Tags
// ---------------------------------------------------------------------------

/// The evidence line for a tag: its name and short commit hash.
pub open spec fn tag_line(tag: GitHubTag) -> Seq<char> {
    tag.name@ + " · "@ + prefix(tag.commit.sha@, 7)
}

/// Some tag is named `t`.
pub open spec fn has_tag(tags: Seq<GitHubTag>, t: Seq<char>) -> bool {
    exists|i: int| 0 <= i < tags.len() && tags[i].name@ == t
}

/// The smaller of two counts.
pub open spec fn min_nat(a: nat, b: nat) -> nat {
    if a < b { a } else { b }
}

/// The tag check.
pub open spec fn spec_check_tags(tags: Seq<GitHubTag>, t: Seq<char>) -> CheckView {
    if tags.len() == 0 {
        plain_check("tags"@, "Tags"@, "warn"@, "No tags were found in GitHub's recent tag list."@)
    } else {
        CheckView {
            key: "tags"@,
            label: "Tags"@,
            status: if t.len() == 0 || has_tag(tags, t) { "pass"@ } else { "warn"@ },
            detail: if t.len() == 0 {
                "ReleaseSentry saw "@ + decimal(tags.len()) + " recent tag"@ + plural_suffix(
                    tags.len() as u32,
                ) + "."@
            } else if has_tag(tags, t) {
                "Target tag `"@ + t + "` exists."@
            } else {
                "Target tag `"@ + t + "` was not found in the recent tag list."@
            },
            evidence: Seq::new(min_nat(tags.len(), 5), |i: int| tag_line(tags[i])),
            links: Seq::empty(),
        }
    }
}

/// Checks the recent tags: whether the target tag exists.
pub fn check_tags(tags: &Vec<GitHubTag>, target_tag: &str) -> (r: ReleaseCheck)
    ensures
        r@ == spec_check_tags(tags@, target_tag@),
{
    if tags.len() == 0 {
        return new_check(
            "tags",
            "Tags",
            "warn",
            String::from_str("No tags were found in GitHub's recent tag list."),
        );
    }
    let shown: usize = if tags.len() < 5 { tags.len() } else { 5 };
    let mut evidence: Vec<String> = Vec::new();
    let mut i: usize = 0;
    while i < shown
        invariant
            shown == min_nat(tags@.len(), 5),
            i <= shown,
            texts(evidence@) =~= Seq::new(i as nat, |k: int| tag_line(tags@[k])),
        decreases shown - i,
    {
        let tag = &tags[i];
        let mut line = tag.name.clone();
        line.append(" · ");
        let sha = short_sha(tag.commit.sha.as_str());
        line.append(sha.as_str());
        assert(line@ == tag_line(tags@[i as int]));
        let ghost before = evidence@;
        evidence.push(line);
        assert(texts(evidence@) =~= texts(before).push(tag_line(tags@[i as int])));
        i = i + 1;
    }
    let mut found = false;
    let mut j: usize = 0;
    while j < tags.len()
        invariant
            j <= tags@.len(),
            found == exists|k: int| 0 <= k < j && tags@[k].name@ == target_tag@,
        decreases tags@.len() - j,
    {
        if same_text(tags[j].name.as_str(), target_tag) {
            found = true;
        }
        j = j + 1;
    }
    let status;
    let mut detail;
    if target_tag.is_empty() {
        status = "pass";
        detail = String::from_str("ReleaseSentry saw ");
        push_decimal_usize(&mut detail, tags.len());
        detail.append(" recent tag");
        detail.append(plural(tags.len() as u32));
        detail.append(".");
    } else if found {
        status = "pass";
        detail = String::from_str("Target tag `");
        detail.append(target_tag);
        detail.append("` exists.");
    } else {
        status = "warn";
        detail = String::from_str("Target tag `");
        detail.append(target_tag);
        detail.append("` was not found in the recent tag list.");
    }
    let r = ReleaseCheck {
        key: String::from_str("tags"),
        label: String::from_str("Tags"),
        status: status.to_owned(),
        detail,
        evidence,
        links: Vec::new(),
    };
    assert(r@ =~= spec_check_tags(tags@, target_tag@));
    r
}

// ---------------------------------------------------------------------------
// Workflows
// ---------------------------------------------------------------------------

/// A run whose conclusion is a failure.
pub open spec fn failing_run() -> spec_fn(GitHubActionsWorkflowRun) -> bool {
    |r: GitHubActionsWorkflowRun| is_failing(r.conclusion@)
}

/// A run that has no conclusion yet (blank after trimming).
pub open spec fn pending_run() -> spec_fn(GitHubActionsWorkflowRun) -> bool {
    |r: GitHubActionsWorkflowRun| trim(r.conclusion@).len() == 0
}

/// A run that concluded with `success`.
pub open spec fn successful_run() -> spec_fn(GitHubActionsWorkflowRun) -> bool {
    |r: GitHubActionsWorkflowRun| r.conclusion@ == "success"@
}

/// The evidence line for a workflow run: name, number and conclusion.
pub open spec fn run_line(r: GitHubActionsWorkflowRun) -> Seq<char> {
    (if r.name@.len() == 0 { "workflow"@ } else { r.name@ }) + " #"@ + decimal(r.run_number as nat)
        + " · "@ + (if r.conclusion@.len() == 0 { "pending"@ } else { r.conclusion@ })
}

/// The CI-health check.
pub open spec fn spec_check_workflows(runs: Seq<GitHubActionsWorkflowRun>, branch: Seq<char>) -> CheckView {
    if runs.len() == 0 {
        plain_check(
            "ci-health"@,
            "CI Health"@,
            "warn"@,
            "No recent GitHub Actions runs were found for `"@ + branch + "`."@,
        )
    } else {
        let failures = select(runs, failing_run()).len();
        let pending = select(runs, pending_run()).len();
        let successes = select(runs, successful_run()).len();
        CheckView {
            key: "ci-health"@,
            label: "CI Health"@,
            status: if failures > 0 {
                "block"@
            } else if pending > 0 || successes == 0 {
                "warn"@
            } else {
                "pass"@
            },
            detail: decimal(successes) + " success"@ + plural_suffix(successes as u32) + ", "@
                + decimal(failures) + " failing, "@ + decimal(pending) + " pending across "@
                + decimal(runs.len()) + " recent run"@ + plural_suffix(runs.len() as u32)
                + " on `"@ + branch + "`."@,
            evidence: Seq::new(min_nat(runs.len(), 6), |i: int| run_line(runs[i])),
            links: seq![("Latest workflow run"@, runs[0].html_url@)],
        }
    }
}

/// The evidence line for a workflow run.
fn workflow_run_line(run: &GitHubActionsWorkflowRun) -> (r: String)
    ensures
        r@ == run_line(*run),
{
    let mut line = if run.name.as_str().is_empty() {
        String::from_str("workflow")
    } else {
        run.name.clone()
    };
    line.append(" #");
    push_decimal(&mut line, run.run_number);
    line.append(" · ");
    if run.conclusion.as_str().is_empty() {
        line.append("pending");
    } else {
        line.append(run.conclusion.as_str());
    }
    line
}

/// Checks the recent workflow runs on the branch: any failure blocks, pending runs or
/// no success warn.
pub fn check_workflows(runs: &Vec<GitHubActionsWorkflowRun>, branch: &str) -> (r: ReleaseCheck)
    ensures
        r@ == spec_check_workflows(runs@, branch@),
{
    if runs.len() == 0 {
        let mut d = String::from_str("No recent GitHub Actions runs were found for `");
        d.append(branch);
        d.append("`.");
        return new_check("ci-health", "CI Health", "warn", d);
    }
    let mut failures: usize = 0;
    let mut pending: usize = 0;
    let mut successes: usize = 0;
    let mut i: usize = 0;
    while i < runs.len()
        invariant
            i <= runs@.len(),
            failures == select(runs@.take(i as int), failing_run()).len(),
            pending == select(runs@.take(i as int), pending_run()).len(),
            successes == select(runs@.take(i as int), successful_run()).len(),
            failures <= i,
            pending <= i,
            successes <= i,
        decreases runs@.len() - i,
    {
        let run = &runs[i];
        proof {
            lemma_select_step(runs@, failing_run(), i as int);
            lemma_select_step(runs@, pending_run(), i as int);
            lemma_select_step(runs@, successful_run(), i as int);
        }
        if failing_conclusion(run.conclusion.as_str()) {
            failures = failures + 1;
        }
        let trimmed = trim_text(run.conclusion.as_str());
        if trimmed.as_str().is_empty() {
            pending = pending + 1;
        }
        if same_text(run.conclusion.as_str(), "success") {
            successes = successes + 1;
        }
        i = i + 1;
    }
    proof {
        lemma_select_whole(runs@, failing_run());
        lemma_select_whole(runs@, pending_run());
        lemma_select_whole(runs@, successful_run());
    }
    let status = if failures > 0 {
        "block"
    } else if pending > 0 || successes == 0 {
        "warn"
    } else {
        "pass"
    };
    let shown: usize = if runs.len() < 6 { runs.len() } else { 6 };
    let mut evidence: Vec<String> = Vec::new();
    let mut k: usize = 0;
    while k < shown
        invariant
            shown == min_nat(runs@.len(), 6),
            k <= shown,
            texts(evidence@) =~= Seq::new(k as nat, |j: int| run_line(runs@[j])),
        decreases shown - k,
    {
        let line = workflow_run_line(&runs[k]);
        let ghost before = evidence@;
        evidence.push(line);
        assert(texts(evidence@) =~= texts(before).push(run_line(runs@[k as int])));
        k = k + 1;
    }
    let mut detail = String::new();
    push_decimal_usize(&mut detail, successes);
    detail.append(" success");
    detail.append(plural(successes as u32));
    detail.append(", ");
    push_decimal_usize(&mut detail, failures);
    detail.append(" failing, ");
    push_decimal_usize(&mut detail, pending);
    detail.append(" pending across ");
    push_decimal_usize(&mut detail, runs.len());
    detail.append(" recent run");
    detail.append(plural(runs.len() as u32));
    detail.append(" on `");
    detail.append(branch);
    detail.append("`.");
    let mut links: Vec<ReleaseEvidenceLink> = Vec::new();
    links.push(new_link("Latest workflow run", runs[0].html_url.clone()));
    let r = ReleaseCheck {
        key: String::from_str("ci-health"),
        label: String::from_str("CI Health"),
        status: status.to_owned(),
        detail,
        evidence,
        links,
    };
    assert(r@.detail =~= spec_check_workflows(runs@, branch@).detail);
    assert(r@ =~= spec_check_workflows(runs@, branch@));
    r
}

// ---------------------------------------------------------------------------
// Blockers
// ---------------------------------------------------------------------------

/// A label name that, lower-cased, contains one of the blocker labels.
pub open spec fn label_matches(name: Seq<char>, labels: Seq<Seq<char>>) -> bool {
    exists|k: int| 0 <= k < labels.len() && contains_text(ascii_lower(name), labels[k])
}

/// An issue (not a pull request) with a label that matches a blocker label.
pub open spec fn is_blocker(issue: GitHubIssue, labels: Seq<Seq<char>>) -> bool {
    &&& !issue.is_pull_request
    &&& exists|j: int| 0 <= j < issue.labels@.len() && label_matches(issue.labels@[j].name@, labels)
}

/// The blocker predicate for a set of labels.
pub open spec fn blocker_issue(labels: Seq<Seq<char>>) -> spec_fn(GitHubIssue) -> bool {
    |i: GitHubIssue| is_blocker(i, labels)
}

/// The open issues that block the release, in order.
pub open spec fn blockers(issues: Seq<GitHubIssue>, labels: Seq<Seq<char>>) -> Seq<GitHubIssue> {
    select(issues, blocker_issue(labels))
}

/// The evidence line for an issue: its number and title.
pub open spec fn issue_line(issue: GitHubIssue) -> Seq<char> {
    "#"@ + decimal(issue.number as nat) + " · "@ + issue.title@
}

/// The evidence lines for the first `n` issues of `sel`.
pub open spec fn issue_lines(sel: Seq<GitHubIssue>, n: nat) -> Seq<Seq<char>> {
    Seq::new(n, |k: int| issue_line(sel[k]))
}

/// The release-blocker check.
pub open spec fn spec_check_blockers(issues: Seq<GitHubIssue>, labels: Seq<Seq<char>>) -> CheckView {
    let b = blockers(issues, labels);
    CheckView {
        key: "release-blockers"@,
        label: "Release Blockers"@,
        status: if b.len() == 0 { "pass"@ } else { "block"@ },
        detail: if b.len() == 0 {
            "No open release-blocker issues were found with the configured labels."@
        } else {
            decimal(b.len()) + " open issue"@ + plural_suffix(b.len() as u32)
                + " matched the release blocker label set."@
        },
        evidence: issue_lines(b, min_nat(b.len(), 5)),
        links: if b.len() == 0 { Seq::empty() } else { seq![("Top blocker"@, b[0].html_url@)] },
    }
}

/// Whether a label name, lower-cased, contains one of the blocker labels.
pub fn label_matches_exec(name: &str, labels: &Vec<String>) -> (r: bool)
    ensures
        r == label_matches(name@, texts(labels@)),
{
    let lower = to_ascii_lowercase(name);
    let mut k: usize = 0;
    while k < labels.len()
        invariant
            k <= labels@.len(),
            lower@ == ascii_lower(name@),
            forall|j: int| 0 <= j < k ==> !contains_text(ascii_lower(name@), #[trigger] texts(labels@)[j]),
        decreases labels@.len() - k,
    {
        if contains(lower.as_str(), labels[k].as_str()) {
            assert(contains_text(ascii_lower(name@), texts(labels@)[k as int]));
            return true;
        }
        k = k + 1;
    }
    false
}

/// Whether an issue blocks the release under the given labels.
pub fn issue_is_blocker(issue: &GitHubIssue, labels: &Vec<String>) -> (r: bool)
    ensures
        r == is_blocker(*issue, texts(labels@)),
{
    if issue.is_pull_request {
        return false;
    }
    let mut j: usize = 0;
    while j < issue.labels.len()
        invariant
            !issue.is_pull_request,
            j <= issue.labels@.len(),
            forall|m: int| 0 <= m < j ==> !label_matches(#[trigger] issue.labels@[m].name@, texts(labels@)),
        decreases issue.labels@.len() - j,
    {
        if label_matches_exec(issue.labels[j].name.as_str(), labels) {
            assert(label_matches(issue.labels@[j as int].name@, texts(labels@)));
            return true;
        }
        j = j + 1;
    }
    false
}

/// The evidence line for an issue.
fn blocker_line(issue: &GitHubIssue) -> (r: String)
    ensures
        r@ == issue_line(*issue),
{
    let mut line = String::from_str("#");
    push_decimal(&mut line, issue.number);
    line.append(" · ");
    line.append(issue.title.as_str());
    line
}

/// Checks the open issues for release blockers: any issue (not a pull request) with a
/// matching label blocks.
pub fn check_blockers(issues: &Vec<GitHubIssue>, blocker_labels: &Vec<String>) -> (r: ReleaseCheck)
    ensures
        r@ == spec_check_blockers(issues@, texts(blocker_labels@)),
{
    let ghost labels = texts(blocker_labels@);
    let mut count: usize = 0;
    let mut evidence: Vec<String> = Vec::new();
    let mut top: Option<String> = None;
    let mut i: usize = 0;
    while i < issues.len()
        invariant
            i <= issues@.len(),
            labels == texts(blocker_labels@),
            count == blockers(issues@.take(i as int), labels).len(),
            count <= i,
            texts(evidence@) =~= issue_lines(blockers(issues@.take(i as int), labels), min_nat(count as nat, 5)),
            count == 0 ==> top is None,
            count > 0 ==> (top matches Some(u) && u@ == blockers(issues@.take(i as int), labels)[0].html_url@),
        decreases issues@.len() - i,
    {
        let issue = &issues[i];
        let ghost sel = blockers(issues@.take(i as int), labels);
        proof {
            lemma_select_step(issues@, blocker_issue(labels), i as int);
        }
        if issue_is_blocker(issue, blocker_labels) {
            let ghost next = sel.push(issues@[i as int]);
            assert(blockers(issues@.take(i + 1), labels) == next);
            if count < 5 {
                let ghost before = evidence@;
                evidence.push(blocker_line(issue));
                assert(texts(evidence@) =~= texts(before).push(issue_line(issues@[i as int])));
                assert(issue_lines(next, count as nat + 1) =~= issue_lines(sel, count as nat).push(issue_line(issues@[i as int])));
                assert(texts(evidence@) =~= issue_lines(next, min_nat(count as nat + 1, 5)));
            } else {
                assert(issue_lines(sel, 5) =~= issue_lines(next, 5));
            }
            if count == 0 {
                top = Some(issue.html_url.clone());
            } else {
                assert(next[0] == sel[0]);
            }
            count = count + 1;
        }
        i = i + 1;
    }
    proof {
        lemma_select_whole(issues@, blocker_issue(labels));
    }
    let status;
    let detail;
    let mut links: Vec<ReleaseEvidenceLink> = Vec::new();
    if count == 0 {
        status = "pass";
        detail = String::from_str("No open release-blocker issues were found with the configured labels.");
    } else {
        status = "block";
        let mut d = String::new();
        push_decimal_usize(&mut d, count);
        d.append(" open issue");
        d.append(plural(count as u32));
        d.append(" matched the release blocker label set.");
        detail = d;
        match top {
            Some(u) => links.push(new_link("Top blocker", u)),
            None => {},
        }
    }
    let r = ReleaseCheck {
        key: String::from_str("release-blockers"),
        label: String::from_str("Release Blockers"),
        status: status.to_owned(),
        detail,
        evidence,
        links,
    };
    assert(r@ =~= spec_check_blockers(issues@, texts(blocker_labels@)));
    r
}

// ---------------------------------------------------------------------------
// Changelog
// ---------------------------------------------------------------------------

/// The texts the changelog must mention: the trimmed version and tag, where set.
pub open spec fn changelog_needles(version: Seq<char>, tag: Seq<char>) -> Seq<Seq<char>> {
    let v = trim(version);
    let t = trim(tag);
    if v.len() > 0 && t.len() > 0 {
        seq![v, t]
    } else if v.len() > 0 {
        seq![v]
    } else if t.len() > 0 {
        seq![t]
    } else {
        Seq::empty()
    }
}

/// `text` mentions one of the needles.
pub open spec fn mentions_any(text: Seq<char>, needles: Seq<Seq<char>>) -> bool {
    exists|k: int| 0 <= k < needles.len() && contains_text(text, needles[k])
}

/// The decoded changelog text; empty where it cannot be decoded.
pub open spec fn changelog_text(file: GitHubContentFile) -> Seq<char> {
    match decoded_content(file) {
        Some(t) => t,
        None => Seq::empty(),
    }
}

/// The number of UTF-8 bytes in a text, as `str::len` reports it.
pub open spec fn byte_len(text: Seq<char>) -> nat {
    (vstd::utf8::encode_utf8(text).len() as usize) as nat
}

/// The changelog check for a file that could be read.
pub open spec fn spec_changelog_found(
    path: Seq<char>,
    version: Seq<char>,
    tag: Seq<char>,
    file: GitHubContentFile,
) -> CheckView {
    let text = changelog_text(file);
    let needles = changelog_needles(version, tag);
    let mentions = mentions_any(text, needles);
    CheckView {
        key: "changelog"@,
        label: "Changelog"@,
        status: if needles.len() == 0 || mentions { "pass"@ } else { "warn"@ },
        detail: if needles.len() == 0 {
            "`"@ + path
                + "` exists. No target version was provided, so ReleaseSentry only checked for release-note presence."@
        } else if mentions {
            "`"@ + path + "` mentions the target version or tag."@
        } else {
            "`"@ + path + "` exists, but it does not mention the target version/tag yet."@
        },
        evidence: seq![decimal(byte_len(text)) + " bytes decoded from `"@ + path + "`"@],
        links: seq![(path, file.html_url@)],
    }
}

/// The changelog check: `fetched` is the file, or the error text of a failed read.
pub open spec fn spec_check_changelog(
    path: Seq<char>,
    branch: Seq<char>,
    version: Seq<char>,
    tag: Seq<char>,
    fetched: Result<GitHubContentFile, String>,
) -> CheckView {
    match fetched {
        Err(e) => plain_check(
            "changelog"@,
            "Changelog"@,
            "warn"@,
            "Could not read `"@ + path + "` on `"@ + branch + "`: "@ + e@,
        ),
        Ok(file) => spec_changelog_found(path, version, tag, file),
    }
}

/// The trimmed version and tag, where set.
fn needles_of(version: &str, tag: &str) -> (r: Vec<String>)
    ensures
        texts(r@) == changelog_needles(version@, tag@),
{
    let v = trim_text(version);
    let t = trim_text(tag);
    let mut r: Vec<String> = Vec::new();
    if !v.as_str().is_empty() {
        r.push(v);
    }
    if !t.as_str().is_empty() {
        r.push(t);
    }
    assert(texts(r@) =~= changelog_needles(version@, tag@));
    r
}

/// Checks that the changelog (already fetched, or the error of fetching it) mentions the
/// target version or tag.
pub fn check_changelog(
    path: &str,
    branch: &str,
    target_version: &str,
    target_tag: &str,
    fetched: &Result<GitHubContentFile, String>,
) -> (r: ReleaseCheck)
    ensures
        r@ == spec_check_changelog(path@, branch@, target_version@, target_tag@, *fetched),
{
    let file = match fetched {
        Err(e) => {
            let mut d = String::from_str("Could not read `");
            d.append(path);
            d.append("` on `");
            d.append(branch);
            d.append("`: ");
            d.append(e.as_str());
            return new_check("changelog", "Changelog", "warn", d);
        },
        Ok(file) => file,
    };
    let text = match decode_content(file) {
        Some(t) => t,
        None => String::new(),
    };
    assert(text@ == changelog_text(*file));
    let needles = needles_of(target_version, target_tag);
    let mut mentions = false;
    let mut k: usize = 0;
    while k < needles.len()
        invariant
            k <= needles@.len(),
            mentions == exists|j: int| 0 <= j < k && contains_text(text@, #[trigger] texts(needles@)[j]),
        decreases needles@.len() - k,
    {
        if contains(text.as_str(), needles[k].as_str()) {
            assert(contains_text(text@, texts(needles@)[k as int]));
            mentions = true;
        } else {
            assert(!contains_text(text@, texts(needles@)[k as int]));
        }
        k = k + 1;
    }
    assert(mentions == mentions_any(text@, texts(needles@)));
    let status = if needles.len() == 0 || mentions {
        "pass"
    } else {
        "warn"
    };
    let mut detail = String::from_str("`");
    detail.append(path);
    if needles.len() == 0 {
        detail.append(
            "` exists. No target version was provided, so ReleaseSentry only checked for release-note presence.",
        );
    } else if mentions {
        detail.append("` mentions the target version or tag.");
    } else {
        detail.append("` exists, but it does not mention the target version/tag yet.");
    }
    let mut line = String::new();
    push_decimal_usize(&mut line, text.as_str().len());
    line.append(" bytes decoded from `");
    line.append(path);
    line.append("`");
    let mut evidence: Vec<String> = Vec::new();
    evidence.push(line);
    let mut links: Vec<ReleaseEvidenceLink> = Vec::new();
    links.push(new_link(path, file.html_url.clone()));
    let r = ReleaseCheck {
        key: String::from_str("changelog"),
        label: String::from_str("Changelog"),
        status: status.to_owned(),
        detail,
        evidence,
        links,
    };
    assert(r@ =~= spec_check_changelog(path@, branch@, target_version@, target_tag@, *fetched));
    r
}

/// The changelog check when the request names no changelog path.
pub open spec fn spec_changelog_not_configured() -> CheckView {
    plain_check(
        "changelog"@,
        "Changelog"@,
        "warn"@,
        "No changelog path was provided, so ReleaseSentry could not verify release notes."@,
    )
}

/// The changelog check when the request names no changelog path.
pub fn changelog_not_configured() -> (r: ReleaseCheck)
    ensures
        r@ == spec_changelog_not_configured(),
{
    new_check(
        "changelog",
        "Changelog",
        "warn",
        String::from_str(
            "No changelog path was provided, so ReleaseSentry could not verify release notes.",
        ),
    )
}

// ---------------------------------------------------------------------------
// Release surface
// ---------------------------------------------------------------------------

/// The files whose presence makes up the release surface, in the order they are probed.
pub open spec fn surface_paths() -> Seq<Seq<char>> {
    seq![
        "Cargo.toml"@,
        "package.json"@,
        "docker-compose.yml"@,
        ".github/workflows/ci.yml"@,
        ".github/workflows/release.yml"@,
    ]
}

/// The files whose presence makes up the release surface, in the order they are probed.
pub fn release_surface_paths() -> (r: Vec<String>)
    ensures
        texts(r@) == surface_paths(),
{
    let mut r: Vec<String> = Vec::new();
    r.push(String::from_str("Cargo.toml"));
    r.push(String::from_str("package.json"));
    r.push(String::from_str("docker-compose.yml"));
    r.push(String::from_str(".github/workflows/ci.yml"));
    r.push(String::from_str(".github/workflows/release.yml"));
    assert(texts(r@) =~= surface_paths());
    r
}

/// The first `n` surface paths whose presence equals `want`.
pub open spec fn surface_where(present: Seq<bool>, want: bool, n: nat) -> Seq<Seq<char>>
    decreases n,
{
    if n == 0 {
        Seq::empty()
    } else if present[n - 1] == want {
        surface_where(present, want, (n - 1) as nat).push(surface_paths()[n - 1])
    } else {
        surface_where(present, want, (n - 1) as nat)
    }
}

/// The release-surface check: `present[i]` says whether the `i`-th surface path exists.
pub open spec fn spec_check_release_surface(present: Seq<bool>) -> CheckView {
    let has_manifest = present[0] || present[1];
    let has_release_path = present[2] || present[3] || present[4];
    CheckView {
        key: "release-surface"@,
        label: "Release Surface"@,
        status: if has_manifest && has_release_path { "pass"@ } else { "warn"@ },
        detail: if has_manifest && has_release_path {
            "Common package and release surface files are present."@
        } else {
            "ReleaseSentry could not see both package metadata and a release/CI surface."@
        },
        evidence: seq![
            "Found: "@ + fallback_join_text(surface_where(present, true, 5), "none"@),
            "Missing: "@ + fallback_join_text(surface_where(present, false, 5), "none"@),
        ],
        links: Seq::empty(),
    }
}

/// Checks that the package metadata and a release or CI surface are present;
/// `present[i]` says whether the `i`-th path of `release_surface_paths` exists.
pub fn check_release_surface(present: [bool; 5]) -> (r: ReleaseCheck)
    ensures
        r@ == spec_check_release_surface(present@),
{
    let paths = release_surface_paths();
    assert(paths@.len() == texts(paths@).len());
    let mut found: Vec<String> = Vec::new();
    let mut missing: Vec<String> = Vec::new();
    let mut i: usize = 0;
    while i < 5
        invariant
            i <= 5,
            paths@.len() == 5,
            texts(paths@) == surface_paths(),
            texts(found@) == surface_where(present@, true, i as nat),
            texts(missing@) == surface_where(present@, false, i as nat),
        decreases 5 - i,
    {
        assert(paths@[i as int]@ == texts(paths@)[i as int]);
        if present[i] {
            let ghost before = found@;
            found.push(paths[i].clone());
            assert(texts(found@) =~= texts(before).push(surface_paths()[i as int]));
        } else {
            let ghost before = missing@;
            missing.push(paths[i].clone());
            assert(texts(missing@) =~= texts(before).push(surface_paths()[i as int]));
        }
        i = i + 1;
    }
    let has_manifest = present[0] || present[1];
    let has_release_path = present[2] || present[3] || present[4];
    let status;
    let detail;
    if has_manifest && has_release_path {
        status = "pass";
        detail = String::from_str("Common package and release surface files are present.");
    } else {
        status = "warn";
        detail = String::from_str(
            "ReleaseSentry could not see both package metadata and a release/CI surface.",
        );
    }
    let mut found_line = String::from_str("Found: ");
    let f = fallback_join(&found, "none");
    found_line.append(f.as_str());
    let mut missing_line = String::from_str("Missing: ");
    let m = fallback_join(&missing, "none");
    missing_line.append(m.as_str());
    let mut evidence: Vec<String> = Vec::new();
    evidence.push(found_line);
    evidence.push(missing_line);
    let r = ReleaseCheck {
        key: String::from_str("release-surface"),
        label: String::from_str("Release Surface"),
        status: status.to_owned(),
        detail,
        evidence,
        links: Vec::new(),
    };
    assert(r@ =~= spec_check_release_surface(present@));
    r
}

} // verus!
