//! One release-readiness run: the plan of what to fetch, and the assembly of the
//! fetched evidence into checks, metrics, a decision, a score and a summary.

use vstd::prelude::*;
use crate::checks::{
    changelog_not_configured, check_blockers, check_changelog, check_release_surface,
    check_releases, check_repository, check_tags, check_workflows, spec_changelog_not_configured,
    spec_check_blockers, spec_check_changelog, spec_check_release_surface, spec_check_releases,
    spec_check_repository, spec_check_tags, spec_check_workflows,
};
use crate::github::{
    GitHubActionsWorkflowRun, GitHubContentFile, GitHubIssue, GitHubRelease,
    GitHubRepositoryDetail, GitHubTag, clamp_spec, clamp_u32,
};
use crate::models::{
    CheckView, ReleaseCheck, ReleaseCheckRequest, ReleaseReadinessResult, check_views,
};
use crate::readiness::{
    build_metrics, build_summary, decision_for_metrics, decision_text, score_for_metrics,
    score_value, spec_build_metrics, summary_text,
};
use crate::request::{
    branch_text, normalize_blocker_labels, normalize_branch, normalize_target_tag,
    normalized_labels, target_tag_text,
};
use crate::text::{texts, trim, trim_text};

verus! {

/// What to fetch for a request, once the repository is known.
pub struct ReleasePlan {
    /// The repository, trimmed.
    pub repo: String,
    /// The branch to check.
    pub branch: String,
    /// The target version, trimmed.
    pub target_version: String,
    /// The tag to check (empty when there is none).
    pub target_tag: String,
    /// How many releases to read.
    pub release_limit: u32,
    /// How many tags to read.
    pub tag_limit: u32,
    /// How many workflow runs to read.
    pub workflow_run_limit: u32,
    /// How many open issues to read.
    pub issue_limit: u32,
    /// The blocker labels to match.
    pub blocker_labels: Vec<String>,
    /// The changelog path, trimmed; empty when the changelog is not checked.
    pub changelog_path: String,
}

/// What was fetched for a run; each failed read carries its error text.
pub struct GatheredEvidence {
    pub releases: Result<Vec<GitHubRelease>, String>,
    pub tags: Result<Vec<GitHubTag>, String>,
    pub runs: Result<Vec<GitHubActionsWorkflowRun>, String>,
    pub issues: Result<Vec<GitHubIssue>, String>,
    /// The changelog file; not read when the plan's changelog path is empty.
    pub changelog: Result<GitHubContentFile, String>,
    /// Whether each of the release-surface paths exists.
    pub release_surface: [bool; 5],
}

/// The target version of a request, trimmed.
pub open spec fn version_of(request: ReleaseCheckRequest) -> Seq<char> {
    trim(request.target_version@)
}

/// The tag a request checks.
pub open spec fn tag_of(request: ReleaseCheckRequest) -> Seq<char> {
    target_tag_text(request.target_tag@, version_of(request))
}

/// The plan for a request against a repository.
pub fn release_plan(request: &ReleaseCheckRequest, repository: &GitHubRepositoryDetail) -> (p: ReleasePlan)
    ensures
        p.repo@ == trim(request.repo@),
        p.branch@ == branch_text(request.branch@, repository.default_branch@),
        p.target_version@ == version_of(*request),
        p.target_tag@ == tag_of(*request),
        p.release_limit == 20,
        p.tag_limit == 50,
        p.workflow_run_limit == clamp_spec(request.workflow_run_limit, 5, 100),
        p.issue_limit == 100,
        texts(p.blocker_labels@) == normalized_labels(texts(request.blocker_labels@)),
        p.changelog_path@ == trim(request.changelog_path@),
{
    let target_version = trim_text(request.target_version.as_str());
    let target_tag = normalize_target_tag(request.target_tag.as_str(), target_version.as_str());
    ReleasePlan {
        repo: trim_text(request.repo.as_str()),
        branch: normalize_branch(request.branch.as_str(), repository.default_branch.as_str()),
        target_version,
        target_tag,
        release_limit: 20,
        tag_limit: 50,
        workflow_run_limit: clamp_u32(request.workflow_run_limit, 5, 100),
        issue_limit: 100,
        blocker_labels: normalize_blocker_labels(&request.blocker_labels),
        changelog_path: trim_text(request.changelog_path.as_str()),
    }
}

/// The fetched items, or nothing where the read failed.
pub open spec fn items<A>(r: Result<Vec<A>, String>) -> Seq<A> {
    match r {
        Ok(v) => v@,
        Err(_) => Seq::empty(),
    }
}

/// The warning for a failed read, if it failed.
pub open spec fn warning_for<A>(what: Seq<char>, repo: Seq<char>, r: Result<Vec<A>, String>) -> Seq<Seq<char>> {
    match r {
        Ok(_) => Seq::empty(),
        Err(e) => seq![what + repo + ": "@ + e@],
    }
}

/// The warnings of a run: one per failed read, in the order of the reads.
pub open spec fn warnings_text(repo: Seq<char>, ev: GatheredEvidence) -> Seq<Seq<char>> {
    warning_for("Could not read GitHub releases for "@, repo, ev.releases)
        + warning_for("Could not read GitHub tags for "@, repo, ev.tags)
        + warning_for("Could not read GitHub Actions runs for "@, repo, ev.runs)
        + warning_for("Could not read open issues for "@, repo, ev.issues)
}

/// The seven checks of a run, in order: repository, release history, tags, CI health,
/// release blockers, changelog, release surface.
pub open spec fn spec_checks(
    request: ReleaseCheckRequest,
    repository: GitHubRepositoryDetail,
    ev: GatheredEvidence,
) -> Seq<CheckView> {
    let branch = branch_text(request.branch@, repository.default_branch@);
    let path = trim(request.changelog_path@);
    seq![
        spec_check_repository(repository, branch),
        spec_check_releases(items(ev.releases), tag_of(request)),
        spec_check_tags(items(ev.tags), tag_of(request)),
        spec_check_workflows(items(ev.runs), branch),
        spec_check_blockers(items(ev.issues), normalized_labels(texts(request.blocker_labels@))),
        if path.len() == 0 {
            spec_changelog_not_configured()
        } else {
            spec_check_changelog(path, branch, version_of(request), tag_of(request), ev.changelog)
        },
        spec_check_release_surface(ev.release_surface@),
    ]
}

/// Appends the warning for a failed read.
fn warn_on<A>(warnings: &mut Vec<String>, what: &str, repo: &str, r: &Result<Vec<A>, String>)
    ensures
        texts(final(warnings)@) == texts(old(warnings)@) + warning_for(what@, repo@, *r),
{
    match r {
        Ok(_) => {
            assert(texts(warnings@) =~= texts(warnings@) + warning_for(what@, repo@, *r));
        },
        Err(e) => {
            let mut w = what.to_owned();
            w.append(repo);
            w.append(": ");
            w.append(e.as_str());
            let ghost before = warnings@;
            warnings.push(w);
            assert(texts(warnings@) =~= texts(before) + warning_for(what@, repo@, *r));
        },
    }
}

/// The fetched items, or an empty list where the read failed.
fn items_of<'a, A>(r: &'a Result<Vec<A>, String>, empty: &'a Vec<A>) -> (v: &'a Vec<A>)
    requires
        empty@.len() == 0,
    ensures
        v@ == items(*r),
{
    match r {
        Ok(v) => v,
        Err(_) => {
            assert(empty@ =~= Seq::<A>::empty());
            empty
        },
    }
}

/// Assembles a release-readiness result from a request, its repository and the evidence
/// fetched for its plan.
pub fn build_release_readiness(
    request: &ReleaseCheckRequest,
    repository: &GitHubRepositoryDetail,
    evidence: &GatheredEvidence,
    id: String,
    now: String,
) -> (r: ReleaseReadinessResult)
    requires
        items(evidence.runs).len() <= u32::MAX,
    ensures
        r.id@ == id@,
        r.created_at@ == now@,
        r.updated_at@ == now@,
        r.repo@ == trim(request.repo@),
        r.branch@ == branch_text(request.branch@, repository.default_branch@),
        r.target_version@ == version_of(*request),
        r.target_tag@ == tag_of(*request),
        check_views(r.checks@) == spec_checks(*request, *repository, *evidence),
        r.metrics == spec_build_metrics(
            check_views(r.checks@),
            items(evidence.runs),
            items(evidence.issues),
            normalized_labels(texts(request.blocker_labels@)),
            items(evidence.tags).len(),
            items(evidence.releases).len(),
        ),
        r.decision@ == decision_text(r.metrics),
        r.status@ == r.decision@,
        r.score == score_value(r.metrics),
        r.summary@ == summary_text(r.repo@, r.branch@, r.decision@, r.metrics, r.target_tag@),
        r.title@ == repository.full_name@ + " release readiness"@,
        texts(r.warnings@) == warnings_text(trim(request.repo@), *evidence),
{
    let plan = release_plan(request, repository);
    let no_releases: Vec<GitHubRelease> = Vec::new();
    let no_tags: Vec<GitHubTag> = Vec::new();
    let no_runs: Vec<GitHubActionsWorkflowRun> = Vec::new();
    let no_issues: Vec<GitHubIssue> = Vec::new();
    let releases = items_of(&evidence.releases, &no_releases);
    let tags = items_of(&evidence.tags, &no_tags);
    let runs = items_of(&evidence.runs, &no_runs);
    let issues = items_of(&evidence.issues, &no_issues);

    let mut warnings: Vec<String> = Vec::new();
    warn_on(&mut warnings, "Could not read GitHub releases for ", plan.repo.as_str(), &evidence.releases);
    warn_on(&mut warnings, "Could not read GitHub tags for ", plan.repo.as_str(), &evidence.tags);
    warn_on(&mut warnings, "Could not read GitHub Actions runs for ", plan.repo.as_str(), &evidence.runs);
    warn_on(&mut warnings, "Could not read open issues for ", plan.repo.as_str(), &evidence.issues);
    assert(texts(warnings@) =~= warnings_text(trim(request.repo@), *evidence));

    let mut checks: Vec<ReleaseCheck> = Vec::new();
    checks.push(check_repository(repository, plan.branch.as_str()));
    checks.push(check_releases(releases, plan.target_tag.as_str()));
    checks.push(check_tags(tags, plan.target_tag.as_str()));
    checks.push(check_workflows(runs, plan.branch.as_str()));
    checks.push(check_blockers(issues, &plan.blocker_labels));
    if plan.changelog_path.as_str().is_empty() {
        checks.push(changelog_not_configured());
    } else {
        checks.push(
            check_changelog(
                plan.changelog_path.as_str(),
                plan.branch.as_str(),
                plan.target_version.as_str(),
                plan.target_tag.as_str(),
                &evidence.changelog,
            ),
        );
    }
    checks.push(check_release_surface(evidence.release_surface));
    assert(check_views(checks@) =~= spec_checks(*request, *repository, *evidence));

    let metrics = build_metrics(
        &checks,
        runs,
        issues,
        &plan.blocker_labels,
        tags.len(),
        releases.len(),
    );
    let decision = decision_for_metrics(&metrics);
    let score = score_for_metrics(&metrics);
    let summary = build_summary(
        plan.repo.as_str(),
        plan.branch.as_str(),
        decision.as_str(),
        &metrics,
        plan.target_tag.as_str(),
    );
    let mut title = repository.full_name.clone();
    title.append(" release readiness");
    ReleaseReadinessResult {
        id,
        created_at: now.clone(),
        updated_at: now,
        repo: plan.repo,
        branch: plan.branch,
        target_version: plan.target_version,
        target_tag: plan.target_tag,
        status: decision.clone(),
        decision,
        score,
        title,
        summary,
        metrics,
        checks,
        warnings,
    }
}

} // verus!
