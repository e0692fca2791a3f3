//! What each evidence check decides, stated over its inputs.

use vstd::prelude::*;
use crate::checks::{
    failing_run, is_failing, pending_run, spec_check_repository, spec_check_workflows,
    successful_run, blocker_issue, first_with_tag, lemma_select_empty, spec_check_blockers, spec_check_changelog,
    spec_check_release_surface, spec_check_releases, spec_check_tags,
};
use crate::github::{GitHubActionsWorkflowRun, GitHubRepositoryDetail, GitHubContentFile, GitHubIssue, GitHubRelease, GitHubTag, decoded_content};
use crate::text::{ascii_lower, contains_text, trim};

verus! {

/// The statuses are distinct texts.
proof fn lemma_statuses_distinct()
    ensures
        "pass"@ != "warn"@,
        "pass"@ != "block"@,
        "warn"@ != "block"@,
{
    reveal_strlit("pass");
    reveal_strlit("warn");
    reveal_strlit("block");
    assert("pass"@[0] != "warn"@[0]);
    assert("pass"@[0] != "block"@[0]);
    assert("warn"@[0] != "block"@[0]);
}

/// The changelog check passes exactly when no version or tag is set, or the decoded
/// changelog mentions the trimmed version or the trimmed tag (whichever are set);
/// otherwise it warns. A changelog that could not be read warns.
pub proof fn law_changelog_passes_iff_it_mentions_version_or_tag(
    path: Seq<char>,
    branch: Seq<char>,
    version: Seq<char>,
    tag: Seq<char>,
    fetched: Result<GitHubContentFile, String>,
)
    ensures
        match fetched {
            Err(_) => spec_check_changelog(path, branch, version, tag, fetched).status == "warn"@,
            Ok(file) => {
                let text = match decoded_content(file) {
                    Some(t) => t,
                    None => Seq::empty(),
                };
                let v = trim(version);
                let t = trim(tag);
                let status = spec_check_changelog(path, branch, version, tag, fetched).status;
                &&& (status == "pass"@) <==> ((v.len() == 0 && t.len() == 0) || (v.len() > 0
                    && contains_text(text, v)) || (t.len() > 0 && contains_text(text, t)))
                &&& status == "pass"@ || status == "warn"@
            },
        },
{
    lemma_statuses_distinct();
    match fetched {
        Err(_) => {},
        Ok(file) => {
            let text = match decoded_content(file) {
                Some(t) => t,
                None => Seq::empty(),
            };
            let v = trim(version);
            let t = trim(tag);
            let needles = crate::checks::changelog_needles(version, tag);
            if v.len() > 0 && contains_text(text, v) {
                assert(needles[0] == v);
                assert(crate::checks::mentions_any(text, needles));
            }
            if t.len() > 0 && contains_text(text, t) {
                if v.len() > 0 {
                    assert(needles[1] == t);
                    assert(crate::checks::mentions_any(text, needles));
                } else {
                    assert(needles[0] == t);
                    assert(crate::checks::mentions_any(text, needles));
                }
            }
        },
    }
}

/// The release-surface check passes exactly when a package manifest (`Cargo.toml` or
/// `package.json`) and a release or CI surface (`docker-compose.yml`, the CI workflow
/// or the release workflow) are both present; otherwise it warns.
pub proof fn law_release_surface_needs_manifest_and_release_path(present: Seq<bool>)
    requires
        present.len() == 5,
    ensures
        (spec_check_release_surface(present).status == "pass"@) <==> ((present[0] || present[1])
            && (present[2] || present[3] || present[4])),
        spec_check_release_surface(present).status == "pass"@ || spec_check_release_surface(
            present,
        ).status == "warn"@,
{
    lemma_statuses_distinct();
}

/// With a target tag set, the tag check passes exactly when some recent tag is named
/// exactly the target; otherwise it warns.
pub proof fn law_tag_check_needs_exact_name(tags: Seq<GitHubTag>, target: Seq<char>)
    requires
        target.len() > 0,
    ensures
        (spec_check_tags(tags, target).status == "pass"@) <==> (exists|i: int|
            0 <= i < tags.len() && #[trigger] tags[i].name@ == target),
        spec_check_tags(tags, target).status == "pass"@ || spec_check_tags(tags, target).status
            == "warn"@,
{
    lemma_statuses_distinct();
}

/// Some release carries exactly the tag `t`, so there is a first such release.
proof fn lemma_first_release_exists(rs: Seq<GitHubRelease>, t: Seq<char>, n: int)
    requires
        0 <= n <= rs.len(),
        exists|i: int| 0 <= i < n && #[trigger] rs[i].tag_name@ == t,
    ensures
        exists|i: int| first_with_tag(rs, t, i),
    decreases n,
{
    if exists|i: int| 0 <= i < n - 1 && #[trigger] rs[i].tag_name@ == t {
        lemma_first_release_exists(rs, t, n - 1);
    } else {
        assert(rs[n - 1].tag_name@ == t);
        assert(first_with_tag(rs, t, n - 1));
    }
}

/// With a target tag set and some releases: when no release carries exactly the target
/// tag, the release-history check warns that the target is not published yet and
/// names the latest release; when one does, the check reports that release, whose tag
/// is the target.
pub proof fn law_release_check_needs_exact_tag(rs: Seq<GitHubRelease>, target: Seq<char>)
    requires
        target.len() > 0,
        rs.len() > 0,
    ensures
        !(exists|i: int| 0 <= i < rs.len() && #[trigger] rs[i].tag_name@ == target) ==> {
            &&& spec_check_releases(rs, target).status == "warn"@
            &&& spec_check_releases(rs, target).detail == "Target release `"@ + target
                + "` is not published yet. Latest release is `"@ + rs[0].tag_name@ + "`."@
        },
        (exists|i: int| 0 <= i < rs.len() && #[trigger] rs[i].tag_name@ == target) ==> {
            &&& spec_check_releases(rs, target).evidence[0] == "tag: "@ + target
            &&& spec_check_releases(rs, target).detail == "Target release `"@ + target
                + "` exists in GitHub releases."@ || spec_check_releases(rs, target).detail
                == "Target release `"@ + target + "` exists, but it is still a draft."@
        },
{
    if exists|i: int| 0 <= i < rs.len() && #[trigger] rs[i].tag_name@ == target {
        lemma_first_release_exists(rs, target, rs.len() as int);
        let k = choose|k: int| first_with_tag(rs, target, k);
        assert(rs[k].tag_name@ == target);
    } else {
        if exists|k: int| first_with_tag(rs, target, k) {
            let k = choose|k: int| first_with_tag(rs, target, k);
            assert(rs[k].tag_name@ == target);
        }
    }
}

/// The release-blocker check blocks exactly when some open issue that is not a pull
/// request has a label whose lower-cased name contains one of the blocker labels
/// anywhere; otherwise it passes.
pub proof fn law_blocker_check_matches_label_substrings(
    issues: Seq<GitHubIssue>,
    labels: Seq<Seq<char>>,
)
    ensures
        (spec_check_blockers(issues, labels).status == "block"@) <==> (exists|i: int, j: int, k: int|
            0 <= i < issues.len() && !issues[i].is_pull_request && 0 <= j
                < issues[i].labels@.len() && 0 <= k < labels.len() && contains_text(
                ascii_lower(#[trigger] issues[i].labels@[j].name@),
                #[trigger] labels[k],
            )),
        spec_check_blockers(issues, labels).status == "block"@ || spec_check_blockers(
            issues,
            labels,
        ).status == "pass"@,
{
    lemma_statuses_distinct();
    lemma_select_empty(issues, blocker_issue(labels));
    if exists|i: int, j: int, k: int|
        0 <= i < issues.len() && !issues[i].is_pull_request && 0 <= j < issues[i].labels@.len()
            && 0 <= k < labels.len() && contains_text(
            ascii_lower(#[trigger] issues[i].labels@[j].name@),
            #[trigger] labels[k],
        ) {
        let (i, j, k) = choose|i: int, j: int, k: int|
            0 <= i < issues.len() && !issues[i].is_pull_request && 0 <= j
                < issues[i].labels@.len() && 0 <= k < labels.len() && contains_text(
                ascii_lower(#[trigger] issues[i].labels@[j].name@),
                #[trigger] labels[k],
            );
        assert(crate::checks::label_matches(issues[i].labels@[j].name@, labels));
        assert(blocker_issue(labels)(issues[i]));
    }
    if spec_check_blockers(issues, labels).status == "block"@ {
        let i = choose|i: int| 0 <= i < issues.len() && blocker_issue(labels)(#[trigger] issues[i]);
        assert(crate::checks::is_blocker(issues[i], labels));
        let j = choose|j: int|
            0 <= j < issues[i].labels@.len() && crate::checks::label_matches(
                issues[i].labels@[j].name@,
                labels,
            );
        let k = choose|k: int|
            0 <= k < labels.len() && contains_text(ascii_lower(issues[i].labels@[j].name@), labels[k]);
        assert(contains_text(ascii_lower(issues[i].labels@[j].name@), labels[k]));
    }
}

/// With a target tag set, the first release carrying exactly that tag decides the
/// release-history status: `pass` when it is published, `warn` when it is a draft.
/// Without releases the check warns; without a target tag it passes.
pub proof fn law_release_check_status(rs: Seq<GitHubRelease>, target: Seq<char>)
    ensures
        rs.len() == 0 ==> spec_check_releases(rs, target).status == "warn"@,
        rs.len() > 0 && target.len() == 0 ==> spec_check_releases(rs, target).status == "pass"@,
        forall|i: int|
            #![trigger rs[i]]
            0 <= i < rs.len() && target.len() > 0 && rs[i].tag_name@ == target && (forall|j: int|
                0 <= j < i ==> rs[j].tag_name@ != target) ==> ((spec_check_releases(rs, target).status
                == "pass"@) <==> !rs[i].draft),
{
    lemma_statuses_distinct();
    assert forall|i: int|
        #![trigger rs[i]]
        0 <= i < rs.len() && target.len() > 0 && rs[i].tag_name@ == target && (forall|j: int|
            0 <= j < i ==> rs[j].tag_name@ != target) implies ((spec_check_releases(rs, target).status
        == "pass"@) <==> !rs[i].draft) by {
        assert(first_with_tag(rs, target, i));
        let k = choose|k: int| first_with_tag(rs, target, k);
        if k < i {
            assert(rs[k].tag_name@ != target);
        }
        if k > i {
            assert(rs[i].tag_name@ != target);
        }
    }
}

/// Without a target tag the tag check passes when there are tags; without tags it warns.
pub proof fn law_tag_check_without_target(tags: Seq<GitHubTag>, target: Seq<char>)
    ensures
        tags.len() == 0 ==> spec_check_tags(tags, target).status == "warn"@,
        tags.len() > 0 && target.len() == 0 ==> spec_check_tags(tags, target).status == "pass"@,
{
}

/// The CI-health check blocks exactly when some recent run has a failing conclusion
/// (`failure`, `cancelled`, `timed_out`, `action_required`, `startup_failure`); with no
/// failure it passes only when there is a success and no run is pending (blank
/// conclusion). Without runs it warns.
pub proof fn law_ci_check_status(runs: Seq<GitHubActionsWorkflowRun>, branch: Seq<char>)
    ensures
        runs.len() == 0 ==> spec_check_workflows(runs, branch).status == "warn"@,
        runs.len() > 0 ==> ((spec_check_workflows(runs, branch).status == "block"@) <==> (exists|i: int|
            0 <= i < runs.len() && is_failing(#[trigger] runs[i].conclusion@))),
        runs.len() > 0 ==> ((spec_check_workflows(runs, branch).status == "pass"@) <==> (
            (forall|i: int| 0 <= i < runs.len() ==> !is_failing(#[trigger] runs[i].conclusion@))
            && (forall|i: int| 0 <= i < runs.len() ==> trim(#[trigger] runs[i].conclusion@).len() > 0)
            && (exists|i: int| 0 <= i < runs.len() && #[trigger] runs[i].conclusion@ == "success"@))),
{
    lemma_statuses_distinct();
    lemma_select_empty(runs, failing_run());
    lemma_select_empty(runs, pending_run());
    lemma_select_empty(runs, successful_run());
    if exists|i: int| 0 <= i < runs.len() && is_failing(#[trigger] runs[i].conclusion@) {
        let i = choose|i: int| 0 <= i < runs.len() && is_failing(#[trigger] runs[i].conclusion@);
        assert(failing_run()(runs[i]));
    }
    if exists|i: int| 0 <= i < runs.len() && trim(#[trigger] runs[i].conclusion@).len() == 0 {
        let i = choose|i: int| 0 <= i < runs.len() && trim(#[trigger] runs[i].conclusion@).len() == 0;
        assert(pending_run()(runs[i]));
    }
    if exists|i: int| 0 <= i < runs.len() && #[trigger] runs[i].conclusion@ == "success"@ {
        let i = choose|i: int| 0 <= i < runs.len() && #[trigger] runs[i].conclusion@ == "success"@;
        assert(successful_run()(runs[i]));
    }
}

/// The repository check blocks exactly when the repository is archived or disabled,
/// warns when it is active and a non-empty requested branch differs from the default
/// branch, and passes otherwise.
pub proof fn law_repository_check_status(repo: GitHubRepositoryDetail, branch: Seq<char>)
    ensures
        (spec_check_repository(repo, branch).status == "block"@) <==> (repo.archived || repo.disabled),
        (spec_check_repository(repo, branch).status == "warn"@) <==> (!(repo.archived || repo.disabled)
            && branch.len() > 0 && repo.default_branch@ != branch),
        (spec_check_repository(repo, branch).status == "pass"@) <==> (!(repo.archived || repo.disabled)
            && (branch.len() == 0 || repo.default_branch@ == branch)),
{
    lemma_statuses_distinct();
}

/// When a version or tag is set, the changelog detail says the target is mentioned
/// exactly when the check passes.
pub proof fn law_changelog_detail_follows_status(
    path: Seq<char>,
    branch: Seq<char>,
    version: Seq<char>,
    tag: Seq<char>,
    file: GitHubContentFile,
)
    requires
        trim(version).len() > 0 || trim(tag).len() > 0,
    ensures
        (spec_check_changelog(path, branch, version, tag, Ok(file)).detail == "`"@ + path
            + "` mentions the target version or tag."@) <==> (spec_check_changelog(
            path,
            branch,
            version,
            tag,
            Ok(file),
        ).status == "pass"@),
{
    lemma_statuses_distinct();
    reveal_strlit("`");
    reveal_strlit("` mentions the target version or tag.");
    reveal_strlit("` exists, but it does not mention the target version/tag yet.");
    let a = "`"@ + path + "` mentions the target version or tag."@;
    let b = "`"@ + path + "` exists, but it does not mention the target version/tag yet."@;
    assert(a[path.len() as int + 3] != b[path.len() as int + 3]);
}

} // verus!
