use release_sentry::checks::{
    changelog_not_configured, check_blockers, check_changelog, check_release_surface,
    check_releases, check_repository, check_tags, check_workflows, failing_conclusion,
    fallback_join, plural, release_evidence, release_link, release_surface_paths, short_sha,
};
use release_sentry::github::{
    GitHubActionsWorkflowRun, GitHubContentFile, GitHubIssue, GitHubLabel, GitHubRelease,
    GitHubRepositoryDetail, GitHubTag, GitHubTagCommit,
};

fn repo(archived: bool, default_branch: &str, pushed: Option<&str>) -> GitHubRepositoryDetail {
    GitHubRepositoryDetail {
        full_name: "acme/widget".to_string(),
        html_url: "https://github.com/acme/widget".to_string(),
        default_branch: default_branch.to_string(),
        archived,
        disabled: false,
        open_issues_count: 3,
        pushed_at: pushed.map(|p| p.to_string()),
    }
}

fn release(tag: &str, draft: bool, url: &str) -> GitHubRelease {
    GitHubRelease {
        tag_name: tag.to_string(),
        name: format!("Release {tag}"),
        html_url: url.to_string(),
        draft,
        prerelease: false,
        published_at: if draft { None } else { Some("2024-05-01T00:00:00Z".to_string()) },
        target_commitish: "main".to_string(),
    }
}

fn tag(name: &str, sha: &str) -> GitHubTag {
    GitHubTag {
        name: name.to_string(),
        zipball_url: String::new(),
        tarball_url: String::new(),
        commit: GitHubTagCommit { sha: sha.to_string() },
    }
}

fn run(name: &str, number: u64, conclusion: &str) -> GitHubActionsWorkflowRun {
    GitHubActionsWorkflowRun {
        name: name.to_string(),
        run_number: number,
        conclusion: conclusion.to_string(),
        html_url: format!("https://github.com/acme/widget/actions/runs/{number}"),
    }
}

fn issue(number: u64, title: &str, labels: &[&str], pr: bool) -> GitHubIssue {
    GitHubIssue {
        number,
        title: title.to_string(),
        html_url: format!("https://github.com/acme/widget/issues/{number}"),
        is_pull_request: pr,
        labels: labels.iter().map(|l| GitHubLabel { name: l.to_string() }).collect(),
    }
}

fn strings(v: &[&str]) -> Vec<String> {
    v.iter().map(|s| s.to_string()).collect()
}

#[test]
fn repository_check_blocks_archived_repositories() {
    let c = check_repository(&repo(true, "main", None), "main");
    assert_eq!(c.key, "repository");
    assert_eq!(c.status, "block");
    assert_eq!(c.detail, "Repository is archived or disabled, so release automation should hold.");
    assert_eq!(c.evidence, strings(&["Default branch: main"]));
    assert_eq!(c.links.len(), 1);
    assert_eq!(c.links[0].label, "Repository");
    assert_eq!(c.links[0].url, "https://github.com/acme/widget");
}

#[test]
fn repository_check_warns_on_other_branch() {
    let c = check_repository(&repo(false, "main", Some("2024-05-01")), "dev");
    assert_eq!(c.status, "warn");
    assert_eq!(
        c.detail,
        "Requested branch `dev` differs from the repository default branch `main`."
    );
    assert_eq!(c.evidence, strings(&["Default branch: main", "Last push: 2024-05-01"]));
}

#[test]
fn repository_check_passes_on_default_or_empty_branch() {
    let c = check_repository(&repo(false, "main", None), "main");
    assert_eq!(c.status, "pass");
    assert_eq!(c.detail, "Repository is reachable and active.");
    let c = check_repository(&repo(false, "main", None), "");
    assert_eq!(c.status, "pass");
}

#[test]
fn releases_check_warns_without_releases() {
    let c = check_releases(&vec![], "v1.0.0");
    assert_eq!(c.key, "release-history");
    assert_eq!(c.status, "warn");
    assert!(c.detail.starts_with("No GitHub releases were found."));
    assert!(c.evidence.is_empty());
    assert!(c.links.is_empty());
}

#[test]
fn releases_check_finds_the_target_release() {
    let rs = vec![release("v2.0.0", false, "u2"), release("v1.0.0", false, "u1")];
    let c = check_releases(&rs, "v1.0.0");
    assert_eq!(c.status, "pass");
    assert_eq!(c.detail, "Target release `v1.0.0` exists in GitHub releases.");
    assert_eq!(
        c.evidence,
        strings(&["tag: v1.0.0", "draft: false", "prerelease: false", "published: 2024-05-01T00:00:00Z"])
    );
    assert_eq!(c.links[0].url, "u1");
}

#[test]
fn releases_check_warns_on_draft_target() {
    let rs = vec![release("v1.0.0", true, "")];
    let c = check_releases(&rs, "v1.0.0");
    assert_eq!(c.status, "warn");
    assert_eq!(c.detail, "Target release `v1.0.0` exists, but it is still a draft.");
    assert_eq!(c.evidence[1], "draft: true");
    assert_eq!(c.evidence[3], "published: not published");
    assert!(c.links.is_empty());
}

#[test]
fn releases_check_reports_latest_release() {
    let rs = vec![release("v2.0.0", false, "u2"), release("v1.0.0", false, "u1")];
    let c = check_releases(&rs, "");
    assert_eq!(c.status, "pass");
    assert_eq!(c.detail, "Latest release is `v2.0.0`.");
    let c = check_releases(&rs, "v3.0.0");
    assert_eq!(c.status, "warn");
    assert_eq!(
        c.detail,
        "Target release `v3.0.0` is not published yet. Latest release is `v2.0.0`."
    );
    assert_eq!(c.evidence[0], "tag: v2.0.0");
}

#[test]
fn tags_check_lists_at_most_five_tags() {
    let tags: Vec<GitHubTag> = (0..7).map(|i| tag(&format!("v1.{i}.0"), "0123456789abcdef")).collect();
    let c = check_tags(&tags, "");
    assert_eq!(c.key, "tags");
    assert_eq!(c.status, "pass");
    assert_eq!(c.detail, "ReleaseSentry saw 7 recent tags.");
    assert_eq!(c.evidence.len(), 5);
    assert_eq!(c.evidence[0], "v1.0.0 · 0123456");
    let c = check_tags(&tags[..1].to_vec(), "");
    assert_eq!(c.detail, "ReleaseSentry saw 1 recent tag.");
    let c = check_tags(&tags, "v1.6.0");
    assert_eq!(c.status, "pass");
    assert_eq!(c.detail, "Target tag `v1.6.0` exists.");
    let c = check_tags(&tags, "v9.0.0");
    assert_eq!(c.status, "warn");
    assert_eq!(c.detail, "Target tag `v9.0.0` was not found in the recent tag list.");
    let c = check_tags(&vec![tag("x", "ab")], "");
    assert_eq!(c.evidence, strings(&["x · ab"]));
    let c = check_tags(&vec![], "v1");
    assert_eq!(c.status, "warn");
    assert_eq!(c.detail, "No tags were found in GitHub's recent tag list.");
}

#[test]
fn workflows_check_blocks_on_failures() {
    let runs = vec![run("CI", 12, "success"), run("", 13, "failure"), run("Deploy", 14, "")];
    let c = check_workflows(&runs, "main");
    assert_eq!(c.key, "ci-health");
    assert_eq!(c.status, "block");
    assert_eq!(
        c.detail,
        "1 success, 1 failing, 1 pending across 3 recent runs on `main`."
    );
    assert_eq!(
        c.evidence,
        strings(&["CI #12 · success", "workflow #13 · failure", "Deploy #14 · pending"])
    );
    assert_eq!(c.links[0].label, "Latest workflow run");
    assert_eq!(c.links[0].url, "https://github.com/acme/widget/actions/runs/12");
}

#[test]
fn workflows_check_warns_on_pending_or_no_success() {
    let c = check_workflows(&vec![run("CI", 1, "success"), run("CI", 2, "  ")], "main");
    assert_eq!(c.status, "warn");
    assert_eq!(c.detail, "1 success, 0 failing, 1 pending across 2 recent runs on `main`.");
    let c = check_workflows(&vec![run("CI", 1, "skipped")], "main");
    assert_eq!(c.status, "warn");
    assert_eq!(c.detail, "0 successs, 0 failing, 0 pending across 1 recent run on `main`.");
    let c = check_workflows(&vec![run("CI", 1, "success"), run("CI", 2, "success")], "main");
    assert_eq!(c.status, "pass");
    let c = check_workflows(&vec![], "dev");
    assert_eq!(c.status, "warn");
    assert_eq!(c.detail, "No recent GitHub Actions runs were found for `dev`.");
    let many: Vec<_> = (0..8).map(|i| run("CI", i, "success")).collect();
    assert_eq!(check_workflows(&many, "main").evidence.len(), 6);
}

#[test]
fn blockers_check_matches_labels_case_insensitively() {
    let labels = strings(&["release-blocker", "critical"]);
    let issues = vec![
        issue(1, "Crash on start", &["Release-Blocker"], false),
        issue(2, "Docs typo", &["docs"], false),
        issue(3, "Fix crash", &["critical"], true),
        issue(4, "Data loss", &["bug", "Critical-Path"], false),
    ];
    let c = check_blockers(&issues, &labels);
    assert_eq!(c.key, "release-blockers");
    assert_eq!(c.status, "block");
    assert_eq!(c.detail, "2 open issues matched the release blocker label set.");
    assert_eq!(c.evidence, strings(&["#1 · Crash on start", "#4 · Data loss"]));
    assert_eq!(c.links[0].label, "Top blocker");
    assert_eq!(c.links[0].url, "https://github.com/acme/widget/issues/1");
}

#[test]
fn blockers_check_passes_without_blockers() {
    let labels = strings(&["blocker"]);
    let c = check_blockers(&vec![issue(2, "Docs", &["docs"], false)], &labels);
    assert_eq!(c.status, "pass");
    assert_eq!(c.detail, "No open release-blocker issues were found with the configured labels.");
    assert!(c.evidence.is_empty());
    assert!(c.links.is_empty());
    let one = check_blockers(&vec![issue(9, "Boom", &["blocker"], false)], &labels);
    assert_eq!(one.detail, "1 open issue matched the release blocker label set.");
    let many: Vec<_> = (0..7).map(|i| issue(i, "B", &["blocker"], false)).collect();
    assert_eq!(check_blockers(&many, &labels).evidence.len(), 5);
}

fn content(encoding: &str, body: &str) -> GitHubContentFile {
    GitHubContentFile {
        name: "CHANGELOG.md".to_string(),
        path: "CHANGELOG.md".to_string(),
        html_url: "https://github.com/acme/widget/blob/main/CHANGELOG.md".to_string(),
        download_url: None,
        encoding: encoding.to_string(),
        content: body.to_string(),
    }
}

#[test]
fn changelog_check_finds_the_version() {
    let file = content("base64", "IyBDaGFuZ2Vsb2cKCiMjIHYxLjIuMwot\nIGZpeGVzCg==\r\n");
    let c = check_changelog("CHANGELOG.md", "main", "1.2.3", "v1.2.3", &Ok(file));
    assert_eq!(c.key, "changelog");
    assert_eq!(c.status, "pass");
    assert_eq!(c.detail, "`CHANGELOG.md` mentions the target version or tag.");
    assert_eq!(c.evidence, strings(&["31 bytes decoded from `CHANGELOG.md`"]));
    assert_eq!(c.links[0].label, "CHANGELOG.md");
    assert_eq!(c.links[0].url, "https://github.com/acme/widget/blob/main/CHANGELOG.md");
}

#[test]
fn changelog_check_warns_when_version_is_missing() {
    let file = content("base64", "IyBDaGFuZ2Vsb2cKCiMjIHYxLjIuMwotIGZpeGVzCg==");
    let c = check_changelog("CHANGELOG.md", "main", "2.0.0", "v2.0.0", &Ok(file));
    assert_eq!(c.status, "warn");
    assert_eq!(c.detail, "`CHANGELOG.md` exists, but it does not mention the target version/tag yet.");
}

#[test]
fn changelog_check_without_target_only_checks_presence() {
    let file = content("utf-8", "plain");
    let c = check_changelog("CHANGELOG.md", "main", " ", "", &Ok(file));
    assert_eq!(c.status, "pass");
    assert_eq!(
        c.detail,
        "`CHANGELOG.md` exists. No target version was provided, so ReleaseSentry only checked for release-note presence."
    );
    assert_eq!(c.evidence, strings(&["0 bytes decoded from `CHANGELOG.md`"]));
}

#[test]
fn changelog_check_counts_bytes_not_characters() {
    let file = content("base64", "w4RuZGVydW5nZW4=");
    let c = check_changelog("NEWS", "main", "", "", &Ok(file));
    assert_eq!(c.evidence, strings(&["11 bytes decoded from `NEWS`"]));
}

#[test]
fn changelog_check_reports_read_errors() {
    let c = check_changelog("CHANGELOG.md", "dev", "1", "v1", &Err("404 Not Found".to_string()));
    assert_eq!(c.status, "warn");
    assert_eq!(c.detail, "Could not read `CHANGELOG.md` on `dev`: 404 Not Found");
    assert!(c.evidence.is_empty());
    let c = changelog_not_configured();
    assert_eq!(c.status, "warn");
    assert_eq!(
        c.detail,
        "No changelog path was provided, so ReleaseSentry could not verify release notes."
    );
}

#[test]
fn release_surface_needs_manifest_and_release_path() {
    let c = check_release_surface([true, false, false, true, false]);
    assert_eq!(c.key, "release-surface");
    assert_eq!(c.status, "pass");
    assert_eq!(c.detail, "Common package and release surface files are present.");
    assert_eq!(
        c.evidence,
        strings(&[
            "Found: Cargo.toml, .github/workflows/ci.yml",
            "Missing: package.json, docker-compose.yml, .github/workflows/release.yml"
        ])
    );
    let c = check_release_surface([false, false, false, false, false]);
    assert_eq!(c.status, "warn");
    assert_eq!(
        c.detail,
        "ReleaseSentry could not see both package metadata and a release/CI surface."
    );
    assert_eq!(c.evidence[0], "Found: none");
    let c = check_release_surface([true, true, true, true, true]);
    assert_eq!(c.evidence[1], "Missing: none");
    assert_eq!(release_surface_paths().len(), 5);
}

#[test]
fn small_helpers() {
    assert_eq!(plural(1), "");
    assert_eq!(plural(0), "s");
    assert_eq!(plural(2), "s");
    assert!(failing_conclusion("failure"));
    assert!(failing_conclusion("cancelled"));
    assert!(failing_conclusion("timed_out"));
    assert!(failing_conclusion("action_required"));
    assert!(failing_conclusion("startup_failure"));
    assert!(!failing_conclusion("success"));
    assert!(!failing_conclusion("Failure"));
    assert_eq!(short_sha("0123456789"), "0123456");
    assert_eq!(short_sha("abc"), "abc");
    assert_eq!(fallback_join(&vec![], "none"), "none");
    assert_eq!(fallback_join(&strings(&["a", "b"]), "none"), "a, b");
    let r = release("v1", false, "");
    assert_eq!(release_evidence(&r)[0], "tag: v1");
    assert!(release_link(&r).is_empty());
    let r = release("v1", false, "u");
    assert_eq!(release_link(&r)[0].label, "Release");
}
