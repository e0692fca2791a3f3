//! The GitHub records the checks read, and the decoding of file contents.

use vstd::prelude::*;
use vstd::utf8::{decode_utf8, encode_utf8, valid_utf8};
use crate::text::{chars_of, push_char, push_chars, same_text};
use base64::engine::general_purpose;
use base64::Engine;

verus! {

/// A repository as GitHub describes it.
#[derive(Debug, Clone, Default, PartialEq, Eq)]
pub struct GitHubRepositoryDetail {
    pub full_name: String,
    pub html_url: String,
    pub default_branch: String,
    pub archived: bool,
    pub disabled: bool,
    pub open_issues_count: u32,
    pub pushed_at: Option<String>,
}

/// A published (or draft) release.
#[derive(Debug, Clone, Default, PartialEq, Eq)]
pub struct GitHubRelease {
    pub tag_name: String,
    pub name: String,
    pub html_url: String,
    pub draft: bool,
    pub prerelease: bool,
    pub published_at: Option<String>,
    pub target_commitish: String,
}

/// The commit a tag points at.
#[derive(Debug, Clone, Default, PartialEq, Eq)]
pub struct GitHubTagCommit {
    pub sha: String,
}

/// A git tag.
#[derive(Debug, Clone, Default, PartialEq, Eq)]
pub struct GitHubTag {
    pub name: String,
    pub zipball_url: String,
    pub tarball_url: String,
    pub commit: GitHubTagCommit,
}

/// A file read through the contents API.
#[derive(Debug, Clone, Default, PartialEq, Eq)]
pub struct GitHubContentFile {
    pub name: String,
    pub path: String,
    pub html_url: String,
    pub download_url: Option<String>,
    pub encoding: String,
    pub content: String,
}

/// A GitHub Actions workflow run; an empty conclusion means it is still pending.
#[derive(Debug, Clone, Default, PartialEq, Eq)]
pub struct GitHubActionsWorkflowRun {
    pub name: String,
    pub run_number: u64,
    pub conclusion: String,
    pub html_url: String,
}

/// A label on an issue.
#[derive(Debug, Clone, Default, PartialEq, Eq)]
pub struct GitHubLabel {
    pub name: String,
}

/// An open issue or pull request.
#[derive(Debug, Clone, Default, PartialEq, Eq)]
pub struct GitHubIssue {
    pub number: u64,
    pub title: String,
    pub html_url: String,
    pub is_pull_request: bool,
    pub labels: Vec<GitHubLabel>,
}

/// What the standard base64 engine (standard alphabet, canonical padding) decodes
/// `input` to, or `None` where it refuses the input.
pub uninterp spec fn base64_standard_decode(input: Seq<u8>) -> Option<Seq<u8>>;

/// Decodes with `base64::engine::general_purpose::STANDARD`.
/// Trusted: the result is `base64_standard_decode` of the input bytes, and `None`
/// exactly where the engine returns an error.
#[verifier::external_body]
fn base64_decode_standard(input: &[u8]) -> (r: Option<Vec<u8>>)
    ensures
        match r {
            Some(v) => base64_standard_decode(input@) == Some(v@),
            None => base64_standard_decode(input@) is None,
        },
{
    general_purpose::STANDARD.decode(input).ok()
}

/// `String::from_utf8`: the text the bytes encode, or `None` where they are not UTF-8.
/// Trusted: std accepts exactly the sequences that `valid_utf8` describes.
#[verifier::external_body]
fn utf8_string(bytes: Vec<u8>) -> (r: Option<String>)
    ensures
        r is Some <==> valid_utf8(bytes@),
        r matches Some(s) ==> s@ == decode_utf8(bytes@),
{
    String::from_utf8(bytes).ok()
}

/// `s` with every `\n` and `\r` removed.
pub open spec fn strip_line_breaks(s: Seq<char>) -> Seq<char>
    decreases s.len(),
{
    if s.len() == 0 {
        s
    } else if s.last() == '\n' || s.last() == '\r' {
        strip_line_breaks(s.drop_last())
    } else {
        strip_line_breaks(s.drop_last()).push(s.last())
    }
}

/// The text that decoded bytes stand for: `None` where decoding failed or the
/// bytes are not UTF-8.
pub open spec fn text_of_bytes(decoded: Option<Seq<u8>>) -> Option<Seq<char>> {
    match decoded {
        Some(bytes) => if valid_utf8(bytes) { Some(decode_utf8(bytes)) } else { None },
        None => None,
    }
}

/// The text of a content file: its base64 payload, line breaks removed, decoded
/// and read as UTF-8; `None` for any other encoding or a payload that fails.
pub open spec fn decoded_content(file: GitHubContentFile) -> Option<Seq<char>> {
    if file.encoding@ != "base64"@ {
        None
    } else {
        text_of_bytes(base64_standard_decode(encode_utf8(strip_line_breaks(file.content@))))
    }
}

/// The text of decoded bytes, or `None` where they are missing or not UTF-8.
pub fn text_from_decoded(decoded: Option<Vec<u8>>) -> (r: Option<String>)
    ensures
        match r {
            Some(s) => text_of_bytes(match decoded { Some(b) => Some(b@), None => None }) == Some(s@),
            None => text_of_bytes(match decoded { Some(b) => Some(b@), None => None }) is None,
        },
{
    match decoded {
        Some(bytes) => utf8_string(bytes),
        None => None,
    }
}

/// `s.replace(['\n', '\r'], "")`.
pub fn remove_line_breaks(s: &str) -> (r: String)
    ensures
        r@ == strip_line_breaks(s@),
{
    let v = chars_of(s);
    let mut r = String::new();
    let mut i: usize = 0;
    while i < v.len()
        invariant
            i <= v@.len(),
            r@ == strip_line_breaks(v@.take(i as int)),
        decreases v@.len() - i,
    {
        let c = v[i];
        if c != '\n' && c != '\r' {
            push_char(&mut r, c);
        }
        i = i + 1;
        assert(v@.take(i as int).drop_last() =~= v@.take(i - 1));
    }
    assert(v@.take(v@.len() as int) =~= v@);
    r
}

/// The text of a base64-encoded content file (see `decoded_content`).
pub fn decode_content(file: &GitHubContentFile) -> (r: Option<String>)
    ensures
        match r {
            Some(s) => decoded_content(*file) == Some(s@),
            None => decoded_content(*file) is None,
        },
{
    if !same_text(file.encoding.as_str(), "base64") {
        return None;
    }
    let encoded = remove_line_breaks(file.content.as_str());
    let decoded = base64_decode_standard(encoded.as_str().as_bytes());
    text_from_decoded(decoded)
}

/// `path` without its leading slashes (`trim_start_matches('/')`).
pub open spec fn strip_leading_slashes(s: Seq<char>) -> Seq<char>
    decreases s.len(),
{
    if s.len() > 0 && s[0] == '/' {
        strip_leading_slashes(s.drop_first())
    } else {
        s
    }
}

/// The contents API endpoint for `path` in `repo`.
pub open spec fn contents_endpoint_text(repo: Seq<char>, path: Seq<char>) -> Seq<char> {
    "/repos/"@ + repo + "/contents/"@ + strip_leading_slashes(path)
}

/// The contents API endpoint for `path` in `repo`: `/repos/{repo}/contents/{path}`,
/// the path's leading slashes removed.
pub fn contents_endpoint(repo: &str, path: &str) -> (r: String)
    ensures
        r@ == contents_endpoint_text(repo@, path@),
{
    let v = chars_of(path);
    let mut i: usize = 0;
    assert(v@.subrange(0, v@.len() as int) =~= v@);
    while i < v.len() && v[i] == '/'
        invariant
            i <= v@.len(),
            strip_leading_slashes(v@) == strip_leading_slashes(v@.subrange(i as int, v@.len() as int)),
        decreases v@.len() - i,
    {
        assert(v@.subrange(i as int, v@.len() as int).drop_first() =~= v@.subrange(i + 1, v@.len() as int));
        i = i + 1;
    }
    let mut r = String::from_str("/repos/");
    r.append(repo);
    r.append("/contents/");
    push_chars(&mut r, &v, i, v.len());
    r
}

/// `limit.clamp(lo, hi)` for `lo <= hi`.
pub open spec fn clamp_spec(limit: u32, lo: u32, hi: u32) -> u32 {
    if limit < lo { lo } else if limit > hi { hi } else { limit }
}

/// `limit.clamp(lo, hi)`.
pub fn clamp_u32(limit: u32, lo: u32, hi: u32) -> (r: u32)
    requires
        lo <= hi,
    ensures
        r == clamp_spec(limit, lo, hi),
{
    if limit < lo {
        lo
    } else if limit > hi {
        hi
    } else {
        limit
    }
}

/// The page size asked of the releases and tags endpoints: `limit` kept within 1..=100.
pub fn github_page_size(limit: u32) -> (r: u32)
    ensures
        r == clamp_spec(limit, 1, 100),
{
    clamp_u32(limit, 1, 100)
}

} // verus!
