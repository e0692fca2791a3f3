//! Normalisation and validation of what a request names.

use vstd::prelude::*;
use crate::checks::{lemma_select_step, lemma_select_whole, select};
use crate::models::{ReleaseCheckRequest, default_blocker_label_texts, default_blocker_labels};
use crate::text::{
    ascii_lower, chars_of, has_visible, has_visible_exec, texts, to_ascii_lowercase, trim,
    trim_text,
};

verus! {

// ---------------------------------------------------------------------------
// Branch and tag
// ---------------------------------------------------------------------------

/// The branch to check: the requested one, trimmed, or else the default branch, trimmed.
pub open spec fn branch_text(requested: Seq<char>, default_branch: Seq<char>) -> Seq<char> {
    if trim(requested).len() > 0 {
        trim(requested)
    } else {
        trim(default_branch)
    }
}

/// The branch to check: the requested one, trimmed, or else the default branch, trimmed.
pub fn normalize_branch(requested: &str, default_branch: &str) -> (r: String)
    ensures
        r@ == branch_text(requested@, default_branch@),
{
    let t = trim_text(requested);
    if t.as_str().is_empty() {
        trim_text(default_branch)
    } else {
        t
    }
}

/// The tag to check: the requested tag, trimmed; else the version, trimmed, with a `v`
/// in front unless it starts with one; else nothing.
pub open spec fn target_tag_text(requested: Seq<char>, version: Seq<char>) -> Seq<char> {
    let r = trim(requested);
    let v = trim(version);
    if r.len() > 0 {
        r
    } else if v.len() == 0 {
        Seq::empty()
    } else if v[0] == 'v' {
        v
    } else {
        "v"@ + v
    }
}

/// The tag to check, derived from the requested tag or else from the version.
pub fn normalize_target_tag(requested: &str, version: &str) -> (r: String)
    ensures
        r@ == target_tag_text(requested@, version@),
{
    let r = trim_text(requested);
    if !r.as_str().is_empty() {
        return r;
    }
    let v = trim_text(version);
    if v.as_str().is_empty() {
        return String::new();
    }
    let chars = chars_of(v.as_str());
    if chars[0] == 'v' {
        v
    } else {
        let mut t = String::from_str("v");
        t.append(v.as_str());
        t
    }
}

// ---------------------------------------------------------------------------
// Blocker labels
// ---------------------------------------------------------------------------

/// A label as it is matched: trimmed and lower-cased.
pub open spec fn label_form(s: Seq<char>) -> Seq<char> {
    ascii_lower(trim(s))
}

/// A non-empty text.
pub open spec fn non_empty() -> spec_fn(Seq<char>) -> bool {
    |s: Seq<char>| s.len() > 0
}

/// The labels in matching form, empty ones dropped.
pub open spec fn label_forms(labels: Seq<Seq<char>>) -> Seq<Seq<char>> {
    select(labels.map_values(|s: Seq<char>| label_form(s)), non_empty())
}

/// The blocker labels to match: the requested ones in matching form, or the defaults
/// when none is left.
pub open spec fn normalized_labels(labels: Seq<Seq<char>>) -> Seq<Seq<char>> {
    if label_forms(labels).len() == 0 {
        default_blocker_label_texts()
    } else {
        label_forms(labels)
    }
}

/// The blocker labels to match: trimmed, lower-cased, empty ones dropped, and the
/// defaults when none is left.
pub fn normalize_blocker_labels(labels: &Vec<String>) -> (r: Vec<String>)
    ensures
        texts(r@) == normalized_labels(texts(labels@)),
{
    let ghost forms = texts(labels@).map_values(|s: Seq<char>| label_form(s));
    let mut out: Vec<String> = Vec::new();
    let mut i: usize = 0;
    while i < labels.len()
        invariant
            i <= labels@.len(),
            forms == texts(labels@).map_values(|s: Seq<char>| label_form(s)),
            texts(out@) == select(forms.take(i as int), non_empty()),
        decreases labels@.len() - i,
    {
        proof {
            lemma_select_step(forms, non_empty(), i as int);
        }
        let trimmed = trim_text(labels[i].as_str());
        let value = to_ascii_lowercase(trimmed.as_str());
        assert(value@ == forms[i as int]);
        if !value.as_str().is_empty() {
            let ghost before = out@;
            out.push(value);
            assert(texts(out@) =~= texts(before).push(forms[i as int]));
        }
        i = i + 1;
    }
    proof {
        lemma_select_whole(forms, non_empty());
    }
    if out.len() == 0 {
        default_blocker_labels()
    } else {
        out
    }
}

// ---------------------------------------------------------------------------
// Repository names
// ---------------------------------------------------------------------------

/// `owner/name`: exactly one `/`, with a visible character on each side.
pub open spec fn valid_repo_text(s: Seq<char>) -> bool {
    exists|k: int|
        0 <= k < s.len() && s[k] == '/' && (forall|j: int| 0 <= j < s.len() && j != k ==> s[j] != '/')
            && has_visible(s.subrange(0, k)) && has_visible(s.subrange(k + 1, s.len() as int))
}

/// Whether `repo` has the `owner/name` form.
pub fn valid_repo(repo: &str) -> (r: bool)
    ensures
        r == valid_repo_text(repo@),
{
    let v = chars_of(repo);
    let n = v.len();
    let mut k: usize = 0;
    while k < n && v[k] != '/'
        invariant
            k <= n == v@.len(),
            forall|j: int| 0 <= j < k ==> v@[j] != '/',
        decreases n - k,
    {
        k = k + 1;
    }
    if k == n {
        return false;
    }
    let mut j: usize = k + 1;
    while j < n
        invariant
            k < j <= n == v@.len(),
            v@ == repo@,
            v@[k as int] == '/',
            forall|m: int| 0 <= m < k ==> v@[m] != '/',
            forall|m: int| k < m < j ==> v@[m] != '/',
        decreases n - j,
    {
        if v[j] == '/' {
            proof {
                assert(v@[k as int] == '/');
                assert(v@[j as int] == '/');
                assert forall|m: int| 0 <= m < v@.len() && v@[m] == '/' implies exists|q: int|
                    0 <= q < v@.len() && q != m && #[trigger] v@[q] == '/' by {
                    if m == k {
                        assert(v@[j as int] == '/');
                    } else {
                        assert(v@[k as int] == '/');
                    }
                }
            }
            return false;
        }
        j = j + 1;
    }
    has_visible_exec(&v, 0, k) && has_visible_exec(&v, k + 1, n)
}

/// The trimmed repository of a request, when it has the `owner/name` form.
pub open spec fn validated_repo_text(request: ReleaseCheckRequest) -> Option<Seq<char>> {
    if valid_repo_text(trim(request.repo@)) {
        Some(trim(request.repo@))
    } else {
        None
    }
}

/// The trimmed repository of a request, or `None` where it is not in `owner/name` form
/// (the request is then refused).
pub fn validated_repo(request: &ReleaseCheckRequest) -> (r: Option<String>)
    ensures
        match r {
            Some(s) => validated_repo_text(*request) == Some(s@),
            None => validated_repo_text(*request) is None,
        },
{
    let repo = trim_text(request.repo.as_str());
    if valid_repo(repo.as_str()) {
        Some(repo)
    } else {
        None
    }
}

} // verus!
