//! Covers: how the cover of a stored record is located, named on disk and
//! accounted for.

use crate::fetch::FetchOutcome;
use crate::kind::{decimal, decimal_string, SITE_ORIGIN};
use vstd::prelude::*;
use vstd::string::StringExecFns;

verus! {

/// How the cover step of one id ended.
#[derive(Clone, Copy, PartialEq, Eq, Structural, Debug)]
pub enum CoverOutcome {
    /// The image was fetched and written out.
    Saved,
    /// The record has no cover reference: nothing to fetch.
    NoCover,
    /// Fetching or writing failed: the cover stays pending for a later run.
    Failed,
}

/// The cover outcome of a finished image fetch: saved only where the fetch
/// fetched the image and the caller wrote it out.
pub open spec fn cover_outcome_spec(o: FetchOutcome) -> CoverOutcome {
    match o {
        FetchOutcome::Fetched => CoverOutcome::Saved,
        _ => CoverOutcome::Failed,
    }
}

/// The cover outcome of a finished image fetch.
pub fn cover_outcome(o: FetchOutcome) -> (r: CoverOutcome)
    ensures
        r == cover_outcome_spec(o),
{
    match o {
        FetchOutcome::Fetched => CoverOutcome::Saved,
        _ => CoverOutcome::Failed,
    }
}

/// The part of `s` after the last `c`, if `s` holds a `c`.
pub open spec fn after_last(s: Seq<char>, c: char) -> Option<Seq<char>>
    decreases s.len(),
{
    if s.len() == 0 {
        None
    } else if s.last() == c {
        Some(Seq::empty())
    } else {
        match after_last(s.drop_last(), c) {
            Some(t) => Some(t.push(s.last())),
            None => None,
        }
    }
}

/// The trailing path segment of a URL: what follows its last `/`.
pub open spec fn last_segment(url: Seq<char>) -> Seq<char> {
    match after_last(url, '/') {
        Some(t) => t,
        None => url,
    }
}

/// The file extension of a URL: what follows the last `.` of its trailing
/// path segment, if that segment holds a `.`.
pub open spec fn extension(url: Seq<char>) -> Option<Seq<char>> {
    after_last(last_segment(url), '.')
}

/// The absolute URL of a cover reference (a site-relative path).
pub open spec fn cover_url_spec(cover_ref: Seq<char>) -> Seq<char> {
    SITE_ORIGIN@ + cover_ref
}

/// The file name of the cover of `id` fetched from `url`: `{id}.{ext}`, or
/// `{id}` where the URL has no extension.
pub open spec fn cover_file_name_spec(id: u32, url: Seq<char>) -> Seq<char> {
    match extension(url) {
        Some(e) => decimal(id as nat) + "."@ + e,
        None => decimal(id as nat),
    }
}

proof fn lemma_after_last_at(s: Seq<char>, c: char, i: int)
    requires
        0 <= i < s.len(),
        s[i] == c,
        forall|j: int| i < j < s.len() ==> s[j] != c,
    ensures
        after_last(s, c) == Some(s.subrange(i + 1, s.len() as int)),
    decreases s.len(),
{
    if s.last() == c {
        assert(i == s.len() - 1);
        assert(s.subrange(i + 1, s.len() as int) =~= Seq::<char>::empty());
    } else {
        let t = s.drop_last();
        lemma_after_last_at(t, c, i);
        assert(t.subrange(i + 1, t.len() as int).push(s.last()) =~= s.subrange(i + 1, s.len() as int));
    }
}

proof fn lemma_after_last_none(s: Seq<char>, c: char)
    requires
        forall|j: int| 0 <= j < s.len() ==> s[j] != c,
    ensures
        after_last(s, c) is None,
    decreases s.len(),
{
    if s.len() > 0 {
        lemma_after_last_none(s.drop_last(), c);
    }
}

/// The part of `s` after the last `c`, if `s` holds a `c`.
fn split_after_last(s: &str, c: char) -> (r: Option<&str>)
    ensures
        match after_last(s@, c) {
            Some(t) => r is Some && r->0@ == t,
            None => r is None,
        },
{
    let n = s.unicode_len();
    let mut i: usize = n;
    while i > 0
        invariant
            i <= n,
            n == s@.len(),
            forall|j: int| i <= j < n ==> s@[j] != c,
        decreases i,
    {
        if s.get_char(i - 1) == c {
            proof {
                lemma_after_last_at(s@, c, i - 1);
            }
            return Some(s.substring_char(i, n));
        }
        i = i - 1;
    }
    proof {
        lemma_after_last_none(s@, c);
    }
    None
}

/// The file extension of a URL, from its trailing path segment.
pub fn url_extension(url: &str) -> (r: Option<&str>)
    ensures
        match extension(url@) {
            Some(e) => r is Some && r->0@ == e,
            None => r is None,
        },
{
    let segment = match split_after_last(url, '/') {
        Some(t) => t,
        None => url,
    };
    split_after_last(segment, '.')
}

/// What the cover step of one stored record does.
#[derive(Clone, Debug, PartialEq, Eq)]
pub enum CoverPlan {
    /// The record has no cover reference: mark the cover done.
    NoCover,
    /// Fetch `url` and write it to `file_name` in the cover directory.
    Download { url: String, file_name: String },
}

/// Plans the cover step of the record `id`, whose cover reference is `cover_ref`.
pub fn plan_cover(id: u32, cover_ref: Option<String>) -> (r: CoverPlan)
    ensures
        cover_ref is None ==> r is NoCover,
        cover_ref matches Some(c) ==> r matches CoverPlan::Download { url, file_name }
            && url@ == cover_url_spec(c@) && file_name@ == cover_file_name_spec(id, url@),
{
    match cover_ref {
        None => CoverPlan::NoCover,
        Some(c) => {
            let url = String::from_str(SITE_ORIGIN).concat(c.as_str());
            let stem = decimal_string(id);
            let file_name = match url_extension(url.as_str()) {
                Some(e) => stem.concat(".").concat(e),
                None => stem,
            };
            CoverPlan::Download { url, file_name }
        },
    }
}

/// The name under which a download from the URL path `path` is saved: its
/// trailing segment, or `tmp.bin` where that is empty.
pub open spec fn download_file_name_spec(path: Seq<char>) -> Seq<char> {
    if last_segment(path).len() > 0 {
        last_segment(path)
    } else {
        "tmp.bin"@
    }
}

/// The name under which a download from the URL path `path` is saved.
pub fn download_file_name(path: &str) -> (r: String)
    ensures
        r@ == download_file_name_spec(path@),
{
    let segment = match split_after_last(path, '/') {
        Some(t) => t,
        None => path,
    };
    if segment.is_empty() {
        String::from_str("tmp.bin")
    } else {
        String::from_str(segment)
    }
}

} // verus!
