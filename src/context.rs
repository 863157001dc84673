//! Context extractor: a best-effort guess of which application a request
//! belongs to, read from the path segment that follows `/apps/`.
//!
//! The result only tags requests for routing; it is spoofable and is no
//! means of authorisation.
use vstd::prelude::*;

use crate::text::{find_from, first_occurrence_from};

verus! {

/// A character that ends a path segment.
pub open spec fn ends_segment(c: char) -> bool {
    c == '/' || c == '?' || c == '#'
}

/// The index where the path segment that runs from `k` ends.
pub open spec fn segment_end_from(s: Seq<char>, k: int) -> int
    decreases s.len() - k,
{
    if k < 0 || k >= s.len() {
        k
    } else if ends_segment(s[k]) {
        k
    } else {
        segment_end_from(s, k + 1)
    }
}

/// The token that precedes an application name in a path.
pub open spec fn apps_token() -> Seq<char> {
    "/apps/"@
}

/// The non-empty segment right after the first `/apps/` in `s`, if any.
pub open spec fn context_of(s: Seq<char>) -> Option<Seq<char>> {
    match first_occurrence_from(s, apps_token(), 0) {
        Some(i) => {
            let start = i + apps_token().len();
            let end = segment_end_from(s, start);
            if end > start {
                Some(s.subrange(start, end))
            } else {
                None
            }
        },
        None => None,
    }
}

/// The context of a request: from the referer when it names one, else from
/// the request path.
pub open spec fn request_context(referer: Option<Seq<char>>, path: Seq<char>) -> Option<Seq<char>> {
    match referer {
        Some(r) => match context_of(r) {
            Some(c) => Some(c),
            None => context_of(path),
        },
        None => context_of(path),
    }
}

/// The view of an optional owned string.
pub open spec fn opt_view(o: Option<String>) -> Option<Seq<char>> {
    match o {
        Some(s) => Some(s@),
        None => None,
    }
}

/// The view of an optional borrowed string.
pub open spec fn opt_str_view(o: Option<&str>) -> Option<Seq<char>> {
    match o {
        Some(s) => Some(s@),
        None => None,
    }
}

/// The application named right after the first `/apps/` in `s`.
pub fn context_in(s: &str) -> (r: Option<String>)
    ensures
        opt_view(r) == context_of(s@),
{
    proof {
        reveal_strlit("/apps/");
    }
    let n = s.unicode_len();
    let found = find_from(s, "/apps/", 0);
    let i = match found {
        Some(i) => i,
        None => {
            return None;
        },
    };
    let start = i + 6;
    let mut end = start;
    while end < n
        invariant
            n == s@.len(),
            start <= end <= n,
            segment_end_from(s@, start as int) == segment_end_from(s@, end as int),
        ensures
            segment_end_from(s@, start as int) == end,
        decreases n - end,
    {
        let c = s.get_char(end);
        if c == '/' || c == '?' || c == '#' {
            assert(segment_end_from(s@, end as int) == end);
            break;
        }
        end = end + 1;
    }
    if end > start {
        Some(String::from_str(s.substring_char(start, end)))
    } else {
        None
    }
}

/// Derives the application context of a request from its referer header and
/// its path. Never fails: no signal gives `None`.
pub fn extract_context(referer: Option<&str>, path: &str) -> (r: Option<String>)
    ensures
        opt_view(r) == request_context(opt_str_view(referer), path@),
{
    match referer {
        Some(rf) => match context_in(rf) {
            Some(c) => Some(c),
            None => context_in(path),
        },
        None => context_in(path),
    }
}

} // verus!
