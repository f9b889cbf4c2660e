//! The route table: which behaviour answers a method and a path.

use vstd::prelude::*;

verus! {

/// The request methods that the route table tells apart.
#[derive(Clone, Copy, Debug, PartialEq, Eq, Structural)]
pub enum Method {
    Get,
    Post,
    /// Any method other than GET and POST.
    Other,
}

/// What the sink does with a request.
#[derive(Clone, Copy, Debug, PartialEq, Eq, Structural)]
pub enum Behavior {
    /// Accept, count and acknowledge.
    Ingest,
    /// Report the counter and the uptime.
    Health,
    /// Answer 404.
    Fallback,
}

/// A path below `/api/`: the prefix followed by at least one character.
pub open spec fn is_api_path(path: Seq<char>) -> bool {
    path.len() > 5 && path.subrange(0, 5) == "/api/"@
}

/// A path on which GET and POST both ingest.
pub open spec fn is_ingest_path(path: Seq<char>) -> bool {
    path == "/logs"@ || is_api_path(path)
}

/// The route table as a function of method and path.
pub open spec fn behavior_of(method: Method, path: Seq<char>) -> Behavior {
    if (method == Method::Get || method == Method::Post) && is_ingest_path(path) {
        Behavior::Ingest
    } else if method == Method::Get && path == "/health"@ {
        Behavior::Health
    } else {
        Behavior::Fallback
    }
}

/// Whether `text` begins with `prefix`, character by character.
fn starts_with(text: &str, prefix: &str) -> (found: bool)
    ensures
        found == (prefix@.len() <= text@.len() && text@.subrange(0, prefix@.len() as int)
            == prefix@),
{
    let text_len: usize = text.unicode_len();
    let prefix_len: usize = prefix.unicode_len();
    if prefix_len > text_len {
        return false;
    }
    let mut i: usize = 0;
    while i < prefix_len
        invariant
            i <= prefix_len <= text_len,
            prefix_len == prefix@.len(),
            text_len == text@.len(),
            forall|k: int| 0 <= k < i ==> text@[k] == prefix@[k],
        decreases prefix_len - i,
    {
        if text.get_char(i) != prefix.get_char(i) {
            assert(text@.subrange(0, prefix@.len() as int)[i as int] != prefix@[i as int]);
            return false;
        }
        i += 1;
    }
    assert(text@.subrange(0, prefix@.len() as int) =~= prefix@);
    true
}

/// Whether two strings hold the same characters.
fn same_text(text: &str, other: &str) -> (same: bool)
    ensures
        same == (text@ == other@),
{
    let same_len: bool = text.unicode_len() == other.unicode_len();
    let same: bool = same_len && starts_with(text, other);
    proof {
        if same {
            assert(text@.subrange(0, other@.len() as int) =~= text@);
        }
        if text@ == other@ {
            assert(text@.subrange(0, other@.len() as int) =~= text@);
        }
    }
    same
}

/// Whether `path` lies below `/api/`.
fn api_path(path: &str) -> (found: bool)
    ensures
        found == is_api_path(path@),
{
    proof {
        reveal_strlit("/api/");
    }
    path.unicode_len() > 5 && starts_with(path, "/api/")
}

/// Looks a request up in the route table.
pub fn route(method: Method, path: &str) -> (behavior: Behavior)
    ensures
        behavior == behavior_of(method, path@),
{
    match method {
        Method::Other => Behavior::Fallback,
        Method::Get => {
            if same_text(path, "/logs") || api_path(path) {
                Behavior::Ingest
            } else if same_text(path, "/health") {
                Behavior::Health
            } else {
                Behavior::Fallback
            }
        },
        Method::Post => {
            if same_text(path, "/logs") || api_path(path) {
                Behavior::Ingest
            } else {
                Behavior::Fallback
            }
        },
    }
}

} // verus!
