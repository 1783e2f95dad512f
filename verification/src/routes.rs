//! Request-path classification used by the HTTP front end: which unmatched
//! paths get a JSON 404 instead of the web UI, and how paths are redacted
//! before they reach the logs.

use crate::text::{find, find_str, has_prefix, lemma_find, starts_with, str_eq};
use vstd::prelude::*;
use vstd::string::*;

verus! {

/// Whether `c` is a lowercase hexadecimal digit (`0-9`, `a-f`), as API keys
/// are written.
pub open spec fn is_hex(c: char) -> bool {
    ('0' <= c && c <= '9') || ('a' <= c && c <= 'f')
}

/// The path after its leading character, when that character is ASCII (so the
/// remainder starts on a character boundary); `None` for an empty path or one
/// that starts with a multi-byte character.
pub open spec fn after_first(path: Seq<char>) -> Option<Seq<char>> {
    if path.len() > 0 && (path[0] as int) < 0x80 {
        Some(path.skip(1))
    } else {
        None
    }
}

/// The first segment of a path (after its leading character, up to the next `/`).
pub open spec fn first_segment(rest: Seq<char>) -> Seq<char> {
    match find(rest, "/"@) {
        Some(k) => rest.take(k),
        None => rest,
    }
}

/// Whether a segment looks like an API key: exactly 64 lowercase hex digits.
pub open spec fn is_api_key_like(seg: Seq<char>) -> bool {
    seg.len() == 64 && forall|i: int| 0 <= i < seg.len() ==> is_hex(#[trigger] seg[i])
}

/// Whether a path is an API management route (`/api`, `/api/...`), a
/// content-addressed CDN route (`/c/...`), or an image route whose first
/// segment is an API key.
pub open spec fn api_or_image_path(path: Seq<char>) -> bool {
    ||| has_prefix(path, "/api/"@)
    ||| path == "/api"@
    ||| has_prefix(path, "/c/"@)
    ||| match after_first(path) {
        Some(rest) => is_api_key_like(first_segment(rest)),
        None => false,
    }
}

fn hex_digit(c: char) -> (r: bool)
    ensures
        r == is_hex(c),
{
    ('0' <= c && c <= '9') || ('a' <= c && c <= 'f')
}

/// The remainder of `path` after an ASCII first character.
fn path_after_first(path: &str) -> (r: Option<&str>)
    ensures
        match after_first(path@) {
            Some(rest) => r matches Some(rr) && rr@ == rest,
            None => r is None,
        },
{
    let n = path.unicode_len();
    if n > 0 && (path.get_char(0) as u32) < 0x80 {
        Some(path.substring_char(1, n))
    } else {
        None
    }
}

/// Returns true if `path` looks like an API management route (`/api/...`), a
/// CDN route (`/c/...`), or an image route (first segment is a 64-char
/// lowercase hex API key). Used to answer unmatched paths with a JSON 404
/// instead of the web UI page.
pub fn is_api_or_image_path(path: &str) -> (r: bool)
    ensures
        r == api_or_image_path(path@),
{
    proof {
        reveal_strlit("/");
    }
    if starts_with(path, "/api/") || str_eq(path, "/api") {
        return true;
    }
    if starts_with(path, "/c/") {
        return true;
    }
    let without_slash = match path_after_first(path) {
        Some(rest) => rest,
        None => return false,
    };
    proof {
        lemma_find(without_slash@, "/"@);
    }
    let found = find_str(without_slash, "/");
    let first = match found {
        Some(pos) => {
            assert(find(without_slash@, "/"@) == Some(pos as int));
            let f = without_slash.substring_char(0, pos);
            assert(f@ =~= first_segment(without_slash@));
            f
        },
        None => {
            assert(find(without_slash@, "/"@) is None);
            without_slash
        },
    };
    assert(first@ =~= first_segment(without_slash@));
    assert(after_first(path@) == Some(without_slash@));
    let n = first.unicode_len();
    if n != 64 {
        return false;
    }
    let mut i: usize = 0;
    while i < n
        invariant
            n == first@.len(),
            i <= n,
            forall|j: int| 0 <= j < i ==> is_hex(#[trigger] first@[j]),
            first@ == first_segment(without_slash@),
            after_first(path@) == Some(without_slash@),
            !has_prefix(path@, "/api/"@),
            path@ != "/api"@,
            !has_prefix(path@, "/c/"@),
        decreases n - i,
    {
        if !hex_digit(first.get_char(i)) {
            return false;
        }
        i = i + 1;
    }
    true
}

/// The path as written to the logs: image routes have their first segment (the
/// API key) replaced by `[REDACTED]`; API and CDN routes are kept.
pub open spec fn redacted_path(path: Seq<char>) -> Seq<char> {
    if !has_prefix(path, "/api/"@) && !has_prefix(path, "/c/"@) {
        match after_first(path) {
            Some(rest) => match find(rest, "/"@) {
                Some(k) => "/[REDACTED]"@ + rest.skip(k),
                None => "/[REDACTED]"@,
            },
            None => "/[REDACTED]"@,
        }
    } else {
        path
    }
}

/// Redacts the API key segment of an image route for logging.
pub fn redact_path(path: &str) -> (r: String)
    ensures
        r@ == redacted_path(path@),
{
    if !starts_with(path, "/api/") && !starts_with(path, "/c/") {
        match path_after_first(path) {
            Some(rest) => match find_str(rest, "/") {
                Some(pos) => {
                    proof {
                        lemma_find(rest@, "/"@);
                    }
                    let mut s = String::from_str("/[REDACTED]");
                    s.append(rest.substring_char(pos, rest.unicode_len()));
                    s
                },
                None => String::from_str("/[REDACTED]"),
            },
            None => String::from_str("/[REDACTED]"),
        }
    } else {
        path.to_owned()
    }
}

/// An image route's key never reaches the logs: the redacted form of a path
/// that is neither an API nor a CDN route starts with `/[REDACTED]` and keeps
/// nothing of the first segment.
pub proof fn lemma_redacted_hides_key(path: Seq<char>)
    requires
        !has_prefix(path, "/api/"@),
        !has_prefix(path, "/c/"@),
    ensures
        has_prefix(redacted_path(path), "/[REDACTED]"@),
        after_first(path) matches Some(rest) ==> redacted_path(path) == "/[REDACTED]"@ + rest.skip(
            first_segment(rest).len() as int,
        ),
{
    let r = redacted_path(path);
    match after_first(path) {
        Some(rest) => {
            crate::text::lemma_find(rest, "/"@);
            match find(rest, "/"@) {
                Some(k) => {
                    assert(r.take("/[REDACTED]"@.len() as int) =~= "/[REDACTED]"@);
                },
                None => {
                    assert(r.take("/[REDACTED]"@.len() as int) =~= "/[REDACTED]"@);
                    assert(rest.skip(rest.len() as int) =~= Seq::<char>::empty());
                    assert(r =~= "/[REDACTED]"@ + rest.skip(rest.len() as int));
                },
            }
        },
        None => {
            assert(r.take("/[REDACTED]"@.len() as int) =~= "/[REDACTED]"@);
        },
    }
}

} // verus!
