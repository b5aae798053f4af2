//! Serving the built single-page web client as the fallback for every path the API does not
//! claim: which embedded file answers a path, and how long a browser may cache it.

use vstd::prelude::*;

use crate::text::chars_of;

verus! {

/// The client's entry point.
pub const INDEX_HTML: &'static str = "index.html";

/// The text answering every request while the client has not been built.
pub const NOT_BUILT_MESSAGE: &'static str = "the web UI has not been built yet -- run `pnpm install && pnpm run build` in frontend/, or run `pnpm run dev` there against this server for local frontend development";

/// `s` without its leading `/`s.
pub open spec fn without_leading_slashes(s: Seq<char>) -> Seq<char>
    decreases s.len(),
{
    if s.len() > 0 && s[0] == '/' {
        without_leading_slashes(s.drop_first())
    } else {
        s
    }
}

/// The embedded-file path a request path names: the path without its leading `/`s.
pub fn asset_path(uri_path: &str) -> (r: String)
    ensures
        r@ == without_leading_slashes(uri_path@),
{
    let chars = chars_of(uri_path);
    let mut i: usize = 0;
    proof {
        assert(chars@.subrange(0, chars@.len() as int) =~= chars@);
    }
    while i < chars.len() && chars[i] == '/'
        invariant
            i <= chars@.len(),
            chars@ == uri_path@,
            without_leading_slashes(uri_path@) == without_leading_slashes(chars@.subrange(i as int, chars@.len() as int)),
        decreases chars@.len() - i,
    {
        proof {
            let rest = chars@.subrange(i as int, chars@.len() as int);
            assert(rest.drop_first() =~= chars@.subrange(i + 1, chars@.len() as int));
        }
        i = i + 1;
    }
    let r = uri_path.substring_char(i, chars.len()).to_owned();
    proof {
        assert(r@ =~= chars@.subrange(i as int, chars@.len() as int));
    }
    r
}

/// Whether the last `/`-separated segment of `path` has a `.`: a path that looks like a
/// file.
pub open spec fn looks_like_file(path: Seq<char>) -> bool {
    exists|d: int|
        0 <= d < path.len() && path[d] == '.' && forall|m: int| d < m < path.len() ==> path[m] != '/'
}

/// What answers a request for the client.
#[derive(Debug, Clone, Copy, PartialEq, Eq, Structural)]
pub enum StaticTarget {
    /// 503: the client was never built.
    NotBuilt,
    /// The entry point, so the client's own routes resolve on a direct visit.
    Index,
    /// The embedded file the path names.
    Asset,
    /// 404: a missing file.
    NotFound,
}

/// The entry point when it is embedded, else a 404.
pub open spec fn index_or_missing(index_exists: bool) -> StaticTarget {
    if index_exists {
        StaticTarget::Index
    } else {
        StaticTarget::NotFound
    }
}

/// What answers `path` (without leading `/`s): nothing works before the client is built;
/// the root is the entry point; an existing embedded file is served as it is; a missing path
/// whose last segment has a `.` is a 404; any other path is a client route, answered with the
/// entry point. Where the entry point itself is missing, a 404.
pub open spec fn static_target_spec(
    path: Seq<char>,
    frontend_is_built: bool,
    asset_exists: bool,
    index_exists: bool,
) -> StaticTarget {
    if !frontend_is_built {
        StaticTarget::NotBuilt
    } else if path.len() == 0 {
        index_or_missing(index_exists)
    } else if asset_exists {
        StaticTarget::Asset
    } else if looks_like_file(path) {
        StaticTarget::NotFound
    } else {
        index_or_missing(index_exists)
    }
}

/// Whether the last segment of `path` has a `.`.
pub fn last_segment_has_dot(path: &str) -> (r: bool)
    ensures
        r == looks_like_file(path@),
{
    let chars = chars_of(path);
    let mut k: usize = chars.len();
    while k > 0
        invariant
            k <= chars@.len(),
            chars@ == path@,
            forall|m: int| k <= m < chars@.len() ==> chars@[m] != '/' && chars@[m] != '.',
        decreases k,
    {
        let c = chars[k - 1];
        if c == '.' {
            proof {
                assert(0 <= k - 1 < path@.len() && path@[k - 1] == '.' && forall|m: int|
                    k - 1 < m < path@.len() ==> path@[m] != '/');
            }
            return true;
        }
        if c == '/' {
            proof {
                assert forall|d: int| 0 <= d < path@.len() && path@[d] == '.' implies exists|m: int|
                    d < m < path@.len() && path@[m] == '/' by {
                    assert(d < k - 1);
                    assert(path@[k - 1] == '/');
                }
            }
            return false;
        }
        k = k - 1;
    }
    false
}

/// What answers `path` (without leading `/`s), given whether the client was built, whether
/// an embedded file has that path, and whether the entry point is embedded.
pub fn static_target(path: &str, frontend_is_built: bool, asset_exists: bool, index_exists: bool) -> (r:
    StaticTarget)
    ensures
        r == static_target_spec(path@, frontend_is_built, asset_exists, index_exists),
{
    let index = if index_exists {
        StaticTarget::Index
    } else {
        StaticTarget::NotFound
    };
    if !frontend_is_built {
        StaticTarget::NotBuilt
    } else if path.unicode_len() == 0 {
        index
    } else if asset_exists {
        StaticTarget::Asset
    } else if last_segment_has_dot(path) {
        StaticTarget::NotFound
    } else {
        index
    }
}

/// The `Cache-Control` of an embedded file: the entry point is revalidated on every load,
/// since it names the current build's files; every other file has a content-hashed name, so
/// it may be cached for a year and never revalidated.
pub open spec fn cache_control_text(path: Seq<char>) -> Seq<char> {
    if path == INDEX_HTML@ {
        "no-cache"@
    } else {
        "public, max-age=31536000, immutable"@
    }
}

/// The `Cache-Control` of the embedded file at `path`.
pub fn cache_control(path: &str) -> (r: &'static str)
    ensures
        r@ == cache_control_text(path@),
{
    if crate::text::str_eq(path, INDEX_HTML) {
        "no-cache"
    } else {
        "public, max-age=31536000, immutable"
    }
}

} // verus!
