//! Origin checks for state-changing browser requests, and the protective response headers
//! every response carries.
//!
//! Demo mode requires the exact configured Origin on every state-changing request. Full mode
//! keeps CLI/curl compatibility (no Origin header at all is fine), accepts a
//! browser-controlled `same-origin` request when no explicit origin is pinned, rejects an
//! explicit `cross-site` one, and otherwise requires either the pinned Origin or an
//! automatic match against the request's Host.

use vstd::prelude::*;

use axum::http::uri::Authority;

use crate::error::ApiError;
use crate::policy::ServerMode;
use crate::text::{
    ascii_lowercase, char_is_whitespace, chars_contain, chars_eq, chars_eq_ignore_ascii_case,
    chars_have_whitespace, chars_of, eq_ignore_ascii_case, has_whitespace, lowercase_chars,
    needs_trim, opt_str_view, opt_view, starts_with, str_eq, str_starts_with,
};

verus! {

broadcast use vstd::seq_lib::group_seq_properties;

/// The host and port that `http::uri::Authority`'s `FromStr` parse of `s` yields (through
/// `Authority::host` and `Authority::port_u16`), or `None` when the parse fails.
pub uninterp spec fn authority_components(s: Seq<char>) -> Option<(Seq<char>, Option<u16>)>;

/// Parses `s` with `http::uri::Authority`'s `FromStr` and reads back its `host()` and
/// `port_u16()`. Trusted: the result is whatever the `http` crate's authority grammar
/// gives for `s`, named [`authority_components`]; nothing more is claimed of it.
#[verifier::external_body]
fn authority_parts(s: &str) -> (r: Option<(String, Option<u16>)>)
    ensures
        match r {
            Some((host, port)) => authority_components(s@) == Some((host@, port)),
            None => authority_components(s@) is None,
        },
{
    match s.parse::<Authority>() {
        Ok(authority) => Some((authority.host().to_string(), authority.port_u16())),
        Err(_) => None,
    }
}

/// A parsed `host[:port]` authority, host lowered to ASCII lower case.
#[derive(Debug, PartialEq, Eq)]
pub struct ParsedAuthority {
    pub host: Vec<char>,
    pub port: Option<u16>,
}

/// A parsed `http://` or `https://` origin.
#[derive(Debug, PartialEq, Eq)]
pub struct ParsedHttpOrigin {
    pub https: bool,
    pub authority: ParsedAuthority,
}

pub struct AuthorityView {
    pub host: Seq<char>,
    pub port: Option<u16>,
}

pub struct OriginView {
    pub https: bool,
    pub authority: AuthorityView,
}

impl View for ParsedAuthority {
    type V = AuthorityView;

    open spec fn view(&self) -> AuthorityView {
        AuthorityView { host: self.host@, port: self.port }
    }
}

impl View for ParsedHttpOrigin {
    type V = OriginView;

    open spec fn view(&self) -> OriginView {
        OriginView { https: self.https, authority: self.authority@ }
    }
}

/// `value` as an authority: non-empty, not padded with white space, accepted by the
/// `http` crate's authority grammar with a non-empty host; the host is lowered.
pub open spec fn parse_authority_spec(value: Seq<char>) -> Option<AuthorityView> {
    if value.len() == 0 || needs_trim(value) {
        None
    } else {
        match authority_components(value) {
            None => None,
            Some((host, port)) => if host.len() == 0 {
                None
            } else {
                Some(AuthorityView { host: ascii_lowercase(host), port })
            },
        }
    }
}

/// Whether `"://"` starts at index `i` of `s`.
pub open spec fn scheme_separator_at(s: Seq<char>, i: int) -> bool {
    0 <= i && i + 3 <= s.len() && s[i] == ':' && s[i + 1] == '/' && s[i + 2] == '/'
}

/// The first index at or after `i` where `"://"` starts.
pub open spec fn find_separator_from(s: Seq<char>, i: int) -> Option<int>
    decreases s.len() - i,
{
    if i < 0 || i + 3 > s.len() {
        None
    } else if scheme_separator_at(s, i) {
        Some(i)
    } else {
        find_separator_from(s, i + 1)
    }
}

/// Whether `s` contains a character that may not appear in an origin's authority.
pub open spec fn has_forbidden_authority_char(s: Seq<char>) -> bool {
    s.contains('/') || s.contains('?') || s.contains('#') || s.contains('@')
}

/// `origin` as an HTTP(S) origin: no white space anywhere, a scheme of `http` or `https`
/// (any ASCII case) before the first `"://"`, and a non-empty authority without a path,
/// query, fragment or user info.
pub open spec fn parse_http_origin_spec(origin: Seq<char>) -> Option<OriginView> {
    if has_whitespace(origin) {
        None
    } else {
        match find_separator_from(origin, 0) {
            None => None,
            Some(i) => {
                let scheme = origin.subrange(0, i);
                let authority = origin.subrange(i + 3, origin.len() as int);
                if !eq_ignore_ascii_case(scheme, "https"@) && !eq_ignore_ascii_case(scheme, "http"@) {
                    None
                } else if authority.len() == 0 || has_forbidden_authority_char(authority) {
                    None
                } else {
                    match parse_authority_spec(authority) {
                        None => None,
                        Some(a) => Some(
                            OriginView { https: eq_ignore_ascii_case(scheme, "https"@), authority: a },
                        ),
                    }
                }
            },
        }
    }
}

/// The port an origin names, or its scheme's default.
pub open spec fn port_or_default(port: Option<u16>, https: bool) -> u16 {
    match port {
        Some(p) => p,
        None => if https {
            443
        } else {
            80
        },
    }
}

/// Whether `origin` parses and names the same host and the same effective port as `host`.
pub open spec fn origin_matches_host_spec(origin: Seq<char>, host: AuthorityView) -> bool {
    match parse_http_origin_spec(origin) {
        None => false,
        Some(o) => o.authority.host == host.host && port_or_default(o.authority.port, o.https)
            == port_or_default(host.port, o.https),
    }
}

proof fn lemma_separator_found(s: Seq<char>, j: int)
    ensures
        find_separator_from(s, j) matches Some(i) ==> j <= i && scheme_separator_at(s, i),
    decreases s.len() - j,
{
    if !(j < 0 || j + 3 > s.len()) && !scheme_separator_at(s, j) {
        lemma_separator_found(s, j + 1);
    }
}

fn find_separator(s: &Vec<char>) -> (r: Option<usize>)
    ensures
        match r {
            Some(i) => find_separator_from(s@, 0) == Some(i as int) && i + 3 <= s@.len(),
            None => find_separator_from(s@, 0) is None,
        },
{
    let mut i: usize = 0;
    while i < s.len() && s.len() - i >= 3
        invariant
            i <= s@.len(),
            find_separator_from(s@, 0) == find_separator_from(s@, i as int),
        decreases s@.len() - i,
    {
        if s[i] == ':' && s[i + 1] == '/' && s[i + 2] == '/' {
            return Some(i);
        }
        i = i + 1;
    }
    None
}

/// Parses a `host[:port]` authority (a Host header value, or an origin's authority).
pub fn parse_authority(value: &str) -> (r: Option<ParsedAuthority>)
    ensures
        match r {
            Some(a) => parse_authority_spec(value@) == Some(a@),
            None => parse_authority_spec(value@) is None,
        },
{
    let chars = chars_of(value);
    if chars.len() == 0 || char_is_whitespace(chars[0]) || char_is_whitespace(
        chars[chars.len() - 1],
    ) {
        return None;
    }
    match authority_parts(value) {
        None => None,
        Some((host, port)) => {
            let host_chars = chars_of(host.as_str());
            if host_chars.len() == 0 {
                return None;
            }
            let lowered = lowercase_chars(&host_chars);
            Some(ParsedAuthority { host: lowered, port })
        },
    }
}

/// Parses an `http://` or `https://` origin.
pub fn parse_http_origin(origin: &str) -> (r: Option<ParsedHttpOrigin>)
    ensures
        match r {
            Some(o) => parse_http_origin_spec(origin@) == Some(o@),
            None => parse_http_origin_spec(origin@) is None,
        },
{
    let chars = chars_of(origin);
    if chars_have_whitespace(chars.as_slice()) {
        return None;
    }
    let sep = match find_separator(&chars) {
        Some(i) => i,
        None => return None,
    };
    let scheme = &chars.as_slice()[0..sep];
    proof {
        assert(scheme@ == origin@.subrange(0, sep as int));
    }
    let https = if chars_eq_ignore_ascii_case(scheme, "https") {
        true
    } else if chars_eq_ignore_ascii_case(scheme, "http") {
        false
    } else {
        return None;
    };
    let rest = &chars.as_slice()[sep + 3..chars.len()];
    proof {
        assert(rest@ == origin@.subrange(sep + 3, origin@.len() as int));
    }
    if rest.len() == 0 || chars_contain(rest, '/') || chars_contain(rest, '?') || chars_contain(
        rest,
        '#',
    ) || chars_contain(rest, '@') {
        return None;
    }
    let authority_text = origin.substring_char(sep + 3, chars.len());
    match parse_authority(authority_text) {
        None => None,
        Some(authority) => Some(ParsedHttpOrigin { https, authority }),
    }
}

/// Whether `origin` names the same host and effective port as the request's `host`.
pub fn origin_matches_host(origin: &str, host: &ParsedAuthority) -> (r: bool)
    ensures
        r == origin_matches_host_spec(origin@, host@),
{
    let parsed = match parse_http_origin(origin) {
        Some(o) => o,
        None => return false,
    };
    if !chars_eq(parsed.authority.host.as_slice(), host.host.as_slice()) {
        return false;
    }
    let default_port: u16 = if parsed.https {
        443
    } else {
        80
    };
    let origin_port = match parsed.authority.port {
        Some(p) => p,
        None => default_port,
    };
    let host_port = match host.port {
        Some(p) => p,
        None => default_port,
    };
    origin_port == host_port
}


/// The request headers that the origin check reads, each value already decoded as
/// visible ASCII (`None` where a value is not).
pub struct OriginHeaders {
    /// Every `Origin` value, in order.
    pub origins: Vec<Option<String>>,
    /// The first `Sec-Fetch-Site` value, if any.
    pub fetch_site: Option<String>,
    /// The first `Host` value, if any.
    pub host: Option<String>,
}

pub struct OriginHeadersView {
    pub origins: Seq<Option<Seq<char>>>,
    pub fetch_site: Option<Seq<char>>,
    pub host: Option<Seq<char>>,
}

impl View for OriginHeaders {
    type V = OriginHeadersView;

    open spec fn view(&self) -> OriginHeadersView {
        OriginHeadersView {
            origins: self.origins@.map_values(|o: Option<String>| opt_view(o)),
            fetch_site: opt_view(self.fetch_site),
            host: opt_view(self.host),
        }
    }
}

/// The one Origin a request carries: `Some(None)` with no Origin header (or one that is not
/// visible ASCII), `None` when the header is repeated, which is always refused.
pub open spec fn single_origin(origins: Seq<Option<Seq<char>>>) -> Option<Option<Seq<char>>> {
    if origins.len() == 0 {
        Some(None)
    } else if origins.len() == 1 {
        Some(origins[0])
    } else {
        None
    }
}

/// A pinned origin admits a request only when it is itself a valid origin and the request
/// carries exactly it.
pub open spec fn pinned_origin_admits(configured: Seq<char>, origin: Option<Seq<char>>) -> bool {
    parse_http_origin_spec(configured) is Some && origin == Some(configured)
}

/// Whether a state-changing request with these headers is admitted.
pub open spec fn origin_is_allowed_spec(
    mode: ServerMode,
    headers: OriginHeadersView,
    configured: Option<Seq<char>>,
) -> bool {
    match single_origin(headers.origins) {
        None => false,
        Some(origin) => if mode == ServerMode::Demo {
            origin is Some && configured == origin
        } else if headers.fetch_site matches Some(f) && eq_ignore_ascii_case(f, "cross-site"@) {
            false
        } else if headers.fetch_site matches Some(f) && eq_ignore_ascii_case(f, "same-origin"@) {
            match configured {
                Some(c) => pinned_origin_admits(c, origin),
                None => origin matches Some(o) && parse_http_origin_spec(o) is Some,
            }
        } else if origin is None {
            true
        } else {
            match configured {
                Some(c) => pinned_origin_admits(c, origin),
                None => match headers.host {
                    None => false,
                    Some(h) => match parse_authority_spec(h) {
                        None => false,
                        Some(a) => origin_matches_host_spec(origin->0, a),
                    },
                },
            }
        },
    }
}

fn pinned_admits(configured: &str, origin: Option<&str>) -> (r: bool)
    ensures
        r == pinned_origin_admits(configured@, opt_str_view(origin)),
{
    if parse_http_origin(configured).is_none() {
        return false;
    }
    match origin {
        Some(o) => str_eq(configured, o),
        None => false,
    }
}

/// Decides whether a state-changing request is admitted; see the module documentation for
/// the rules of each mode.
pub fn origin_is_allowed(
    mode: ServerMode,
    headers: &OriginHeaders,
    configured_origin: Option<&str>,
) -> (r: bool)
    ensures
        r == origin_is_allowed_spec(mode, headers@, opt_str_view(configured_origin)),
{
    let origin: Option<&str> = if headers.origins.len() == 0 {
        None
    } else if headers.origins.len() == 1 {
        match &headers.origins[0] {
            Some(o) => Some(o.as_str()),
            None => None,
        }
    } else {
        return false;
    };
    proof {
        if headers.origins@.len() == 1 {
            assert(headers@.origins[0] == opt_view(headers.origins@[0]));
        }
        assert(single_origin(headers@.origins) == Some(opt_str_view(origin)));
    }
    if mode == ServerMode::Demo {
        return match (origin, configured_origin) {
            (Some(o), Some(c)) => str_eq(o, c),
            _ => false,
        };
    }
    let (cross_site, same_origin) = match &headers.fetch_site {
        Some(f) => {
            let fv = chars_of(f.as_str());
            (
                chars_eq_ignore_ascii_case(fv.as_slice(), "cross-site"),
                chars_eq_ignore_ascii_case(fv.as_slice(), "same-origin"),
            )
        },
        None => (false, false),
    };
    if cross_site {
        return false;
    }
    if same_origin {
        return match configured_origin {
            Some(c) => pinned_admits(c, origin),
            None => match origin {
                Some(o) => parse_http_origin(o).is_some(),
                None => false,
            },
        };
    }
    let o = match origin {
        None => return true,
        Some(o) => o,
    };
    match configured_origin {
        Some(c) => pinned_admits(c, origin),
        None => match &headers.host {
            None => false,
            Some(h) => match parse_authority(h.as_str()) {
                None => false,
                Some(a) => origin_matches_host(o, &a),
            },
        },
    }
}

/// Whether a request method can change state: anything but `GET`, `HEAD` and `OPTIONS`.
pub fn is_state_changing(method: &str) -> (r: bool)
    ensures
        r == (method@ != "GET"@ && method@ != "HEAD"@ && method@ != "OPTIONS"@),
{
    !(str_eq(method, "GET") || str_eq(method, "HEAD") || str_eq(method, "OPTIONS"))
}

/// Whether a response is private and must not be cached or indexed: every Demo
/// response, and every `/api` response in Full mode.
pub fn response_is_private(mode: ServerMode, path: &str) -> (r: bool)
    ensures
        r == (mode == ServerMode::Demo || path@ == "/api"@ || starts_with(path@, "/api/"@)),
{
    mode == ServerMode::Demo || str_eq(path, "/api") || str_starts_with(path, "/api/")
}

/// Whether `path` is the API documentation page (the one Full-mode page served without a
/// content security policy).
pub fn is_scalar_docs(path: &str) -> (r: bool)
    ensures
        r == (path@ == "/api/docs"@ || starts_with(path@, "/api/docs/"@)),
{
    str_eq(path, "/api/docs") || str_starts_with(path, "/api/docs/")
}

/// How the origin-and-headers middleware treats one request.
#[derive(Debug, Clone, Copy, PartialEq, Eq, Structural)]
pub struct ResponsePolicy {
    /// Answer 403 instead of running the handler.
    pub reject: bool,
    /// Send the content security policy.
    pub include_csp: bool,
    /// Send the private no-store / no-index headers.
    pub private_response: bool,
}

/// Decides whether to reject a request and which protective headers its response gets.
pub fn response_policy(
    mode: ServerMode,
    method: &str,
    path: &str,
    headers: &OriginHeaders,
    configured_origin: Option<&str>,
) -> (r: ResponsePolicy)
    ensures
        r.reject == ((method@ != "GET"@ && method@ != "HEAD"@ && method@ != "OPTIONS"@)
            && !origin_is_allowed_spec(mode, headers@, opt_str_view(configured_origin))),
        r.include_csp == (mode == ServerMode::Demo || !(path@ == "/api/docs"@ || starts_with(
            path@,
            "/api/docs/"@,
        ))),
        r.private_response == (mode == ServerMode::Demo || path@ == "/api"@ || starts_with(
            path@,
            "/api/"@,
        )),
{
    let private_response = response_is_private(mode, path);
    let include_csp = mode == ServerMode::Demo || !is_scalar_docs(path);
    let reject = is_state_changing(method) && !origin_is_allowed(mode, headers, configured_origin);
    ResponsePolicy { reject, include_csp, private_response }
}

/// The 403 answering a state-changing request that [`response_policy`] rejects.
pub fn cross_origin_rejected() -> (r: ApiError)
    ensures
        r matches ApiError::Forbidden(m) && m@ == "cross-origin request rejected"@,
{
    ApiError::Forbidden(String::from_str("cross-origin request rejected"))
}

/// The content security policy sent with every response except Full mode's docs page.
pub const CONTENT_SECURITY_POLICY: &'static str = "default-src 'self'; script-src 'self'; style-src 'self'; style-src-attr 'unsafe-inline'; connect-src 'self'; img-src 'self'; font-src 'self'; object-src 'none'; base-uri 'self'; frame-ancestors 'none'; form-action 'self'";

/// The permissions policy sent with every response.
pub const PERMISSIONS_POLICY: &'static str = "accelerometer=(), autoplay=(), camera=(), clipboard-read=(), clipboard-write=(), display-capture=(), encrypted-media=(), fullscreen=(), geolocation=(), gyroscope=(), magnetometer=(), microphone=(), midi=(), payment=(), picture-in-picture=(), publickey-credentials-get=(), screen-wake-lock=(), usb=(), web-share=(), xr-spatial-tracking=()";

/// The baseline browser-protection headers, as `(name, value)` pairs to insert; the
/// content security policy comes first when requested.
pub fn security_headers(include_csp: bool) -> (r: Vec<(&'static str, &'static str)>)
    ensures
        r@.len() == if include_csp {
            7nat
        } else {
            6nat
        },
        include_csp ==> r@[0] == ("content-security-policy", CONTENT_SECURITY_POLICY),
        r@[r@.len() - 6] == ("x-frame-options", "DENY"),
        r@[r@.len() - 5] == ("x-content-type-options", "nosniff"),
        r@[r@.len() - 4] == ("referrer-policy", "no-referrer"),
        r@[r@.len() - 3] == ("cross-origin-resource-policy", "same-origin"),
        r@[r@.len() - 2] == ("cross-origin-opener-policy", "same-origin"),
        r@[r@.len() - 1] == ("permissions-policy", PERMISSIONS_POLICY),
{
    let mut r: Vec<(&'static str, &'static str)> = Vec::new();
    if include_csp {
        r.push(("content-security-policy", CONTENT_SECURITY_POLICY));
    }
    r.push(("x-frame-options", "DENY"));
    r.push(("x-content-type-options", "nosniff"));
    r.push(("referrer-policy", "no-referrer"));
    r.push(("cross-origin-resource-policy", "same-origin"));
    r.push(("cross-origin-opener-policy", "same-origin"));
    r.push(("permissions-policy", PERMISSIONS_POLICY));
    r
}

/// The private-response headers: `cache-control` is replaced, `vary` gains `Cookie`, and
/// indexing is refused.
pub fn private_response_headers() -> (r: Vec<(&'static str, &'static str)>)
    ensures
        r@ == seq![
            ("cache-control", "no-store"),
            ("vary", "Cookie"),
            ("x-robots-tag", "noindex, nofollow, noarchive"),
        ],
{
    let mut r: Vec<(&'static str, &'static str)> = Vec::new();
    r.push(("cache-control", "no-store"));
    r.push(("vary", "Cookie"));
    r.push(("x-robots-tag", "noindex, nofollow, noarchive"));
    r
}

/// Law: in Demo mode a state-changing request is admitted exactly when it carries one
/// Origin header, decodable, equal to the configured origin.
pub proof fn law_demo_requires_exact_origin(
    headers: OriginHeadersView,
    configured: Option<Seq<char>>,
)
    ensures
        origin_is_allowed_spec(ServerMode::Demo, headers, configured) <==> (headers.origins.len()
            == 1 && headers.origins[0] is Some && configured == headers.origins[0]),
{
}

/// Law: in Full mode a request without any Origin header and without browser fetch
/// metadata (a CLI or curl client) is always admitted, and one that declares itself
/// `cross-site` never is.
pub proof fn law_full_mode_cli_and_cross_site(
    headers: OriginHeadersView,
    configured: Option<Seq<char>>,
)
    ensures
        (headers.origins.len() == 0 && headers.fetch_site is None) ==> origin_is_allowed_spec(
            ServerMode::Full,
            headers,
            configured,
        ),
        (headers.fetch_site matches Some(f) && eq_ignore_ascii_case(f, "cross-site"@))
            ==> !origin_is_allowed_spec(ServerMode::Full, headers, configured),
{
}

/// Law: a repeated Origin header is refused in every mode.
pub proof fn law_repeated_origin_refused(
    mode: ServerMode,
    headers: OriginHeadersView,
    configured: Option<Seq<char>>,
)
    requires
        headers.origins.len() > 1,
    ensures
        !origin_is_allowed_spec(mode, headers, configured),
{
}

} // verus!
