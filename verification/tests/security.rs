use bhtune_server::policy::ServerMode;
use bhtune_server::error::ApiError;
use bhtune_server::security::{
    cross_origin_rejected, is_scalar_docs, is_state_changing, origin_is_allowed, origin_matches_host, parse_authority, parse_http_origin,
    private_response_headers, response_is_private, response_policy, security_headers, OriginHeaders,
    CONTENT_SECURITY_POLICY, PERMISSIONS_POLICY,
};

fn headers(origins: &[&str], fetch_site: Option<&str>, host: Option<&str>) -> OriginHeaders {
    OriginHeaders {
        origins: origins.iter().map(|o| Some(o.to_string())).collect(),
        fetch_site: fetch_site.map(str::to_string),
        host: host.map(str::to_string),
    }
}

#[test]
fn demo_origin_check_requires_an_exact_match_and_rejects_missing_origin() {
    let demo = "https://bhtunedemo.bytehound.ca";
    assert!(origin_is_allowed(ServerMode::Demo, &headers(&[demo], None, None), Some(demo)));
    assert!(!origin_is_allowed(
        ServerMode::Demo,
        &headers(&["https://bhtunedemo.bytehound.ca.attacker.example"], None, None),
        Some(demo)
    ));
    let http = headers(&["http://bhtunedemo.bytehound.ca"], None, None);
    assert!(!origin_is_allowed(ServerMode::Demo, &http, Some(demo)));
    assert!(!origin_is_allowed(ServerMode::Demo, &http, None));
    assert!(!origin_is_allowed(ServerMode::Demo, &headers(&[], None, None), Some(demo)));
    assert!(!origin_is_allowed(ServerMode::Demo, &headers(&[demo, demo], None, None), Some(demo)));
}

#[test]
fn full_mode_preserves_cli_and_vite_proxy_mutations() {
    let pinned = Some("http://127.0.0.1:8787");
    assert!(origin_is_allowed(ServerMode::Full, &headers(&[], None, None), pinned));
    assert!(!origin_is_allowed(ServerMode::Full, &headers(&[], Some("same-origin"), None), pinned));
    assert!(origin_is_allowed(
        ServerMode::Full,
        &headers(&["http://asus:5173"], Some("same-origin"), None),
        None
    ));
    assert!(!origin_is_allowed(
        ServerMode::Full,
        &headers(&["http://asus:5173"], Some("cross-site"), None),
        None
    ));
    assert!(!origin_is_allowed(ServerMode::Full, &headers(&[], Some("same-origin"), None), pinned));
}

#[test]
fn full_mode_without_configured_origin_matches_the_request_host() {
    assert!(origin_is_allowed(ServerMode::Full, &headers(&["http://GOA1:8787"], None, Some("goa1:8787")), None));
    assert!(origin_is_allowed(
        ServerMode::Full,
        &headers(&["http://GOA1:8787"], Some("same-site"), Some("goa1:8787")),
        None
    ));
    assert!(!origin_is_allowed(
        ServerMode::Full,
        &headers(&["http://goa1:80"], Some("same-site"), Some("goa1:8787")),
        None
    ));
    assert!(!origin_is_allowed(
        ServerMode::Full,
        &headers(&["http://goa1:8787"], Some("same-site"), Some("other.example:8787")),
        None
    ));
}

#[test]
fn full_mode_rejects_malformed_or_duplicate_automatic_origin_headers() {
    assert!(!origin_is_allowed(ServerMode::Full, &headers(&["goa1"], None, Some("goa1:8787")), None));
    assert!(!origin_is_allowed(
        ServerMode::Full,
        &headers(&["http://goa1", "http://goa1:8787"], None, Some("goa1:8787")),
        None
    ));
    assert!(!origin_is_allowed(ServerMode::Full, &headers(&["http://goa1:8787"], None, Some("[")), None));
}

#[test]
fn origin_parsers_reject_invalid_syntax() {
    assert!(parse_http_origin(" http://goa1:8787").is_none());
    assert!(parse_http_origin("ftp://goa1:8787").is_none());
    assert!(parse_http_origin("http://").is_none());
    assert!(parse_http_origin("http://goa1:8787/path").is_none());
    assert!(parse_http_origin("http://goa1:8787?query").is_none());
    assert!(parse_http_origin("http://goa1:8787#fragment").is_none());
    assert!(parse_http_origin("http://user@goa1:8787").is_none());

    assert!(parse_authority("").is_none());
    assert!(parse_authority(" ").is_none());
    assert!(parse_authority(":8787").is_none());
}

#[test]
fn full_mode_explicit_origin_remains_a_strict_override() {
    let host = Some("goa1:8787");
    let public = Some("https://public.example");
    assert!(origin_is_allowed(ServerMode::Full, &headers(&["https://public.example"], None, host), public));
    assert!(!origin_is_allowed(
        ServerMode::Full,
        &headers(&["https://public.example"], None, host),
        Some("https://other.example")
    ));
    assert!(!origin_is_allowed(ServerMode::Full, &headers(&["garbage"], None, host), Some("garbage")));
    assert!(origin_is_allowed(
        ServerMode::Full,
        &headers(&["https://public.example"], Some("same-origin"), host),
        public
    ));
    assert!(!origin_is_allowed(
        ServerMode::Full,
        &headers(&["http://goa1:8787"], Some("same-origin"), host),
        public
    ));
}

#[test]
fn full_mode_accepts_cli_requests_without_origin_but_rejects_explicit_cross_site() {
    assert!(origin_is_allowed(ServerMode::Full, &headers(&[], None, None), None));
    assert!(origin_is_allowed(ServerMode::Full, &headers(&[], Some("same-site"), None), None));
    assert!(!origin_is_allowed(ServerMode::Full, &headers(&[], Some("cross-site"), None), None));
}

#[test]
fn undecodable_origin_is_treated_as_absent_but_never_satisfies_the_demo() {
    let undecodable = OriginHeaders {
        origins: vec![None],
        fetch_site: None,
        host: None,
    };
    assert!(origin_is_allowed(ServerMode::Full, &undecodable, None));
    assert!(!origin_is_allowed(ServerMode::Demo, &undecodable, Some("https://demo.test")));
}

#[test]
fn fetch_site_is_compared_without_regard_to_ascii_case() {
    assert!(!origin_is_allowed(ServerMode::Full, &headers(&[], Some("Cross-Site"), None), None));
}

#[test]
fn parsed_origins_and_authorities_carry_lowercase_hosts_and_ports() {
    let origin = parse_http_origin("https://Public.Example:8443").unwrap();
    assert!(origin.https);
    assert_eq!(origin.authority.host.iter().collect::<String>(), "public.example");
    assert_eq!(origin.authority.port, Some(8443));
    let authority = parse_authority("GOA1:8787").unwrap();
    assert_eq!(authority.host.iter().collect::<String>(), "goa1");
    assert_eq!(authority.port, Some(8787));
    assert!(origin_matches_host("http://goa1", &parse_authority("goa1:80").unwrap()));
    assert!(origin_matches_host("https://goa1", &parse_authority("goa1:443").unwrap()));
    assert!(!origin_matches_host("https://goa1", &parse_authority("goa1:80").unwrap()));
}

#[test]
fn private_and_documentation_paths_are_recognised() {
    assert!(response_is_private(ServerMode::Full, "/api"));
    assert!(response_is_private(ServerMode::Full, "/api/runs"));
    assert!(!response_is_private(ServerMode::Full, "/apix"));
    assert!(!response_is_private(ServerMode::Full, "/assets/index.js"));
    assert!(response_is_private(ServerMode::Demo, "/assets/index.js"));
    assert!(is_scalar_docs("/api/docs"));
    assert!(is_scalar_docs("/api/docs/openapi.json"));
    assert!(!is_scalar_docs("/api/docsx"));
    assert!(is_state_changing("POST"));
    assert!(is_state_changing("DELETE"));
    assert!(!is_state_changing("GET"));
    assert!(!is_state_changing("HEAD"));
    assert!(!is_state_changing("OPTIONS"));
}

#[test]
fn response_policy_rejects_cross_site_mutations_and_marks_private_responses() {
    let cross = headers(&[], Some("cross-site"), None);
    let policy = response_policy(ServerMode::Full, "POST", "/api/change", &cross, None);
    assert!(policy.reject);
    assert!(policy.include_csp);
    assert!(policy.private_response);
    let read = response_policy(ServerMode::Full, "GET", "/api/docs", &cross, None);
    assert!(!read.reject);
    assert!(!read.include_csp);
    let demo_docs = response_policy(ServerMode::Demo, "GET", "/api/docs", &cross, None);
    assert!(demo_docs.include_csp);
    assert!(demo_docs.private_response);
}

#[test]
fn security_headers_cover_the_baseline_protections() {
    let with_csp = security_headers(true);
    assert_eq!(with_csp.len(), 7);
    assert_eq!(with_csp[0], ("content-security-policy", CONTENT_SECURITY_POLICY));
    assert_eq!(with_csp[6], ("permissions-policy", PERMISSIONS_POLICY));
    let without = security_headers(false);
    assert_eq!(without.len(), 6);
    assert_eq!(without[0], ("x-frame-options", "DENY"));
    assert_eq!(
        private_response_headers(),
        vec![("cache-control", "no-store"), ("vary", "Cookie"), ("x-robots-tag", "noindex, nofollow, noarchive")]
    );
}

/// The headers a response ends up with under `policy`: the baseline protections, then the
/// private ones, with `vary` appended to what the handler set.
fn response_headers(include_csp: bool, private: bool, handler: &[(&'static str, &'static str)]) -> Vec<(&'static str, &'static str)> {
    let mut out: Vec<(&'static str, &'static str)> = handler.to_vec();
    let mut set = |pairs: Vec<(&'static str, &'static str)>, append_vary: bool| {
        for (name, value) in pairs {
            if !(append_vary && name == "vary") {
                out.retain(|(n, _)| *n != name);
            }
            out.push((name, value));
        }
    };
    set(security_headers(include_csp), false);
    if private {
        set(private_response_headers(), true);
    }
    out
}

fn header<'a>(headers: &'a [(&'static str, &'static str)], name: &str) -> Option<&'a str> {
    headers.iter().find(|(n, _)| *n == name).map(|(_, v)| *v)
}

const DEMO_ORIGIN: &str = "https://bhtunedemo.bytehound.ca";

#[test]
fn demo_mutation_requires_the_configured_origin() {
    let missing = response_policy(ServerMode::Demo, "POST", "/api/change", &headers(&[], None, None), Some(DEMO_ORIGIN));
    assert!(missing.reject);
    let answered = response_headers(missing.include_csp, missing.private_response, &[]);
    assert_eq!(header(&answered, "cache-control"), Some("no-store"));
    assert_eq!(header(&answered, "x-frame-options"), Some("DENY"));
    match cross_origin_rejected() {
        ApiError::Forbidden(message) => assert_eq!(message, "cross-origin request rejected"),
        other => panic!("unexpected {other:?}"),
    }
    let response = cross_origin_rejected().into_response_parts();
    assert_eq!(response.status, 403);

    let exact = response_policy(ServerMode::Demo, "POST", "/api/change", &headers(&[DEMO_ORIGIN], None, None), Some(DEMO_ORIGIN));
    assert!(!exact.reject);
}

#[test]
fn full_mode_allows_vite_proxy_mutations_without_widening_cross_site_access() {
    let cli = response_policy(ServerMode::Full, "POST", "/api/change", &headers(&[], None, None), None);
    assert!(!cli.reject);
    let vite = response_policy(
        ServerMode::Full,
        "POST",
        "/api/change",
        &headers(&["http://asus:5173"], Some("same-origin"), None),
        None,
    );
    assert!(!vite.reject);
    let cross_site = response_policy(
        ServerMode::Full,
        "POST",
        "/api/change",
        &headers(&["https://attacker.example"], Some("cross-site"), None),
        None,
    );
    assert!(cross_site.reject);
}

#[test]
fn full_mode_automatic_origin_allows_same_host_mutations() {
    let same_host = response_policy(
        ServerMode::Full,
        "POST",
        "/api/change",
        &headers(&["http://goa1:8787"], None, Some("goa1:8787")),
        None,
    );
    assert!(!same_host.reject);
    let wrong_host = response_policy(
        ServerMode::Full,
        "POST",
        "/api/change",
        &headers(&["http://goa1:8787"], None, Some("other.example:8787")),
        None,
    );
    assert!(wrong_host.reject);
}

#[test]
fn full_mode_explicit_origin_stays_pinned_in_the_middleware() {
    let pinned = Some("https://public.example");
    let exact = response_policy(ServerMode::Full, "POST", "/api/change", &headers(&["https://public.example"], None, None), pinned);
    assert!(!exact.reject);
    let same_host_but_not_pinned = response_policy(
        ServerMode::Full,
        "POST",
        "/api/change",
        &headers(&["http://goa1:8787"], None, Some("goa1:8787")),
        pinned,
    );
    assert!(same_host_but_not_pinned.reject);
}

#[test]
fn protected_responses_receive_security_headers_without_enabling_cors() {
    let policy = response_policy(ServerMode::Demo, "GET", "/api/protected", &headers(&[], None, None), Some(DEMO_ORIGIN));
    assert!(!policy.reject);
    let answered = response_headers(policy.include_csp, policy.private_response, &[("vary", "Accept-Encoding")]);
    assert_eq!(header(&answered, "cache-control"), Some("no-store"));
    let vary: Vec<&str> = answered.iter().filter(|(n, _)| *n == "vary").map(|(_, v)| *v).collect();
    assert_eq!(vary, ["Accept-Encoding", "Cookie"]);
    assert_eq!(header(&answered, "x-frame-options"), Some("DENY"));
    assert_eq!(header(&answered, "x-content-type-options"), Some("nosniff"));
    assert_eq!(header(&answered, "referrer-policy"), Some("no-referrer"));
    assert_eq!(header(&answered, "cross-origin-resource-policy"), Some("same-origin"));
    assert_eq!(header(&answered, "cross-origin-opener-policy"), Some("same-origin"));
    assert_eq!(header(&answered, "x-robots-tag"), Some("noindex, nofollow, noarchive"));
    assert!(header(&answered, "permissions-policy").unwrap().contains("camera=()"));
    let csp = header(&answered, "content-security-policy").unwrap();
    for directive in [
        "script-src 'self'",
        "style-src 'self'",
        "style-src-attr 'unsafe-inline'",
        "connect-src 'self'",
        "img-src 'self'",
        "font-src 'self'",
        "object-src 'none'",
        "base-uri 'self'",
        "frame-ancestors 'none'",
    ] {
        assert!(csp.contains(directive), "missing CSP directive: {directive}");
    }
    assert!(header(&answered, "access-control-allow-origin").is_none());
    assert!(header(&answered, "access-control-allow-credentials").is_none());
}

#[test]
fn full_mode_preserves_scalar_without_weakening_demo_csp() {
    let full = response_policy(ServerMode::Full, "GET", "/api/docs", &headers(&[], None, None), None);
    let answered = response_headers(full.include_csp, full.private_response, &[]);
    assert!(header(&answered, "content-security-policy").is_none());
    assert_eq!(header(&answered, "x-frame-options"), Some("DENY"));
    let demo = response_policy(ServerMode::Demo, "GET", "/api/docs", &headers(&[], None, None), Some(DEMO_ORIGIN));
    let answered = response_headers(demo.include_csp, demo.private_response, &[]);
    assert!(header(&answered, "content-security-policy").is_some());
}

#[test]
fn full_mode_api_responses_receive_private_response_headers() {
    let policy = response_policy(ServerMode::Full, "GET", "/api/protected", &headers(&[], None, None), None);
    let answered = response_headers(policy.include_csp, policy.private_response, &[]);
    assert_eq!(header(&answered, "cache-control"), Some("no-store"));
    assert_eq!(header(&answered, "x-robots-tag"), Some("noindex, nofollow, noarchive"));
}

#[test]
fn demo_static_responses_are_private_and_no_index() {
    let policy = response_policy(ServerMode::Demo, "GET", "/asset.js", &headers(&[], None, None), Some(DEMO_ORIGIN));
    let answered = response_headers(policy.include_csp, policy.private_response, &[("cache-control", "public, immutable")]);
    assert_eq!(header(&answered, "cache-control"), Some("no-store"));
    assert_eq!(header(&answered, "x-robots-tag"), Some("noindex, nofollow, noarchive"));
    assert!(header(&answered, "content-security-policy").is_some());
}

#[test]
fn full_mode_keeps_non_api_asset_caching_unchanged() {
    let policy = response_policy(ServerMode::Full, "GET", "/asset.js", &headers(&[], None, None), None);
    let answered = response_headers(policy.include_csp, policy.private_response, &[("cache-control", "public, immutable")]);
    assert_eq!(header(&answered, "cache-control"), Some("public, immutable"));
    assert!(header(&answered, "content-security-policy").is_some());
    assert!(header(&answered, "x-robots-tag").is_none());
}
