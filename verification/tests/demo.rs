use bhtune_server::policy::DemoPolicy;
use bhtune_server::routes::demo::{
    client_ip, cookie_token, forwarded_candidate, proxy_setting_text, quota_ip, trusted_proxy, valid_token,
    IpAddress, ProxyRule, FORWARDED_CLIENT_IP_HEADER,
};
use bhtune_server::routes::session::{
    parsed_token_hash, session_cookie_header, session_cookie_value, token_hash, DEMO_COOKIE_NAME,
};

fn parse_v4(text: &str) -> Option<u32> {
    let parts: Vec<&str> = text.split('.').collect();
    if parts.len() != 4 {
        return None;
    }
    let mut value: u32 = 0;
    for part in parts {
        if part.is_empty() || part.len() > 3 || !part.bytes().all(|b| b.is_ascii_digit()) {
            return None;
        }
        let octet: u32 = part.parse().ok()?;
        if octet > 255 {
            return None;
        }
        value = (value << 8) | octet;
    }
    Some(value)
}

fn parse_v6_groups(text: &str) -> Option<Vec<u16>> {
    if text.is_empty() {
        return Some(Vec::new());
    }
    text.split(':')
        .map(|group| {
            if group.is_empty() || group.len() > 4 {
                None
            } else {
                u16::from_str_radix(group, 16).ok()
            }
        })
        .collect()
}

fn parse_v6(text: &str) -> Option<u128> {
    let groups: Vec<u16> = match text.split_once("::") {
        Some((head, tail)) => {
            let head = parse_v6_groups(head)?;
            let tail = parse_v6_groups(tail)?;
            if head.len() + tail.len() > 7 {
                return None;
            }
            let mut all = head;
            all.resize(8 - tail.len(), 0);
            all.extend(tail);
            all
        }
        None => parse_v6_groups(text)?,
    };
    if groups.len() != 8 {
        return None;
    }
    Some(groups.iter().fold(0u128, |acc, g| (acc << 16) | u128::from(*g)))
}

fn ip(text: &str) -> Option<IpAddress> {
    if text.contains(':') {
        parse_v6(text).map(IpAddress::V6)
    } else {
        parse_v4(text).map(IpAddress::V4)
    }
}

fn rule(setting: &str) -> Option<ProxyRule> {
    let texts = proxy_setting_text(setting);
    Some(ProxyRule {
        address: ip(&texts.address),
        network: texts.network.map(|(network, bits)| (ip(&network), bits)),
    })
}

fn forwarded(values: &[&str]) -> Option<IpAddress> {
    let values: Vec<Option<String>> = values.iter().map(|v| Some(v.to_string())).collect();
    forwarded_candidate(&values).and_then(|text| ip(&text))
}

fn raw_token(seed: &str) -> String {
    seed.repeat(64 / seed.len())
}

fn cookie_headers(values: &[&str]) -> Vec<Option<String>> {
    values.iter().map(|v| Some(v.to_string())).collect()
}

fn policy() -> DemoPolicy {
    DemoPolicy {
        max_active_runs_global: 4,
        max_active_runs_per_visitor: 1,
        max_runs_per_session: 20,
        accepted_starts_per_token: 3,
        accepted_starts_per_client_ip: 6,
        accepted_start_window_secs: 3600,
        retained_runs_per_visitor: 10,
        max_tune_run_rows_global: 1000,
        max_json_body_bytes: 16384,
        max_sse_per_visitor: 2,
        max_sse_global: 32,
        sse_lifetime_secs: 900,
        ordinary_request_concurrency: 64,
        ordinary_request_timeout_secs: 10,
        session_ttl_secs: 86400,
        run_timeout_secs: 600,
        poll_interval_ms: 500,
        cleanup_interval_secs: 300,
    }
}

#[test]
fn trusted_proxy_and_dedicated_client_ip_rules_fail_closed_and_bucket_ipv6() {
    let peer = ip("10.0.0.4").unwrap();
    assert!(trusted_proxy(peer, rule("10.0.0.4")));
    assert!(!trusted_proxy(peer, rule("10.0.0.5")));
    assert!(trusted_proxy(peer, rule("10.0.0.0/24")));
    assert!(trusted_proxy(peer, rule("0.0.0.0/0")));
    assert!(!trusted_proxy(peer, rule("10.0.1.0/24")));
    assert!(!trusted_proxy(peer, rule("not-a-proxy")));
    assert!(!trusted_proxy(peer, rule("10.0.0.0/not-bits")));
    assert!(!trusted_proxy(peer, rule("2001:db8::/32")));
    assert!(trusted_proxy(ip("2001:db8::4").unwrap(), rule("2001:db8::/32")));
    assert!(trusted_proxy(ip("2001:db8::4").unwrap(), rule("::/0")));

    assert_eq!(client_ip(peer, rule("10.0.0.0/24"), forwarded(&["198.51.100.7"])), "198.51.100.7");
    assert_eq!(client_ip(peer, None, forwarded(&["198.51.100.7"])), "10.0.0.4");
    assert_eq!(
        client_ip(peer, rule("10.0.0.0/24"), forwarded(&["198.51.100.7, 203.0.113.9"])),
        "10.0.0.4"
    );
    assert_eq!(client_ip(peer, rule("10.0.0.0/24"), forwarded(&["not-an-ip"])), "10.0.0.4");
    assert_eq!(
        client_ip(peer, rule("10.0.0.0/24"), forwarded(&["198.51.100.7", "203.0.113.9"])),
        "10.0.0.4"
    );
    assert_eq!(client_ip(peer, rule("10.0.0.0/24"), forwarded(&[])), "10.0.0.4");

    let ipv6_peer = ip("2001:db8:1:2:1234::1").unwrap();
    assert_eq!(client_ip(ipv6_peer, None, None), "2001:db8:1:2::/64");
    assert_eq!(
        client_ip(peer, rule("10.0.0.0/24"), forwarded(&["2001:db8:abcd:12:ffff::1"])),
        "2001:db8:abcd:12::/64"
    );
    assert_eq!(FORWARDED_CLIENT_IP_HEADER, "X-BHTune-Client-IP");
}

#[test]
fn cookie_parser_rejects_ambiguous_or_malformed_values() {
    let mut headers = cookie_headers(&[&format!("ignored; {DEMO_COOKIE_NAME}={}", raw_token("ab"))]);
    assert_eq!(cookie_token(&headers, DEMO_COOKIE_NAME).unwrap().unwrap(), raw_token("ab"));
    headers.push(Some(format!("{DEMO_COOKIE_NAME}={}", raw_token("cd"))));
    assert!(cookie_token(&headers, DEMO_COOKIE_NAME).is_err());

    let malformed = cookie_headers(&[&format!("{DEMO_COOKIE_NAME}=UPPERCASE")]);
    assert!(cookie_token(&malformed, DEMO_COOKIE_NAME).is_err());
    let undecodable: Vec<Option<String>> = vec![None];
    assert!(cookie_token(&undecodable, DEMO_COOKIE_NAME).is_err());
}

#[test]
fn session_cookie_header_reuses_valid_cookies_and_replaces_missing_or_invalid_ones() {
    let policy = policy();
    let mut headers: Vec<Option<String>> = Vec::new();
    let generated = session_cookie_header(&headers, DEMO_COOKIE_NAME, policy).unwrap().unwrap();
    assert!(generated.starts_with(&format!("{DEMO_COOKIE_NAME}=")));
    assert!(generated.contains("HttpOnly"));
    assert!(generated.contains("SameSite=Strict"));

    headers = cookie_headers(&[&format!("{DEMO_COOKIE_NAME}={}", raw_token("ab"))]);
    assert!(session_cookie_header(&headers, DEMO_COOKIE_NAME, policy).unwrap().is_none());

    headers = cookie_headers(&[&format!("{DEMO_COOKIE_NAME}=bad")]);
    assert!(session_cookie_header(&headers, DEMO_COOKIE_NAME, policy).unwrap().is_some());
}

#[test]
fn generated_session_cookies_carry_a_fresh_valid_token_and_the_fixed_attributes() {
    let first = session_cookie_header(&Vec::new(), DEMO_COOKIE_NAME, policy()).unwrap().unwrap();
    let second = session_cookie_header(&Vec::new(), DEMO_COOKIE_NAME, policy()).unwrap().unwrap();
    assert!(first.starts_with("__Host-bhtune_demo_session="));
    assert!(first.ends_with("; Path=/; Max-Age=86400; HttpOnly; SameSite=Strict; Secure"));
    let token = &first["__Host-bhtune_demo_session=".len()..first.find(';').unwrap()];
    assert!(valid_token(token));
    assert_ne!(first, second);
    let reread = cookie_headers(&[&format!("other=value; {}", &first[..first.find(';').unwrap()])]);
    assert_eq!(cookie_token(&reread, DEMO_COOKIE_NAME).unwrap().unwrap(), token);
}

#[test]
fn session_cookie_value_has_the_exact_shape() {
    assert_eq!(
        session_cookie_value("name", &[0x00, 0xab, 0xff], 5),
        "name=00abff; Path=/; Max-Age=5; HttpOnly; SameSite=Strict; Secure"
    );
}

#[test]
fn cookie_values_are_trimmed_segments_and_other_cookies_are_ignored() {
    let headers = cookie_headers(&[&format!("  a=b ;  {DEMO_COOKIE_NAME}={}  ; c", raw_token("0f"))]);
    assert_eq!(cookie_token(&headers, DEMO_COOKIE_NAME).unwrap().unwrap(), raw_token("0f"));
    assert_eq!(cookie_token(&cookie_headers(&["a=b; c=d"]), DEMO_COOKIE_NAME).unwrap(), None);
    assert_eq!(cookie_token(&Vec::new(), DEMO_COOKIE_NAME).unwrap(), None);
    let short = cookie_headers(&[&format!("{DEMO_COOKIE_NAME}={}", &raw_token("ab")[..62])]);
    assert!(cookie_token(&short, DEMO_COOKIE_NAME).is_err());
}

#[test]
fn token_hash_is_the_hex_sha256_of_the_token() {
    assert_eq!(token_hash(""), "e3b0c44298fc1c149afbf4c8996fb92427ae41e4649b934ca495991b7852b855");
    assert_eq!(token_hash("abc"), "ba7816bf8f01cfea414140de5dae2223b00361a396177a9cb410ff61f20015ad");
    assert_ne!(token_hash(&raw_token("ab")), raw_token("ab"));
}

#[test]
fn parsed_token_hash_distinguishes_missing_and_invalid_cookies() {
    let missing = parsed_token_hash(&Vec::new(), DEMO_COOKIE_NAME).unwrap_err().into_response_parts();
    assert_eq!(missing.status, 401);
    assert_eq!(missing.body.error, "a demo session cookie is required");
    let invalid = parsed_token_hash(&cookie_headers(&[&format!("{DEMO_COOKIE_NAME}=bad")]), DEMO_COOKIE_NAME)
        .unwrap_err()
        .into_response_parts();
    assert_eq!(invalid.status, 401);
    assert_eq!(invalid.body.error, "invalid demo session cookie");
    let ok = parsed_token_hash(
        &cookie_headers(&[&format!("{DEMO_COOKIE_NAME}={}", raw_token("ab"))]),
        DEMO_COOKIE_NAME,
    )
    .unwrap();
    assert_eq!(ok, token_hash(&raw_token("ab")));
}

#[test]
fn quota_keys_are_dotted_ipv4_and_ipv6_slash_64_networks() {
    assert_eq!(quota_ip(IpAddress::V4(0xC633_6407)), "198.51.100.7");
    assert_eq!(quota_ip(IpAddress::V4(0)), "0.0.0.0");
    assert_eq!(quota_ip(IpAddress::V6(0)), "::/64");
    assert_eq!(quota_ip(ip("2001:db8::1").unwrap()), "2001:db8::/64");
    assert_eq!(quota_ip(ip("fe80:0:0:1::").unwrap()), "fe80:0:0:1::/64");
}

#[test]
fn forwarded_header_must_be_single_unpadded_and_unlisted() {
    assert_eq!(forwarded_candidate(&vec![Some("198.51.100.7".to_string())]).as_deref(), Some("198.51.100.7"));
    assert_eq!(forwarded_candidate(&vec![Some(" 198.51.100.7".to_string())]), None);
    assert_eq!(forwarded_candidate(&vec![Some("198.51.100.7,".to_string())]), None);
    assert_eq!(forwarded_candidate(&vec![None]), None);
    assert_eq!(forwarded_candidate(&Vec::new()), None);
}

#[test]
fn proxy_setting_text_splits_address_network_and_prefix() {
    let texts = proxy_setting_text("  10.0.0.0/24 ");
    assert_eq!(texts.address, "10.0.0.0/24");
    assert_eq!(texts.network, Some(("10.0.0.0".to_string(), Some(24))));
    let exact = proxy_setting_text("10.0.0.4");
    assert_eq!(exact.address, "10.0.0.4");
    assert_eq!(exact.network, None);
    assert_eq!(proxy_setting_text("a/b").network, Some(("a".to_string(), None)));
    assert_eq!(proxy_setting_text("a/+7").network, Some(("a".to_string(), Some(7))));
}

#[test]
fn demo_capabilities_preserve_an_existing_valid_cookie() {
    let headers = cookie_headers(&[&format!("other=value; {DEMO_COOKIE_NAME}={}", "ab".repeat(32))]);
    assert!(session_cookie_header(&headers, DEMO_COOKIE_NAME, policy()).unwrap().is_none());
}

#[test]
fn demo_capabilities_replace_a_malformed_cookie() {
    let headers = cookie_headers(&[&format!("{DEMO_COOKIE_NAME}=invalid")]);
    assert!(session_cookie_header(&headers, DEMO_COOKIE_NAME, policy()).unwrap().is_some());
}

#[test]
fn shared_routes_require_a_cookie() {
    match parsed_token_hash(&Vec::new(), DEMO_COOKIE_NAME) {
        Err(error) => {
            let response = error.into_response_parts();
            assert_eq!(response.status, 401);
            assert_eq!(response.body.error, "a demo session cookie is required");
        }
        Ok(hash) => panic!("unexpected session key {hash}"),
    }
}
