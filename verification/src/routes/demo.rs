//! Who a public Demo visitor is: the client address its accepted starts are counted
//! against (the trusted-proxy rule, the forwarded-client header and IPv6 `/64` buckets), and
//! the session token its `Cookie` header carries.

use vstd::prelude::*;

use crate::text::{
    chars_contain, chars_eq, chars_of, decimal, find_char, hex_digit, index_of, index_of_from,
    lemma_index_of_from, needs_trim, parse_u32, parse_u32_spec, push_decimal, trim, trim_bounds,
};

verus! {

broadcast use vstd::seq_lib::group_seq_properties;

/// The header a trusted reverse proxy passes the Demo client's address in.
pub const FORWARDED_CLIENT_IP_HEADER: &'static str = "X-BHTune-Client-IP";

/// An IP address, as its 32- or 128-bit integer.
#[derive(Debug, Clone, Copy, PartialEq, Eq, Structural)]
pub enum IpAddress {
    V4(u32),
    V6(u128),
}

/// The dotted-decimal text of an IPv4 address.
pub open spec fn ipv4_text(a: u32) -> Seq<char> {
    decimal((a / 0x100_0000) as nat) + seq!['.'] + decimal(((a / 0x1_0000) % 256) as nat) + seq![
        '.',
    ] + decimal(((a / 0x100) % 256) as nat) + seq!['.'] + decimal((a % 256) as nat)
}

/// A 16-bit group in lowercase hexadecimal without leading zeros.
pub open spec fn hex_group(g: nat) -> Seq<char>
    decreases g,
{
    if g < 16 {
        seq![hex_digit(g)]
    } else {
        hex_group(g / 16) + seq![hex_digit(g % 16)]
    }
}

/// The `i`-th 16-bit group of an IPv6 address, most significant first.
pub open spec fn ipv6_group(a: u128, i: int) -> nat {
    ((a >> ((112 - 16 * i) as u128)) & 0xffff) as nat
}

/// Groups `0..n` of `a` joined by `:`.
pub open spec fn joined_groups(a: u128, n: int) -> Seq<char>
    decreases n,
{
    if n <= 0 {
        Seq::empty()
    } else if n == 1 {
        hex_group(ipv6_group(a, 0))
    } else {
        joined_groups(a, n - 1) + seq![':'] + hex_group(ipv6_group(a, n - 1))
    }
}

/// How many of the first four groups precede the trailing zero groups.
pub open spec fn significant_groups(a: u128) -> int {
    if ipv6_group(a, 3) != 0 {
        4
    } else if ipv6_group(a, 2) != 0 {
        3
    } else if ipv6_group(a, 1) != 0 {
        2
    } else if ipv6_group(a, 0) != 0 {
        1
    } else {
        0
    }
}

/// The upper 64 bits of an IPv6 address.
pub open spec fn ipv6_network(a: u128) -> u128 {
    a & (u128::MAX << 64u128)
}

/// The `/64` network of an IPv6 address, as canonical text (its all-zero lower half is
/// always the longest zero run, so it is the one compressed to `::`) followed by `/64`.
pub open spec fn ipv6_quota_text(a: u128) -> Seq<char> {
    joined_groups(ipv6_network(a), significant_groups(ipv6_network(a))) + "::/64"@
}

/// The key a client's accepted starts are counted under: an IPv4 address itself, or the
/// `/64` network of an IPv6 address.
pub open spec fn quota_ip_spec(address: IpAddress) -> Seq<char> {
    match address {
        IpAddress::V4(a) => ipv4_text(a),
        IpAddress::V6(a) => ipv6_quota_text(a),
    }
}

fn push_hex_group(s: &mut String, g: u64)
    requires
        g < 0x1_0000,
    ensures
        final(s)@ == old(s)@ + hex_group(g as nat),
    decreases g,
{
    if g >= 16 {
        push_hex_group(s, g / 16);
    }
    let digit = hex_encode_digit(g % 16);
    s.append(digit);
    proof {
        assert(old(s)@ + hex_group(g as nat) =~= final(s)@) by {
            if g >= 16 {
                assert(hex_group(g as nat) == hex_group((g / 16) as nat) + seq![hex_digit((g % 16) as nat)]);
            }
        }
    }
}

fn hex_encode_digit(d: u64) -> (r: &'static str)
    requires
        d < 16,
    ensures
        r@ == seq![hex_digit(d as nat)],
{
    proof {
        reveal_strlit("0");
        reveal_strlit("1");
        reveal_strlit("2");
        reveal_strlit("3");
        reveal_strlit("4");
        reveal_strlit("5");
        reveal_strlit("6");
        reveal_strlit("7");
        reveal_strlit("8");
        reveal_strlit("9");
        reveal_strlit("a");
        reveal_strlit("b");
        reveal_strlit("c");
        reveal_strlit("d");
        reveal_strlit("e");
        reveal_strlit("f");
    }
    if d == 0 { "0" } else if d == 1 { "1" } else if d == 2 { "2" } else if d == 3 { "3" }
    else if d == 4 { "4" } else if d == 5 { "5" } else if d == 6 { "6" } else if d == 7 { "7" }
    else if d == 8 { "8" } else if d == 9 { "9" } else if d == 10 { "a" } else if d == 11 { "b" }
    else if d == 12 { "c" } else if d == 13 { "d" } else if d == 14 { "e" } else { "f" }
}


fn ipv6_group_of(a: u128, i: usize) -> (g: u64)
    requires
        i < 8,
    ensures
        g as nat == ipv6_group(a, i as int),
        g < 0x1_0000,
{
    let shift: u128 = (112 - 16 * i) as u128;
    let g = (a >> shift) & 0xffff;
    assert(g <= 0xffff) by (bit_vector)
        requires
            g == (a >> shift) & 0xffff,
    ;
    g as u64
}

/// The key a client's accepted starts are counted under: an IPv4 address as itself, an
/// IPv6 address as its `/64` network.
pub fn quota_ip(address: IpAddress) -> (r: String)
    ensures
        r@ == quota_ip_spec(address),
{
    match address {
        IpAddress::V4(a) => {
            let mut r = String::new();
            proof {
                reveal_strlit(".");
            }
            push_decimal(&mut r, (a / 0x100_0000) as u64);
            r.append(".");
            push_decimal(&mut r, ((a / 0x1_0000) % 256) as u64);
            r.append(".");
            push_decimal(&mut r, ((a / 0x100) % 256) as u64);
            r.append(".");
            push_decimal(&mut r, (a % 256) as u64);
            proof {
                assert(r@ =~= ipv4_text(a));
            }
            r
        },
        IpAddress::V6(a) => {
            let network: u128 = a & (u128::MAX << 64u128);
            let n: usize = if ipv6_group_of(network, 3) != 0 {
                4
            } else if ipv6_group_of(network, 2) != 0 {
                3
            } else if ipv6_group_of(network, 1) != 0 {
                2
            } else if ipv6_group_of(network, 0) != 0 {
                1
            } else {
                0
            };
            proof {
                assert(network == ipv6_network(a));
                assert(n == significant_groups(network));
                reveal_strlit(":");
            }
            let mut r = String::new();
            let mut i: usize = 0;
            while i < n
                invariant
                    i <= n <= 4,
                    r@ == joined_groups(network, i as int),
                decreases n - i,
            {
                proof {
                    reveal_strlit(":");
                }
                if i > 0 {
                    r.append(":");
                }
                let g = ipv6_group_of(network, i);
                push_hex_group(&mut r, g);
                proof {
                    if i > 0 {
                        assert(r@ =~= joined_groups(network, (i + 1) as int));
                    } else {
                        assert(r@ =~= joined_groups(network, 1));
                    }
                }
                i = i + 1;
            }
            r.append("::/64");
            r
        },
    }
}


// ---------------------------------------------------------------------------------------
// Trusted proxy and client address
// ---------------------------------------------------------------------------------------

/// The configured trusted-proxy setting, split into the texts an IP parser reads: the whole
/// trimmed setting (an exact address), and, when it contains `/`, the network before the
/// first `/` and the prefix length after it.
#[derive(Debug, Clone, PartialEq, Eq)]
pub struct ProxySettingText {
    pub address: String,
    pub network: Option<(String, Option<u32>)>,
}

/// The trusted-proxy setting with its texts parsed as IP addresses (`None` where a text is
/// not one).
#[derive(Debug, Clone, Copy)]
pub struct ProxyRule {
    pub address: Option<IpAddress>,
    pub network: Option<(Option<IpAddress>, Option<u32>)>,
}

proof fn lemma_first_index(s: Seq<char>, c: char, from: int, k: int)
    requires
        0 <= from <= k < s.len(),
        s[k] == c,
        forall|m: int| from <= m < k ==> s[m] != c,
    ensures
        index_of_from(s, c, from) == Some(k),
{
    lemma_index_of_from(s, c, from);
}

proof fn lemma_no_index(s: Seq<char>, c: char, from: int)
    requires
        0 <= from,
        forall|m: int| from <= m < s.len() ==> s[m] != c,
    ensures
        index_of_from(s, c, from) is None,
{
    lemma_index_of_from(s, c, from);
}

/// Splits the trusted-proxy setting into the texts to parse as IP addresses.
#[verifier::spinoff_prover]
#[verifier::rlimit(40)]
pub fn proxy_setting_text(configured: &str) -> (r: ProxySettingText)
    ensures
        r.address@ == trim(configured@),
        match index_of(trim(configured@), '/') {
            None => r.network is None,
            Some(i) => r.network matches Some((n, bits)) && n@ == trim(configured@).subrange(0, i)
                && bits == parse_u32_spec(
                trim(configured@).subrange(i + 1, trim(configured@).len() as int),
            ),
        },
{
    let chars = chars_of(configured);
    let (lo, hi) = trim_bounds(chars.as_slice(), 0, chars.len());
    proof {
        assert(chars@.subrange(0, chars@.len() as int) =~= configured@);
    }
    let address = configured.substring_char(lo, hi).to_owned();
    let network = match find_char(chars.as_slice(), '/', lo, hi) {
        None => {
            proof {
                let t = trim(configured@);
                assert forall|m: int| 0 <= m < t.len() implies t[m] != '/' by {
                    assert(t[m] == chars@[lo + m]);
                }
                lemma_no_index(t, '/', 0);
            }
            None
        },
        Some(i) => {
            let network_text = configured.substring_char(lo, i).to_owned();
            let bits_chars = &chars.as_slice()[i + 1..hi];
            let bits = parse_u32(bits_chars);
            proof {
                let t = trim(configured@);
                assert(t =~= chars@.subrange(lo as int, hi as int));
                assert forall|m: int| 0 <= m < i - lo implies t[m] != '/' by {
                    assert(t[m] == chars@[lo + m]);
                }
                lemma_first_index(t, '/', 0, i - lo);
                assert(network_text@ =~= t.subrange(0, i - lo));
                assert(bits_chars@ =~= t.subrange(i - lo + 1, t.len() as int));
            }
            Some((network_text, bits))
        },
    };
    ProxySettingText { address, network }
}

/// The IPv4 mask of a prefix length.
pub open spec fn mask_v4(bits: u32) -> u32 {
    if bits == 0 {
        0
    } else {
        u32::MAX << ((32 - bits) as u32)
    }
}

/// The IPv6 mask of a prefix length.
pub open spec fn mask_v6(bits: u32) -> u128 {
    if bits == 0 {
        0
    } else {
        u128::MAX << ((128 - bits) as u128)
    }
}

/// Whether `peer` is the configured trusted proxy: equal to its exact address, or, for a
/// `network/bits` setting, inside that network of the same address family.
pub open spec fn trusted_proxy_spec(peer: IpAddress, rule: Option<ProxyRule>) -> bool {
    match rule {
        None => false,
        Some(r) => match r.address {
            Some(a) => a == peer,
            None => match r.network {
                Some((Some(network), Some(bits))) => match (peer, network) {
                    (IpAddress::V4(p), IpAddress::V4(n)) => bits <= 32 && p & mask_v4(bits) == n
                        & mask_v4(bits),
                    (IpAddress::V6(p), IpAddress::V6(n)) => bits <= 128 && p & mask_v6(bits) == n
                        & mask_v6(bits),
                    _ => false,
                },
                _ => false,
            },
        },
    }
}

/// Whether the connecting peer is the configured trusted proxy.
pub fn trusted_proxy(peer: IpAddress, rule: Option<ProxyRule>) -> (r: bool)
    ensures
        r == trusted_proxy_spec(peer, rule),
{
    let rule = match rule {
        None => return false,
        Some(r) => r,
    };
    if let Some(address) = rule.address {
        return address == peer;
    }
    match rule.network {
        Some((Some(network), Some(bits))) => match (peer, network) {
            (IpAddress::V4(p), IpAddress::V4(n)) => {
                if bits > 32 {
                    return false;
                }
                let mask: u32 = if bits == 0 {
                    0
                } else {
                    u32::MAX << (32 - bits)
                };
                p & mask == n & mask
            },
            (IpAddress::V6(p), IpAddress::V6(n)) => {
                if bits > 128 {
                    return false;
                }
                let mask: u128 = if bits == 0 {
                    0
                } else {
                    u128::MAX << ((128 - bits) as u128)
                };
                p & mask == n & mask
            },
            _ => false,
        },
        _ => false,
    }
}

/// The dedicated forwarded-client header's text when it is usable: present exactly once,
/// decodable, not padded with white space, and naming a single address (no `,`).
pub open spec fn forwarded_candidate_spec(values: Seq<Option<Seq<char>>>) -> Option<Seq<char>> {
    if values.len() == 1 {
        match values[0] {
            Some(v) => if !needs_trim(v) && !v.contains(',') {
                Some(v)
            } else {
                None
            },
            None => None,
        }
    } else {
        None
    }
}

/// Picks the forwarded-client header's text to parse as the client address.
pub fn forwarded_candidate(values: &Vec<Option<String>>) -> (r: Option<String>)
    ensures
        crate::text::opt_view(r) == forwarded_candidate_spec(
            values@.map_values(|o: Option<String>| crate::text::opt_view(o)),
        ),
{
    if values.len() != 1 {
        return None;
    }
    match &values[0] {
        None => None,
        Some(v) => {
            let chars = chars_of(v.as_str());
            if chars.len() > 0 && (crate::text::char_is_whitespace(chars[0])
                || crate::text::char_is_whitespace(chars[chars.len() - 1])) {
                return None;
            }
            if chars_contain(chars.as_slice(), ',') {
                return None;
            }
            Some(v.clone())
        },
    }
}

/// The quota key for a request: the forwarded client address when the peer is the trusted
/// proxy and the forwarded header named a valid address, otherwise the peer itself.
pub open spec fn client_ip_spec(
    peer: IpAddress,
    rule: Option<ProxyRule>,
    forwarded: Option<IpAddress>,
) -> Seq<char> {
    if trusted_proxy_spec(peer, rule) && forwarded is Some {
        quota_ip_spec(forwarded->0)
    } else {
        quota_ip_spec(peer)
    }
}

/// The quota key a request's accepted starts are counted under.
pub fn client_ip(peer: IpAddress, rule: Option<ProxyRule>, forwarded: Option<IpAddress>) -> (r:
    String)
    ensures
        r@ == client_ip_spec(peer, rule, forwarded),
{
    if trusted_proxy(peer, rule) {
        if let Some(address) = forwarded {
            return quota_ip(address);
        }
    }
    quota_ip(peer)
}

/// Law: every IPv6 address of one `/64` network is counted under the same quota key, so a
/// client cannot escape the accepted-start quota by rotating addresses inside its network.
pub proof fn law_ipv6_clients_share_their_network_key(a: u128, b: u128)
    requires
        ipv6_network(a) == ipv6_network(b),
    ensures
        quota_ip_spec(IpAddress::V6(a)) == quota_ip_spec(IpAddress::V6(b)),
{
}

/// Law: a `/0` network trusts every peer of its own address family, and an exact address
/// trusts only itself.
pub proof fn law_proxy_rules(peer: IpAddress, other: IpAddress)
    ensures
        trusted_proxy_spec(
            peer,
            Some(ProxyRule { address: None, network: Some((Some(other), Some(0))) }),
        ) == ((peer is V4 && other is V4) || (peer is V6 && other is V6)),
        trusted_proxy_spec(peer, Some(ProxyRule { address: Some(other), network: None })) == (
        peer == other),
{
    match (peer, other) {
        (IpAddress::V4(p), IpAddress::V4(n)) => {
            assert(p & 0 == n & 0) by (bit_vector);
        },
        (IpAddress::V6(p), IpAddress::V6(n)) => {
            assert(p & 0 == n & 0) by (bit_vector);
        },
        _ => {},
    }
}


// ---------------------------------------------------------------------------------------
// Session tokens and the session cookie
// ---------------------------------------------------------------------------------------

/// Whether `c` is a lowercase hexadecimal digit.
pub open spec fn is_lower_hex(c: char) -> bool {
    ('0' <= c && c <= '9') || ('a' <= c && c <= 'f')
}

/// A well-formed session token: exactly 64 lowercase hexadecimal digits.
pub open spec fn valid_token_spec(token: Seq<char>) -> bool {
    token.len() == 64 && forall|i: int| 0 <= i < token.len() ==> is_lower_hex(#[trigger] token[i])
}

/// Whether `token` is a well-formed session token.
pub fn valid_token(token: &str) -> (r: bool)
    ensures
        r == valid_token_spec(token@),
{
    let chars = chars_of(token);
    if chars.len() != 64 {
        return false;
    }
    let mut i: usize = 0;
    while i < chars.len()
        invariant
            i <= chars@.len(),
            chars@ == token@,
            forall|j: int| 0 <= j < i ==> is_lower_hex(#[trigger] chars@[j]),
        decreases chars@.len() - i,
    {
        let c = chars[i];
        if !(('0' <= c && c <= '9') || ('a' <= c && c <= 'f')) {
            return false;
        }
        i = i + 1;
    }
    true
}

/// The segments of `s` from `start` on, split at `;`.
pub open spec fn segments_from(s: Seq<char>, start: int) -> Seq<Seq<char>>
    decreases s.len() - start,
{
    if start < 0 || start > s.len() {
        Seq::empty()
    } else {
        match index_of_from(s, ';', start) {
            None => seq![s.subrange(start, s.len() as int)],
            Some(j) => {
                proof {
                    lemma_index_of_from(s, ';', start);
                }
                seq![s.subrange(start, j)] + segments_from(s, j + 1)
            },
        }
    }
}

/// The `name=value` pair of one cookie segment after trimming; `None` without `=`.
pub open spec fn cookie_pair(segment: Seq<char>) -> Option<(Seq<char>, Seq<char>)> {
    let t = trim(segment);
    match index_of(t, '=') {
        None => None,
        Some(e) => Some((t.subrange(0, e), t.subrange(e + 1, t.len() as int))),
    }
}

/// The values of the cookies named `name` among `segments`, in order.
pub open spec fn matching_values(segments: Seq<Seq<char>>, name: Seq<char>) -> Seq<Seq<char>>
    decreases segments.len(),
{
    if segments.len() == 0 {
        Seq::empty()
    } else {
        let rest = matching_values(segments.drop_first(), name);
        match cookie_pair(segments[0]) {
            Some((n, v)) => if n == name {
                seq![v] + rest
            } else {
                rest
            },
            None => rest,
        }
    }
}

/// The values of the cookies named `name` in one `Cookie` header value.
pub open spec fn header_cookie_values(header: Seq<char>, name: Seq<char>) -> Seq<Seq<char>> {
    matching_values(segments_from(header, 0), name)
}

/// The values of the cookies named `name` across `Cookie` header values, in order.
pub open spec fn all_cookie_values(headers: Seq<Seq<char>>, name: Seq<char>) -> Seq<Seq<char>>
    decreases headers.len(),
{
    if headers.len() == 0 {
        Seq::empty()
    } else {
        all_cookie_values(headers.drop_last(), name) + header_cookie_values(headers.last(), name)
    }
}

/// The session token a request carries in the cookie `name`: `Ok(None)` without one;
/// `Err` when a `Cookie` header is not decodable, when the cookie appears more than once,
/// or when its value is not a well-formed token.
pub open spec fn cookie_token_spec(headers: Seq<Option<Seq<char>>>, name: Seq<char>) -> Result<
    Option<Seq<char>>,
    (),
> {
    if exists|i: int| 0 <= i < headers.len() && headers[i] is None {
        Err(())
    } else {
        let values = all_cookie_values(headers.map_values(|h: Option<Seq<char>>| h->0), name);
        if values.len() == 0 {
            Ok(None)
        } else if values.len() == 1 && valid_token_spec(values[0]) {
            Ok(Some(values[0]))
        } else {
            Err(())
        }
    }
}

/// The views of `Cookie` header values.
pub open spec fn header_views(headers: Seq<Option<String>>) -> Seq<Option<Seq<char>>> {
    headers.map_values(|o: Option<String>| crate::text::opt_view(o))
}

#[verifier::spinoff_prover]
#[verifier::rlimit(40)]
fn collect_header_values(header: &str, name: &Vec<char>, out: &mut Vec<String>)
    ensures
        final(out)@.map_values(|s: String| s@) == old(out)@.map_values(|s: String| s@)
            + header_cookie_values(header@, name@),
{
    let chars = chars_of(header);
    let len = chars.len();
    let mut start: usize = 0;
    let ghost initial = old(out)@.map_values(|s: String| s@);
    loop
        invariant_except_break
            start <= len,
            initial + header_cookie_values(header@, name@) == out@.map_values(|s: String| s@)
                + matching_values(segments_from(header@, start as int), name@),
        invariant
            len == chars@.len(),
            chars@ == header@,
        ensures
            initial + header_cookie_values(header@, name@) == out@.map_values(|s: String| s@),
        decreases len - start,
    {
        let ghost before_out = out@.map_values(|s: String| s@);
        let found = find_char(chars.as_slice(), ';', start, len);
        let end: usize = match found {
            Some(j) => j,
            None => len,
        };
        let ghost segment = header@.subrange(start as int, end as int);
        proof {
            match found {
                Some(j) => {
                    lemma_first_index(header@, ';', start as int, j as int);
                    assert(segments_from(header@, start as int) == seq![segment] + segments_from(
                        header@,
                        j + 1,
                    ));
                },
                None => {
                    lemma_no_index(header@, ';', start as int);
                    assert(segments_from(header@, start as int) == seq![segment]);
                },
            }
        }
        let (lo, hi) = trim_bounds(chars.as_slice(), start, end);
        let eq = find_char(chars.as_slice(), '=', lo, hi);
        proof {
            let t = trim(segment);
            assert(t =~= chars@.subrange(lo as int, hi as int));
            match eq {
                Some(e) => {
                    assert forall|m: int| 0 <= m < e - lo implies t[m] != '=' by {
                        assert(t[m] == chars@[lo + m]);
                    }
                    lemma_first_index(t, '=', 0, e - lo);
                },
                None => {
                    assert forall|m: int| 0 <= m < t.len() implies t[m] != '=' by {
                        assert(t[m] == chars@[lo + m]);
                    }
                    lemma_no_index(t, '=', 0);
                },
            }
        }
        if let Some(e) = eq {
            let key = &chars.as_slice()[lo..e];
            if chars_eq(key, name.as_slice()) {
                let value = header.substring_char(e + 1, hi).to_owned();
                out.push(value);
                proof {
                    let t = trim(segment);
                    assert(key@ =~= t.subrange(0, e - lo));
                    assert(value@ =~= t.subrange(e - lo + 1, t.len() as int));
                    assert(out@.map_values(|s: String| s@) =~= before_out + seq![value@]);
                }
            } else {
                proof {
                    let t = trim(segment);
                    assert(key@ =~= t.subrange(0, e - lo));
                }
            }
        }
        proof {
            let segs = segments_from(header@, start as int);
            let rest = match found {
                Some(j) => segments_from(header@, j + 1),
                None => Seq::<Seq<char>>::empty(),
            };
            assert(segs.drop_first() =~= rest);
            assert(segs[0] == segment);
            let contributed = match cookie_pair(segment) {
                Some((n, v)) => if n == name@ {
                    seq![v]
                } else {
                    Seq::<Seq<char>>::empty()
                },
                None => Seq::<Seq<char>>::empty(),
            };
            assert(matching_values(segs, name@) == contributed + matching_values(rest, name@));
            assert(out@.map_values(|s: String| s@) =~= before_out + contributed);
            assert(initial + header_cookie_values(header@, name@) =~= out@.map_values(
                |s: String| s@,
            ) + matching_values(rest, name@));
            if found is None {
                assert(matching_values(rest, name@) =~= Seq::<Seq<char>>::empty());
            }
        }
        match found {
            Some(j) => {
                start = j + 1;
            },
            None => {
                break ;
            },
        }
    }
}


/// The session token carried in the cookie `cookie_name` by the `Cookie` header values
/// `headers`, each `None` where the header is not visible ASCII text.
pub fn cookie_token(headers: &Vec<Option<String>>, cookie_name: &str) -> (r: Result<
    Option<String>,
    (),
>)
    ensures
        match (r, cookie_token_spec(header_views(headers@), cookie_name@)) {
            (Ok(Some(t)), Ok(Some(s))) => t@ == s,
            (Ok(None), Ok(None)) => true,
            (Err(()), Err(())) => true,
            _ => false,
        },
{
    let name = chars_of(cookie_name);
    let mut values: Vec<String> = Vec::new();
    let ghost hv = header_views(headers@);
    let ghost unwrap = |h: Option<Seq<char>>| h->0;
    let mut i: usize = 0;
    while i < headers.len()
        invariant
            i <= headers.len(),
            hv == header_views(headers@),
            hv.len() == headers@.len(),
            name@ == cookie_name@,
            unwrap == (|h: Option<Seq<char>>| h->0),
            forall|k: int| 0 <= k < i ==> (#[trigger] hv[k]) is Some,
            values@.map_values(|s: String| s@) == all_cookie_values(
                hv.take(i as int).map_values(unwrap),
                cookie_name@,
            ),
        decreases headers.len() - i,
    {
        match &headers[i] {
            None => {
                assert(hv[i as int] is None);
                return Err(());
            },
            Some(h) => {
                collect_header_values(h.as_str(), &name, &mut values);
                proof {
                    let prev = hv.take(i as int).map_values(unwrap);
                    let next = hv.take(i + 1).map_values(unwrap);
                    assert(hv[i as int] == Some(h@));
                    assert(next.drop_last() =~= prev);
                    assert(next.last() == h@);
                }
            },
        }
        i += 1;
    }
    proof {
        assert(hv.take(i as int) =~= hv);
        assert(hv.map_values(unwrap) =~= hv.map_values(|h: Option<Seq<char>>| h->0));
        assert(!exists|k: int| 0 <= k < hv.len() && hv[k] is None);
    }
    let n = values.len();
    if n == 0 {
        Ok(None)
    } else if n == 1 && valid_token(values[0].as_str()) {
        Ok(Some(values[0].clone()))
    } else {
        Err(())
    }
}


} // verus!
