//! Demo visitor sessions: the random token a visitor is handed in a cookie, and the key a
//! session is stored under.

use vstd::prelude::*;

use rand::TryRngCore;
use sha2::Digest;

use crate::error::{internal_error, ApiError};
use crate::policy::DemoPolicy;
use crate::routes::demo::{
    all_cookie_values, cookie_pair, cookie_token, cookie_token_spec, header_cookie_values,
    header_views, is_lower_hex, matching_values, segments_from, valid_token_spec,
};
use crate::text::{
    decimal, hex, hex_digit, hex_encode, index_of, index_of_from, is_whitespace,
    lemma_index_of_from, push_decimal, trim,
};

verus! {

/// The name of the Demo session cookie. The `__Host-` prefix makes browsers accept it only
/// from a secure origin, for path `/`, without a `Domain`.
pub const DEMO_COOKIE_NAME: &'static str = "__Host-bhtune_demo_session";

/// The SHA-256 digest of `data`.
pub uninterp spec fn sha256(data: Seq<u8>) -> Seq<u8>;

/// SHA-256 of `data`, by `sha2`'s `Sha256` through `Digest::digest`. Trusted: the digest is a
/// function of the bytes alone, named [`sha256`], and is 32 bytes long (`Sha256`'s output
/// size); nothing else is claimed of it.
#[verifier::external_body]
fn sha256_digest(data: &[u8]) -> (r: Vec<u8>)
    ensures
        r@ == sha256(data@),
        r@.len() == 32,
{
    sha2::Sha256::digest(data).to_vec()
}

/// The key a session with raw token `token` is stored under: the lowercase hex SHA-256 of the
/// token's UTF-8 bytes, so the raw token itself is never persisted.
pub open spec fn session_key(token: Seq<char>) -> Seq<char> {
    hex(sha256(vstd::utf8::encode_utf8(token)))
}

/// The session key of `token`.
pub fn token_hash(token: &str) -> (r: String)
    ensures
        r@ == session_key(token@),
        r@.len() == 64,
{
    let digest = sha256_digest(token.as_bytes());
    let r = hex_encode(digest.as_slice());
    proof {
        crate::text::lemma_hex_len(digest@);
    }
    r
}

/// 32 bytes from the operating system's random source, by `rand`'s `OsRng` through
/// `TryRngCore::try_fill_bytes`; `None` when that source fails. Trusted, with nothing claimed
/// of the bytes: they are chance, and so is whether the source answers.
#[verifier::external_body]
fn try_random_token_bytes() -> (r: Option<[u8; 32]>) {
    let mut bytes = [0u8; 32];
    match rand::rngs::OsRng.try_fill_bytes(&mut bytes) {
        Ok(()) => Some(bytes),
        Err(_) => None,
    }
}

/// The `Set-Cookie` value that hands a visitor the session token `token` under `name`, valid
/// for `max_age_secs`: host-only, for path `/`, never readable by scripts, never sent
/// cross-site, only over HTTPS.
pub open spec fn session_cookie_text(name: Seq<char>, token: Seq<u8>, max_age_secs: u64) -> Seq<
    char,
> {
    name + seq!['='] + hex(token) + "; Path=/; Max-Age="@ + decimal(max_age_secs as nat)
        + "; HttpOnly; SameSite=Strict; Secure"@
}

/// The `Set-Cookie` value for a fresh session token.
pub fn session_cookie_value(name: &str, token: &[u8], max_age_secs: u64) -> (r: String)
    ensures
        r@ == session_cookie_text(name@, token@, max_age_secs),
{
    let mut r = String::new();
    r.append(name);
    r.append("=");
    let encoded = hex_encode(token);
    r.append(encoded.as_str());
    r.append("; Path=/; Max-Age=");
    push_decimal(&mut r, max_age_secs);
    r.append("; HttpOnly; SameSite=Strict; Secure");
    proof {
        reveal_strlit("=");
        assert(r@ =~= session_cookie_text(name@, token@, max_age_secs));
    }
    r
}

/// Whether the request already carries exactly one well-formed session cookie, which is then
/// kept rather than replaced.
pub open spec fn carries_session(headers: Seq<Option<Seq<char>>>, name: Seq<char>) -> bool {
    cookie_token_spec(headers, name) matches Ok(Some(_))
}

/// The `Set-Cookie` value a Demo response carries: none where the request already has a valid
/// session cookie, else a cookie holding a fresh random token that lives for the policy's
/// session lifetime; an internal error when no random token can be had.
pub fn session_cookie_header(
    headers: &Vec<Option<String>>,
    cookie_name: &str,
    policy: DemoPolicy,
) -> (r: Result<Option<String>, ApiError>)
    ensures
        carries_session(header_views(headers@), cookie_name@) ==> r matches Ok(None),
        r is Ok ==> (carries_session(header_views(headers@), cookie_name@) <==> r matches Ok(None)),
        r matches Ok(Some(c)) ==> exists|token: Seq<u8>|
            token.len() == 32 && c@ == session_cookie_text(
                cookie_name@,
                token,
                policy.session_ttl_secs,
            ),
        r matches Err(e) ==> e matches ApiError::Internal(inner) && crate::error::error_chain(inner)
            == seq!["no random session token could be drawn"@],
{
    match cookie_token(headers, cookie_name) {
        Ok(Some(_)) => Ok(None),
        _ => match try_random_token_bytes() {
            Some(token) => {
                let c = session_cookie_value(cookie_name, &token, policy.session_ttl_secs);
                assert(token@.len() == 32);
                Ok(Some(c))
            },
            None => Err(internal_error(String::from_str("no random session token could be drawn"))),
        },
    }
}

/// The session key a Demo request is identified by: the hash of its cookie's token; 401 when
/// the cookie is missing, malformed or ambiguous.
pub fn parsed_token_hash(headers: &Vec<Option<String>>, cookie_name: &str) -> (r: Result<
    String,
    ApiError,
>)
    ensures
        match cookie_token_spec(header_views(headers@), cookie_name@) {
            Ok(Some(t)) => r matches Ok(h) && h@ == session_key(t),
            Ok(None) => r matches Err(ApiError::Unauthorized(m)) && m@
                == "a demo session cookie is required"@,
            Err(()) => r matches Err(ApiError::Unauthorized(m)) && m@
                == "invalid demo session cookie"@,
        },
{
    match cookie_token(headers, cookie_name) {
        Err(()) => Err(ApiError::Unauthorized(String::from_str("invalid demo session cookie"))),
        Ok(None) => Err(
            ApiError::Unauthorized(String::from_str("a demo session cookie is required")),
        ),
        Ok(Some(token)) => {
            let h = token_hash(token.as_str());
            Ok(h)
        },
    }
}

/// Whether `name` can name a cookie in a `Cookie` header: not empty, and free of `;`, `=`
/// and white space.
pub open spec fn plain_cookie_name(name: Seq<char>) -> bool {
    &&& name.len() > 0
    &&& forall|i: int|
        0 <= i < name.len() ==> name[i] != ';' && name[i] != '=' && !is_whitespace(
            #[trigger] name[i],
        )
}

proof fn lemma_hex_digits_are_lower_hex(bytes: Seq<u8>)
    ensures
        hex(bytes).len() == 2 * bytes.len(),
        forall|i: int| 0 <= i < hex(bytes).len() ==> is_lower_hex(#[trigger] hex(bytes)[i]),
    decreases bytes.len(),
{
    if bytes.len() > 0 {
        lemma_hex_digits_are_lower_hex(bytes.drop_last());
        let b = bytes.last();
        let hi = (b / 16) as nat;
        let lo = (b % 16) as nat;
        assert(is_lower_hex(hex_digit(hi)));
        assert(is_lower_hex(hex_digit(lo)));
        let prev = hex(bytes.drop_last());
        assert(hex(bytes) == prev + seq![hex_digit(hi), hex_digit(lo)]);
        assert forall|i: int| 0 <= i < hex(bytes).len() implies is_lower_hex(#[trigger] hex(bytes)[i]) by {
            if i < prev.len() {
                assert(hex(bytes)[i] == prev[i]);
            }
        }
    }
}

/// Law: the session cookie a Demo response hands out is accepted back: a browser that returns
/// it as `name=value` is identified by exactly the token it was given (for any cookie name a
/// `Cookie` header can carry unambiguously).
pub proof fn law_issued_cookie_is_accepted(name: Seq<char>, token: Seq<u8>)
    requires
        plain_cookie_name(name),
        token.len() == 32,
    ensures
        cookie_token_spec(seq![Some(name + seq!['='] + hex(token))], name) == Ok::<
            Option<Seq<char>>,
            (),
        >(Some(hex(token))),
{
    let v = hex(token);
    lemma_hex_digits_are_lower_hex(token);
    let h = name + seq!['='] + v;
    let n = name.len() as int;
    assert forall|i: int| 0 <= i < h.len() implies h[i] != ';' && !(n < i && h[i] == '=') by {
        if i < n {
            assert(h[i] == name[i]);
        } else if i > n {
            assert(h[i] == v[i - n - 1]);
            assert(is_lower_hex(v[i - n - 1]));
        }
    }
    lemma_index_of_from(h, ';', 0);
    assert(index_of_from(h, ';', 0) is None);
    assert(h.subrange(0, h.len() as int) =~= h);
    assert(segments_from(h, 0) == seq![h]);
    assert(!is_whitespace(h[0])) by {
        assert(h[0] == name[0]);
    }
    assert(!is_whitespace(h.last())) by {
        assert(h.last() == v[v.len() - 1]);
        assert(is_lower_hex(v[v.len() - 1]));
    }
    assert(trim(h) == h);
    lemma_index_of_from(h, '=', 0);
    assert(h[n] == '=');
    assert(index_of(h, '=') == Some(n)) by {
        match index_of_from(h, '=', 0) {
            Some(j) => {
                if j < n {
                    assert(h[j] == name[j]);
                }
            },
            None => {},
        }
    }
    assert(h.subrange(0, n) =~= name);
    assert(h.subrange(n + 1, h.len() as int) =~= v);
    assert(cookie_pair(h) == Some((name, v)));
    assert(seq![h].drop_first() =~= Seq::<Seq<char>>::empty());
    assert(seq![h][0] == h);
    assert(matching_values(Seq::<Seq<char>>::empty(), name) =~= Seq::<Seq<char>>::empty());
    assert(matching_values(seq![h], name) =~= seq![v]);
    assert(header_cookie_values(h, name) == seq![v]);
    let headers = seq![Some(h)];
    assert(headers.map_values(|x: Option<Seq<char>>| x->0) =~= seq![h]);
    assert(seq![h].drop_last() =~= Seq::<Seq<char>>::empty());
    assert(seq![h].last() == h);
    assert(all_cookie_values(Seq::<Seq<char>>::empty(), name) =~= Seq::<Seq<char>>::empty());
    assert(all_cookie_values(seq![h], name) =~= seq![v]);
    assert(valid_token_spec(v));
}

/// Law: in particular, the Demo's own session cookie is accepted back with the token it
/// carried.
pub proof fn law_demo_cookie_is_accepted(token: Seq<u8>)
    requires
        token.len() == 32,
    ensures
        cookie_token_spec(seq![Some(DEMO_COOKIE_NAME@ + seq!['='] + hex(token))], DEMO_COOKIE_NAME@)
            == Ok::<Option<Seq<char>>, ()>(Some(hex(token))),
{
    reveal_strlit("__Host-bhtune_demo_session");
    let name = DEMO_COOKIE_NAME@;
    assert(name.len() == 26);
    assert forall|i: int| 0 <= i < name.len() implies name[i] != ';' && name[i] != '=' && !is_whitespace(
        #[trigger] name[i],
    ) by {
        assert(name == seq!['_', '_', 'H', 'o', 's', 't', '-', 'b', 'h', 't', 'u', 'n', 'e', '_', 'd', 'e', 'm', 'o', '_', 's', 'e', 's', 's', 'i', 'o', 'n']);
    }
    law_issued_cookie_is_accepted(name, token);
}

} // verus!
