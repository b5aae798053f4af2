//! The OPC DA diagnostic routes' decisions: the queries and answers, which request is refused
//! before any gateway is contacted, and how a gateway call that failed or took too long is
//! answered.

use vstd::prelude::*;

use crate::error::ApiError;
use crate::text::{chars_of, decimal, text_around, trim, trim_bounds};

verus! {

/// How long any single OPC DA call may take.
pub const OPC_QUERY_TIMEOUT_SECS: u64 = 30;

/// The query of `GET /api/opc/servers`.
#[derive(Debug, Clone, PartialEq, Eq)]
pub struct OpcServersQuery {
    pub bridge_host: Option<String>,
}

/// The answer of `GET /api/opc/servers`.
#[derive(Debug, Clone, PartialEq, Eq)]
pub struct OpcServersResponse {
    pub servers: Vec<String>,
}

/// The query of `GET /api/opc/browse`.
#[derive(Debug, Clone, PartialEq, Eq)]
pub struct OpcBrowseQuery {
    pub bridge_host: Option<String>,
    pub opc_server: Option<String>,
    /// The tree level to list; absent or empty for the top level.
    pub path: Option<String>,
}

/// One node of a browsed tree level.
#[derive(Debug, Clone, PartialEq, Eq)]
pub struct OpcTagNodeResponse {
    pub tag: String,
    pub is_branch: bool,
}

/// The answer of `GET /api/opc/browse`.
#[derive(Debug, Clone, PartialEq, Eq)]
pub struct OpcBrowseResponse {
    pub nodes: Vec<OpcTagNodeResponse>,
}

/// The query of `GET /api/opc/read`.
#[derive(Debug, Clone, PartialEq, Eq)]
pub struct OpcReadQuery {
    pub bridge_host: Option<String>,
    pub opc_server: Option<String>,
    pub tag: Option<String>,
}

/// The tree level a browse lists: the requested one, the top level (empty) by default.
pub fn browse_path(path: Option<String>) -> (r: String)
    ensures
        r@ == match path {
            Some(p) => p@,
            None => Seq::<char>::empty(),
        },
{
    match path {
        Some(p) => p,
        None => String::new(),
    }
}

/// Whether `s` is empty or white space only.
pub open spec fn is_blank(s: Seq<char>) -> bool {
    trim(s).len() == 0
}

/// The tag a read asks for; a missing or blank tag is refused with a 400 before any gateway
/// is contacted.
pub fn required_tag(tag: Option<String>) -> (r: Result<String, ApiError>)
    ensures
        match tag {
            Some(t) => if is_blank(t@) {
                r matches Err(ApiError::BadRequest(m)) && m@ == "a tag is required"@
            } else {
                r == Ok::<String, ApiError>(t)
            },
            None => r matches Err(ApiError::BadRequest(m)) && m@ == "a tag is required"@,
        },
{
    match tag {
        Some(t) => {
            let chars = chars_of(t.as_str());
            let (lo, hi) = trim_bounds(chars.as_slice(), 0, chars.len());
            proof {
                assert(chars@.subrange(0, chars@.len() as int) =~= t@);
            }
            if lo == hi {
                Err(ApiError::BadRequest(String::from_str("a tag is required")))
            } else {
                Ok(t)
            }
        },
        None => Err(ApiError::BadRequest(String::from_str("a tag is required"))),
    }
}

/// How one gateway call ended.
#[derive(Debug)]
pub enum OpcCallOutcome<T> {
    /// It answered.
    Done(T),
    /// It failed, as the text describes.
    Failed(String),
    /// It did not answer within [`OPC_QUERY_TIMEOUT_SECS`].
    TimedOut,
}

/// The text of the 400 for a call described by `what` that ended in `outcome`, if it failed.
pub open spec fn opc_failure_text<T>(what: Seq<char>, outcome: OpcCallOutcome<T>) -> Seq<char> {
    match outcome {
        OpcCallOutcome::Failed(error) => what + ": "@ + error@,
        _ => what + ": no response within "@ + decimal(OPC_QUERY_TIMEOUT_SECS as nat) + "s"@,
    }
}

/// How a gateway call described by `what` is answered: its value when it answered; otherwise
/// a 400 naming the call and saying why: every failure of these routes is a diagnostic the
/// client can act on, never a fault of this server.
pub fn opc_call_result<T>(what: &str, outcome: OpcCallOutcome<T>) -> (r: Result<T, ApiError>)
    ensures
        match outcome {
            OpcCallOutcome::Done(v) => r == Ok::<T, ApiError>(v),
            _ => r matches Err(ApiError::BadRequest(m)) && m@ == opc_failure_text(what@, outcome),
        },
{
    match outcome {
        OpcCallOutcome::Done(v) => Ok(v),
        OpcCallOutcome::Failed(error) => {
            let m = text_around(what, ": ", error.as_str());
            Err(ApiError::BadRequest(m))
        },
        OpcCallOutcome::TimedOut => {
            let mut m = String::from_str(what);
            m.append(": no response within ");
            crate::text::push_decimal(&mut m, OPC_QUERY_TIMEOUT_SECS);
            m.append("s");
            Err(ApiError::BadRequest(m))
        },
    }
}

/// The description of connecting to `server` through `bridge`.
pub fn connect_description(server: &str, bridge: &str) -> (r: String)
    ensures
        r@ == "connect to OPC server '"@ + server@ + "' via bridge '"@ + bridge@ + "'"@,
{
    let mut r = String::from_str("connect to OPC server '");
    r.append(server);
    r.append("' via bridge '");
    r.append(bridge);
    r.append("'");
    r
}

/// The description of browsing `path`.
pub fn browse_description(path: &str) -> (r: String)
    ensures
        r@ == "browse '"@ + path@ + "'"@,
{
    text_around("browse '", path, "'")
}

/// The description of reading `tag`.
pub fn read_description(tag: &str) -> (r: String)
    ensures
        r@ == "read '"@ + tag@ + "'"@,
{
    text_around("read '", tag, "'")
}

} // verus!
