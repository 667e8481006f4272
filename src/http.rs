//! The HTTP form of a delivery: one POST per message with a JSON body, and
//! which responses count as delivered.
use vstd::prelude::*;
use vstd::string::StringExecFns;
use crate::message::{MessageError, TestData, wire_form};

verus! {

/// The parts of the POST request that delivers one message.
pub struct HttpPost {
    /// Where the request goes.
    pub uri: String,
    /// The value of the `content-type` header.
    pub content_type: String,
    /// The value of the `Authorization` header, if a token was given.
    pub authorization: Option<String>,
    /// The request body: the message's JSON text.
    pub body: String,
}

/// `Bearer <token>`: the value of the `Authorization` header for a token.
pub open spec fn bearer_value(token: Seq<char>) -> Seq<char> {
    "Bearer "@ + token
}

/// The `Authorization` header value that carries `token`.
pub fn bearer_header(token: &str) -> (r: String)
    ensures
        r@ == bearer_value(token@),
{
    let mut v = String::from_str("Bearer ");
    v.append(token);
    proof {
        assert(v@ =~= bearer_value(token@));
    }
    v
}

/// The POST request that delivers `data` to `endpoint`: a JSON body with
/// that content type, and a bearer credential where a token is given. It
/// always succeeds.
pub fn build_http_post(endpoint: &str, data: &TestData, auth_token: Option<&str>) -> (r: Result<
    HttpPost,
    MessageError,
>)
    ensures
        r is Ok,
        r matches Ok(p) ==> p.uri@ == endpoint@ && p.content_type@ == "application/json"@
            && p.body@ == wire_form(data.data@) && (match auth_token {
            Some(t) => p.authorization matches Some(a) && a@ == bearer_value(t@),
            None => p.authorization is None,
        }),
{
    let body = match data.serialize_message() {
        Ok(b) => b,
        Err(e) => {
            return Err(e);
        },
    };
    let authorization = match auth_token {
        Some(t) => Some(bearer_header(t)),
        None => None,
    };
    Ok(
        HttpPost {
            uri: String::from_str(endpoint),
            content_type: String::from_str("application/json"),
            authorization,
            body,
        },
    )
}

/// An HTTP status code in the success class, 200 to 299.
pub open spec fn success_status(status: u16) -> bool {
    200 <= status < 300
}

/// Whether an HTTP response status counts as a delivered message.
pub fn is_success_status(status: u16) -> (r: bool)
    ensures
        r == success_status(status),
{
    200 <= status && status < 300
}

} // verus!
