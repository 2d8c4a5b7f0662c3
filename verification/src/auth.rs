//! The credential exchange: decoding the provider's token response.
//!
//! The outbound POST itself is plain I/O and happens outside the verified
//! core; this module decides, from the response's status and body, whether
//! authentication succeeded and which bearer token it produced.

use vstd::prelude::*;
use vstd::string::StringExecFns;
use crate::errors::BridgeError;

verus! {

/// A username/password pair.  Input only: it is handed to the authentication
/// request and never persisted or logged.
pub struct Credential {
    pub username: String,
    pub password: String,
}

/// An opaque bearer token, produced by the credential exchange and attached
/// to every subsequent provider call.
pub struct AuthToken {
    pub access_token: String,
}

impl View for AuthToken {
    type V = Seq<char>;

    open spec fn view(&self) -> Seq<char> {
        self.access_token@
    }
}

/// Whether an HTTP status signals success (the 2xx class).
pub open spec fn spec_is_success_status(status: u16) -> bool {
    200 <= status < 300
}

/// Whether an HTTP status signals success (the 2xx class).
pub fn is_success_status(status: u16) -> (r: bool)
    ensures
        r == spec_is_success_status(status),
{
    200 <= status && status < 300
}

/// The string value of the `access_token` field of `body`, when `body` parses
/// as a JSON document whose `access_token` field is a string; `None`
/// otherwise.  This names the result of the parse in `parse_access_token`,
/// which depends on the body alone.
pub uninterp spec fn access_token_in(body: Seq<char>) -> Option<Seq<char>>;

/// Relies on serde_json: `from_str` parses `body` as a JSON document, and
/// `Value::get` with `Value::as_str` read the string field `access_token` of
/// it.  The result is a function of `body` alone.
#[verifier::external_body]
fn parse_access_token(body: &str) -> (r: Option<String>)
    ensures
        r is Some <==> access_token_in(body@) is Some,
        r matches Some(t) ==> access_token_in(body@) == Some(t@),
{
    let doc: serde_json::Value = match serde_json::from_str(body) {
        Ok(v) => v,
        Err(_) => return None,
    };
    match doc.get("access_token") {
        Some(v) => match v.as_str() {
            Some(s) => Some(s.to_string()),
            None => None,
        },
        None => None,
    }
}

/// The decode step of the credential exchange: given the status and body of
/// the provider's response to the token request, produce the bearer token.
///
/// Succeeds exactly when the status is 2xx and the body carries a string
/// `access_token` field; every failure is an `AuthError`.
pub fn authenticate(status: u16, body: &str) -> (r: Result<AuthToken, BridgeError>)
    ensures
        r is Ok <==> (spec_is_success_status(status) && access_token_in(body@) is Some),
        r matches Ok(t) ==> Some(t@) == access_token_in(body@),
        r matches Err(e) ==> e is AuthError,
{
    if !is_success_status(status) {
        return Err(BridgeError::AuthError(String::from_str(
            "authentication failed: non-success status",
        )));
    }
    match parse_access_token(body) {
        Some(t) => Ok(AuthToken { access_token: t }),
        None => Err(BridgeError::AuthError(String::from_str(
            "authentication failed: malformed response body",
        ))),
    }
}

} // verus!
