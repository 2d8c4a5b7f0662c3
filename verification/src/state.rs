//! The state fetcher: decoding the provider's home-state snapshot.
//!
//! The snapshot is an arbitrary JSON document, used only diagnostically: the
//! verified core checks that the body is well-formed JSON and carries the raw
//! text through unchanged.

use vstd::prelude::*;
use vstd::string::StringExecFns;
use crate::auth::{is_success_status, spec_is_success_status};
use crate::errors::BridgeError;

verus! {

/// A point-in-time description of the device state of one location.  The
/// document is kept as raw JSON text; nothing in the bridge reads into it.
pub struct StateSnapshot {
    pub document: String,
}

/// Whether `body` parses as a JSON document.  This names the result of the
/// check in `json_document_ok`, which depends on the body alone.
pub uninterp spec fn json_well_formed(body: Seq<char>) -> bool;

/// Relies on serde_json: `from_str` succeeds exactly on well-formed JSON
/// text.  The result is a function of `body` alone.
#[verifier::external_body]
fn json_document_ok(body: &str) -> (r: bool)
    ensures
        r == json_well_formed(body@),
{
    serde_json::from_str::<serde_json::Value>(body).is_ok()
}

/// The URL of the home-state endpoint for one location: the fixed base,
/// a separating slash, and the location id.
pub fn state_url(location_id: &str) -> (r: String)
    ensures
        r@ == "https://sdk.iotiliti.cloud/homely/home/"@ + location_id@,
{
    let mut url = String::from_str("https://sdk.iotiliti.cloud/homely/home/");
    url.append(location_id);
    url
}

/// The decode step of the state fetch: given the status and body of the
/// provider's response, produce the snapshot.
///
/// Succeeds exactly when the status is 2xx and the body is well-formed JSON;
/// the snapshot carries the body unchanged.  Every failure is an `ApiError`.
pub fn get_state(status: u16, body: &str) -> (r: Result<StateSnapshot, BridgeError>)
    ensures
        r is Ok <==> (spec_is_success_status(status) && json_well_formed(body@)),
        r matches Ok(s) ==> s.document@ == body@,
        r matches Err(e) ==> e is ApiError,
{
    if !is_success_status(status) {
        return Err(BridgeError::ApiError(String::from_str(
            "fetching state failed: non-success status",
        )));
    }
    if json_document_ok(body) {
        Ok(StateSnapshot { document: String::from_str(body) })
    } else {
        Err(BridgeError::ApiError(String::from_str(
            "fetching state failed: malformed response body",
        )))
    }
}

} // verus!
