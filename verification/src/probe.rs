//! The liveness server's route table.
//!
//! One route, no authentication, no side effects: `/healthz` answers 200
//! with a fixed body on every call.  The answer is a function of the path
//! alone — headers play no role, and nothing of the pipeline's state is
//! consulted, so the route answers the same before, during and after
//! authentication.

use vstd::prelude::*;
use vstd::string::StringExecFns;

verus! {

/// The liveness server's route table: the fixed alive response for
/// `/healthz`, nothing for any other path.
pub open spec fn spec_route(path: Seq<char>) -> Option<(u16, Seq<char>)> {
    if path == "/healthz"@ {
        Some((200u16, "I'm alive!"@))
    } else {
        None
    }
}

/// Answer one HTTP request to the liveness server: status and body for
/// `/healthz`, `None` (no such route) for every other path.  The headers are
/// taken and ignored: the answer is `spec_route` of the path alone.
pub fn route_request(path: &str, headers: &Vec<(String, String)>) -> (r: Option<(u16, String)>)
    ensures
        r is Some <==> spec_route(path@) is Some,
        r matches Some((status, body)) ==> Some((status, body@)) == spec_route(path@),
{
    let probe_path = String::from_str("/healthz");
    let requested = String::from_str(path);
    if requested == probe_path {
        Some((200, String::from_str("I'm alive!")))
    } else {
        None
    }
}

} // verus!
