//! The location fetcher: decoding the provider's location list.
//!
//! The outbound GET is plain I/O and happens outside the verified core; this
//! module decides, from the response's status and body, which locations the
//! account has, preserving the server-provided order, and selects the primary
//! location deterministically by position.

use vstd::prelude::*;
use vstd::string::StringExecFns;
use crate::auth::{is_success_status, spec_is_success_status};
use crate::errors::BridgeError;

verus! {

/// One registered location of the account.  The process operates on exactly
/// one location: the first one returned by the provider.
pub struct Location {
    pub location_id: String,
    pub name: Option<String>,
}

/// The specification-level value of a `Location`.
pub ghost struct LocationView {
    pub location_id: Seq<char>,
    pub name: Option<Seq<char>>,
}

impl View for Location {
    type V = LocationView;

    open spec fn view(&self) -> LocationView {
        LocationView {
            location_id: self.location_id@,
            name: match self.name {
                Some(n) => Some(n@),
                None => None,
            },
        }
    }
}

impl Clone for Location {
    fn clone(&self) -> (r: Self)
        ensures
            r == self,
    {
        Location {
            location_id: self.location_id.clone(),
            name: match &self.name {
                Some(n) => Some(n.clone()),
                None => None,
            },
        }
    }
}

/// The specification-level values of a sequence of locations, in order.
pub open spec fn location_views(ls: Seq<Location>) -> Seq<LocationView> {
    ls.map_values(|l: Location| l@)
}

/// The locations listed in `body`, in the server-provided order, when `body`
/// parses as a JSON array of objects each carrying a string `locationId`
/// field (and optionally a string `name`); `None` otherwise.  This names the
/// result of the parse in `parse_locations`, which depends on the body alone.
pub uninterp spec fn locations_in(body: Seq<char>) -> Option<Seq<LocationView>>;

/// Relies on serde_json: `from_str` parses `body` as a JSON array, and
/// `Value::get` with `Value::as_str` read the `locationId` and `name` fields
/// of each element, in order.  The result is a function of `body` alone.
#[verifier::external_body]
fn parse_locations(body: &str) -> (r: Option<Vec<Location>>)
    ensures
        r is Some <==> locations_in(body@) is Some,
        r matches Some(ls) ==> locations_in(body@) == Some(location_views(ls@)),
{
    let items: Vec<serde_json::Value> = match serde_json::from_str(body) {
        Ok(v) => v,
        Err(_) => return None,
    };
    items.iter().map(|v| {
        let id = v.get("locationId")?.as_str()?.to_string();
        let name = v.get("name").and_then(|n| n.as_str()).map(|s| s.to_string());
        Some(Location { location_id: id, name })
    }).collect::<Option<Vec<Location>>>()
}

/// The decode step of the location listing: given the status and body of the
/// provider's response, produce the locations in server order.
///
/// Succeeds exactly when the status is 2xx and the body is a well-formed
/// location array; the returned sequence equals the body's, order included.
/// Every failure is an `ApiError`.
pub fn get_locations(status: u16, body: &str) -> (r: Result<Vec<Location>, BridgeError>)
    ensures
        r is Ok <==> (spec_is_success_status(status) && locations_in(body@) is Some),
        r matches Ok(ls) ==> Some(location_views(ls@)) == locations_in(body@),
        r matches Err(e) ==> e is ApiError,
{
    if !is_success_status(status) {
        return Err(BridgeError::ApiError(String::from_str(
            "listing locations failed: non-success status",
        )));
    }
    match parse_locations(body) {
        Some(ls) => Ok(ls),
        None => Err(BridgeError::ApiError(String::from_str(
            "listing locations failed: malformed response body",
        ))),
    }
}

/// The location this process operates on: selection by position is a policy
/// decision, and index 0 is deterministic for a given response.
pub fn select_primary(locations: &Vec<Location>) -> (r: &Location)
    requires
        locations@.len() >= 1,
    ensures
        *r == locations@[0],
{
    &locations[0]
}

} // verus!
