//! The pipeline's state machine: authenticate, list locations, fetch state,
//! then stream events.
//!
//! The pipeline's network calls are performed outside the verified core;
//! this module holds the decisions between them.  Each response is handed
//! back in as an event, and the machine moves forward — or terminates with
//! the step's error — so that the ordering guarantees hold by construction:
//! authentication completes before the listing, the listing before the state
//! fetch and before the streaming target is selected.

use vstd::prelude::*;
use crate::auth::{access_token_in, authenticate, spec_is_success_status, AuthToken, Credential};
use crate::errors::BridgeError;
use crate::locations::{get_locations, location_views, locations_in, select_primary, Location};
use crate::state::{get_state, json_well_formed, StateSnapshot};

verus! {

/// Where the pipeline stands.  Every datum a later step needs is gathered
/// before the state that needs it can be reached.
pub enum PipelineState {
    /// Before authentication: holds the operator-supplied credential pair.
    NeedAuth { credential: Credential },
    /// Token in hand, before the location listing.
    NeedLocations { token: AuthToken },
    /// Locations known (in server order), before the diagnostic state fetch.
    NeedState { token: AuthToken, locations: Vec<Location> },
    /// Everything gathered: ready to open the realtime connection to the
    /// primary location.  The snapshot is diagnostic only.
    NeedStream { token: AuthToken, location: Location, snapshot: StateSnapshot },
    /// Terminal: the pipeline's result.
    Complete { result: Result<(), BridgeError> },
}

/// What the surrounding process should do next for a given state.
pub enum PipelineAction {
    /// POST the credential pair to the authentication endpoint.
    PostAuth,
    /// GET the location listing with the bearer token.
    GetLocations,
    /// GET the primary location's state snapshot with the bearer token.
    GetState,
    /// Open the realtime connection and block on the failure signal.
    OpenStream,
    /// The pipeline is over; surface its result.
    Stop,
}

/// One response handed back into the pipeline.
pub enum PipelineEvent {
    /// The authentication endpoint answered.
    AuthResponse { status: u16, body: String },
    /// The locations endpoint answered.
    LocationsResponse { status: u16, body: String },
    /// The home-state endpoint answered.
    StateResponse { status: u16, body: String },
    /// The realtime bridge's blocking wait resolved with this recorded
    /// failure.
    StreamFailed { message: String },
}

/// The pipeline's starting state, from the operator-supplied credential.
pub fn start_pipeline(credential: Credential) -> (r: PipelineState)
    ensures
        r matches PipelineState::NeedAuth { credential: c } && c == credential,
{
    PipelineState::NeedAuth { credential }
}

/// The next thing to do in each state.
pub fn next_action(s: &PipelineState) -> (r: PipelineAction)
    ensures
        r is PostAuth <==> s is NeedAuth,
        r is GetLocations <==> s is NeedLocations,
        r is GetState <==> s is NeedState,
        r is OpenStream <==> s is NeedStream,
        r is Stop <==> s is Complete,
{
    match s {
        PipelineState::NeedAuth { .. } => PipelineAction::PostAuth,
        PipelineState::NeedLocations { .. } => PipelineAction::GetLocations,
        PipelineState::NeedState { .. } => PipelineAction::GetState,
        PipelineState::NeedStream { .. } => PipelineAction::OpenStream,
        PipelineState::Complete { .. } => PipelineAction::Stop,
    }
}

/// Advance the pipeline by one response.
///
/// Each event kind is only valid in the state that awaits it; the location
/// list must be non-empty once the state fetch is answered, since the
/// primary location is selected by position then (the surrounding process
/// checks this before fetching, and treats an empty listing as fatal).
///
/// The decode of each response follows the endpoint's contract exactly: a
/// failed authentication ends the pipeline with `AuthError`, a failed
/// listing or state fetch with `ApiError`, and the resolved stream wait with
/// a `StreamError` carrying the recorded failure message.  The token moves
/// unchanged from step to step, and the locations keep server order.
pub fn pipeline_step(s: PipelineState, e: PipelineEvent) -> (r: PipelineState)
    requires
        e is AuthResponse ==> s is NeedAuth,
        e is LocationsResponse ==> s is NeedLocations,
        e is StateResponse ==> (s matches PipelineState::NeedState { locations, .. }
            && locations@.len() >= 1),
        e is StreamFailed ==> s is NeedStream,
    ensures
        e matches PipelineEvent::AuthResponse { status, body } ==> (if spec_is_success_status(
            status,
        ) && access_token_in(body@) is Some {
            r matches PipelineState::NeedLocations { token } && Some(token@) == access_token_in(
                body@,
            )
        } else {
            r matches PipelineState::Complete { result } && result matches Err(err)
                && err is AuthError
        }),
        s matches PipelineState::NeedLocations { token } ==> (e matches
            PipelineEvent::LocationsResponse { status, body } ==> (if spec_is_success_status(
            status,
        ) && locations_in(body@) is Some {
            r matches PipelineState::NeedState { token: t, locations } && t == token && Some(
                location_views(locations@),
            ) == locations_in(body@)
        } else {
            r matches PipelineState::Complete { result } && result matches Err(err)
                && err is ApiError
        })),
        s matches PipelineState::NeedState { token, locations } ==> (e matches
            PipelineEvent::StateResponse { status, body } ==> (if spec_is_success_status(status)
            && json_well_formed(body@) {
            r matches PipelineState::NeedStream { token: t, location, snapshot } && t == token
                && location == locations@[0] && snapshot.document@ == body@
        } else {
            r matches PipelineState::Complete { result } && result matches Err(err)
                && err is ApiError
        })),
        e matches PipelineEvent::StreamFailed { message } ==> (r matches PipelineState::Complete {
            result,
        } && result matches Err(err) && err is StreamError && err.message_spec() == message@),
{
    match (s, e) {
        (PipelineState::NeedAuth { .. }, PipelineEvent::AuthResponse { status, body }) => {
            match authenticate(status, body.as_str()) {
                Ok(token) => PipelineState::NeedLocations { token },
                Err(err) => PipelineState::Complete { result: Err(err) },
            }
        },
        (
            PipelineState::NeedLocations { token },
            PipelineEvent::LocationsResponse { status, body },
        ) => {
            match get_locations(status, body.as_str()) {
                Ok(locations) => PipelineState::NeedState { token, locations },
                Err(err) => PipelineState::Complete { result: Err(err) },
            }
        },
        (
            PipelineState::NeedState { token, locations },
            PipelineEvent::StateResponse { status, body },
        ) => {
            match get_state(status, body.as_str()) {
                Ok(snapshot) => {
                    let location = select_primary(&locations).clone();
                    PipelineState::NeedStream { token, location, snapshot }
                },
                Err(err) => PipelineState::Complete { result: Err(err) },
            }
        },
        (PipelineState::NeedStream { .. }, PipelineEvent::StreamFailed { message }) => {
            PipelineState::Complete { result: Err(BridgeError::StreamError(message)) }
        },
        _ => unreached(),
    }
}

} // verus!
