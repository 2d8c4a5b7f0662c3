//! The terminal error kinds of the bridge.
//!
//! Every error is terminal at the process level: nothing is retried, and each
//! kind surfaces as the supervisor's race result.

use vstd::prelude::*;

verus! {

/// The four terminal failure kinds of the bridge.
///
/// Each variant carries a human-readable message.
#[derive(Debug)]
pub enum BridgeError {
    /// Bad credentials or a malformed authentication response.
    AuthError(String),
    /// A transport or decode failure while listing locations or fetching state.
    ApiError(String),
    /// The liveness server could not bind its listen address.
    BindError(String),
    /// The realtime connection terminated, for any reason.
    StreamError(String),
}

impl BridgeError {
    /// The message carried by the error, whichever kind it is.
    pub fn message(&self) -> (r: &String)
        ensures
            r@ == self.message_spec(),
    {
        match self {
            BridgeError::AuthError(m) => m,
            BridgeError::ApiError(m) => m,
            BridgeError::BindError(m) => m,
            BridgeError::StreamError(m) => m,
        }
    }

    /// The message carried by the error, at the specification level.
    pub open spec fn message_spec(&self) -> Seq<char> {
        match self {
            BridgeError::AuthError(m) => m@,
            BridgeError::ApiError(m) => m@,
            BridgeError::BindError(m) => m@,
            BridgeError::StreamError(m) => m@,
        }
    }
}

} // verus!
