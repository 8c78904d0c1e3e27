//! What can go wrong between the session and its collaborators.

use vstd::prelude::*;
use websockets::WebSocketError;

verus! {

/// `websockets::WebSocketError`, the error of the transport. The session
/// carries such a value to its caller and never looks inside.
#[verifier::external_type_specification]
#[verifier::external_body]
pub struct ExWebSocketError(websockets::WebSocketError);

/// The failures a session operation reports.
#[derive(Debug)]
pub enum Error {
    /// There is no connection to send on.
    NoWebsocketError,
    /// The transport failed.
    WsError(WebSocketError),
    /// A message could not be encoded; the text says why.
    JsonError(String),
}

} // verus!
