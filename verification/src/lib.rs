//! Session core of a WAMP client: it tracks outbound requests, correlates
//! them with their responses, routes inbound messages to the handlers that
//! are due, and keeps the queue of messages that wait for the transport.

pub mod callback;
pub mod client;
pub mod error;
pub mod laws;
pub mod messages;
pub mod registry;
pub mod request;
