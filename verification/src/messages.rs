//! The protocol messages a session receives, as plain values.
//!
//! Identifiers are 64-bit integers. Dictionaries and argument lists are
//! carried as the JSON text in which they travelled; the session never reads
//! them, it only hands them to the handler that is due.

use vstd::prelude::*;

verus! {

/// Message code of a subscribe request.
pub const SUBSCRIBE: u64 = 32;

/// Message code of an unsubscribe request.
pub const UNSUBSCRIBE: u64 = 34;

/// Message code of a call request.
pub const CALL: u64 = 48;

/// Message code of a publish request.
pub const PUBLISH: u64 = 16;

/// Message code of a register request.
pub const REGISTER: u64 = 64;

/// Message code of an unregister request.
pub const UNREGISTER: u64 = 66;

/// The router accepted the session.
#[derive(Clone, Debug, PartialEq, Eq)]
pub struct Welcome {
    pub session: u64,
    pub details: String,
}

/// The router asks the client to authenticate.
#[derive(Clone, Debug, PartialEq, Eq)]
pub struct Challenge {
    pub authmethod: String,
    pub details: String,
}

/// The router refused or aborted the session.
#[derive(Clone, Debug, PartialEq, Eq)]
pub struct Abort {
    pub details: String,
    pub reason: String,
}

/// The router closes the session.
#[derive(Clone, Debug, PartialEq, Eq)]
pub struct Goodbye {
    pub details: String,
    pub reason: String,
}

/// A request failed. `request_type` is the message code of the request that
/// failed and `request` is the id under which it was issued.
#[derive(Clone, Debug, PartialEq, Eq)]
pub struct ErrorMessage {
    pub request_type: u64,
    pub request: u64,
    pub details: String,
    pub error: String,
    pub args: String,
    pub kwargs: String,
}

/// A publish request was accepted.
#[derive(Clone, Debug, PartialEq, Eq)]
pub struct Published {
    pub request: u64,
    pub publication: u64,
}

/// A subscribe request was accepted; `subscription` names the subscription
/// from now on.
#[derive(Clone, Debug, PartialEq, Eq)]
pub struct Subscribed {
    pub request: u64,
    pub subscription: u64,
}

/// An unsubscribe request was accepted.
#[derive(Clone, Debug, PartialEq, Eq)]
pub struct Unsubscribed {
    pub request: u64,
}

/// An event published to a subscription. It names the subscription, not a
/// request.
#[derive(Clone, Debug, PartialEq, Eq)]
pub struct Event {
    pub subscription: u64,
    pub publication: u64,
    pub details: String,
    pub args: String,
    pub kwargs: String,
}

/// The result of a call.
#[derive(Clone, Debug, PartialEq, Eq)]
pub struct MessageResult {
    pub request: u64,
    pub details: String,
    pub args: String,
    pub kwargs: String,
}

/// A register request was accepted.
#[derive(Clone, Debug, PartialEq, Eq)]
pub struct Registered {
    pub request: u64,
    pub registration: u64,
}

/// An unregister request was accepted.
#[derive(Clone, Debug, PartialEq, Eq)]
pub struct Unregistered {
    pub request: u64,
}

/// The router asks to cancel a running invocation.
#[derive(Clone, Debug, PartialEq, Eq)]
pub struct Interrupt {
    pub request: u64,
    pub options: String,
}

/// The result of an invocation.
#[derive(Clone, Debug, PartialEq, Eq)]
pub struct Yield {
    pub request: u64,
    pub options: String,
    pub args: String,
    pub kwargs: String,
}

/// The lists of requests that wait for their one response.
#[derive(Clone, Copy, Debug, PartialEq, Eq, Structural)]
pub enum Pending {
    Subscribed,
    CallResult,
    Published,
    Unsubscribed,
    Registered,
    Unregistered,
}

/// One decoded inbound message.
#[derive(Clone, Debug, PartialEq, Eq)]
pub enum WampEvents {
    Welcome(Welcome),
    Challenge(Challenge),
    Abort(Abort),
    Goodbye(Goodbye),
    ErrorMessage(ErrorMessage),
    Published(Published),
    Subscribed(Subscribed),
    Unsubscribed(Unsubscribed),
    Event(Event),
    MessageResult(MessageResult),
    Registered(Registered),
    Unregistered(Unregistered),
    Interrupt(Interrupt),
    Yield(Yield),
    /// Any other message, by its message code. A session has no use for it.
    Other(u64),
}

/// The list in which a request of the kind with this message code waits
/// for its response, and so the list that an error of such a request goes
/// to. A publish that failed is answered in the list of the calls. A code
/// that is none of subscribe, call, publish, unsubscribe, register and
/// unregister has no list.
pub open spec fn spec_waits_in(request_type: u64) -> Option<Pending> {
    if request_type == SUBSCRIBE {
        Some(Pending::Subscribed)
    } else if request_type == CALL || request_type == PUBLISH {
        Some(Pending::CallResult)
    } else if request_type == UNSUBSCRIBE {
        Some(Pending::Unsubscribed)
    } else if request_type == REGISTER {
        Some(Pending::Registered)
    } else if request_type == UNREGISTER {
        Some(Pending::Unregistered)
    } else {
        None
    }
}

#[verifier::when_used_as_spec(spec_waits_in)]
pub fn waits_in(request_type: u64) -> (list: Option<Pending>)
    ensures
        list == spec_waits_in(request_type),
{
    if request_type == SUBSCRIBE {
        Some(Pending::Subscribed)
    } else if request_type == CALL || request_type == PUBLISH {
        Some(Pending::CallResult)
    } else if request_type == UNSUBSCRIBE {
        Some(Pending::Unsubscribed)
    } else if request_type == REGISTER {
        Some(Pending::Registered)
    } else if request_type == UNREGISTER {
        Some(Pending::Unregistered)
    } else {
        None
    }
}

impl WampEvents {
    /// The pending request that this message answers: the list it waits in
    /// and its request id. A confirmation or result answers the request in
    /// its own list; an error answers the request in the list that it is
    /// routed to, and none where the kind of request that failed has no
    /// list. No other message answers a request.
    pub open spec fn spec_answers(&self) -> Option<(Pending, u64)> {
        match *self {
            WampEvents::Subscribed(m) => Some((Pending::Subscribed, m.request)),
            WampEvents::MessageResult(m) => Some((Pending::CallResult, m.request)),
            WampEvents::Published(m) => Some((Pending::Published, m.request)),
            WampEvents::Unsubscribed(m) => Some((Pending::Unsubscribed, m.request)),
            WampEvents::Registered(m) => Some((Pending::Registered, m.request)),
            WampEvents::Unregistered(m) => Some((Pending::Unregistered, m.request)),
            WampEvents::ErrorMessage(m) => match spec_waits_in(m.request_type) {
                Some(list) => Some((list, m.request)),
                None => None,
            },
            _ => None,
        }
    }

    #[verifier::when_used_as_spec(spec_answers)]
    pub fn answers(&self) -> (answered: Option<(Pending, u64)>)
        ensures
            answered == self.spec_answers(),
    {
        match self {
            WampEvents::Subscribed(m) => Some((Pending::Subscribed, m.request)),
            WampEvents::MessageResult(m) => Some((Pending::CallResult, m.request)),
            WampEvents::Published(m) => Some((Pending::Published, m.request)),
            WampEvents::Unsubscribed(m) => Some((Pending::Unsubscribed, m.request)),
            WampEvents::Registered(m) => Some((Pending::Registered, m.request)),
            WampEvents::Unregistered(m) => Some((Pending::Unregistered, m.request)),
            WampEvents::ErrorMessage(m) => match waits_in(m.request_type) {
                Some(list) => Some((list, m.request)),
                None => None,
            },
            _ => None,
        }
    }
}

} // verus!
