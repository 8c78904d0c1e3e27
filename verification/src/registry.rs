//! The registry as mathematics: what it holds, where a message is routed,
//! and how the registry changes over one cycle of the session.

use vstd::prelude::*;
use crate::callback::{CallbackHandler, Events, Handler, Handlers, SessionKind};
use crate::client::Context;
use crate::messages::{spec_waits_in, Pending, WampEvents};

verus! {

/// A registry, every list as a sequence in registration order.
#[verifier::ext_equal]
pub struct Registry<H: Handlers> {
    pub callbacks: Seq<Events<H>>,
    pub subscriptions: Seq<(u64, H::Event, Option<u64>)>,
    pub on_subscribed: Seq<(u64, H::Subscribed)>,
    pub call_results: Seq<(u64, H::CallResult)>,
    pub publish_callbacks: Seq<(u64, H::Published)>,
    pub unsubscribe_callbacks: Seq<(u64, H::Unsubscribed)>,
    pub register_callbacks: Seq<(u64, H::Registered)>,
    pub unregistered_callbacks: Seq<(u64, H::Unregistered)>,
    pub message_queue: Seq<String>,
}

/// The handler that a message is routed to: none, or the place of the
/// handler in its list.
pub enum Route {
    /// No handler is due; the context passes through untouched.
    Unrouted,
    /// The session-level handler at this place.
    Session(int),
    /// The pending request at this place of this list.
    Pending(Pending, int),
    /// The subscription at this place.
    Subscription(int),
}

/// The request ids of a list of pending requests, in order.
pub open spec fn keys<X>(list: Seq<(u64, X)>) -> Seq<u64> {
    Seq::new(list.len(), |i: int| list[i].0)
}

/// The kinds that a list of session-level handlers is for, in order.
pub open spec fn kinds<H: Handlers>(callbacks: Seq<Events<H>>) -> Seq<SessionKind> {
    Seq::new(callbacks.len(), |i: int| callbacks[i].spec_kind())
}

/// The subscription ids that a list of subscriptions is resolved to, in
/// order; `None` where the confirmation has not come yet.
pub open spec fn resolutions<X>(subscriptions: Seq<(u64, X, Option<u64>)>) -> Seq<Option<u64>> {
    Seq::new(subscriptions.len(), |i: int| subscriptions[i].2)
}

/// Holds of the pending requests that were issued under another id.
pub open spec fn other_request<X>(request: u64) -> spec_fn((u64, X)) -> bool {
    |entry: (u64, X)| entry.0 != request
}

/// Holds of the subscriptions that are not resolved to this id.
pub open spec fn other_subscription<X>(subscription: u64) -> spec_fn(
    (u64, X, Option<u64>),
) -> bool {
    |entry: (u64, X, Option<u64>)| entry.2 != Some(subscription)
}

/// The subscriptions after a confirmation: those opened under `request` are
/// resolved to `subscription`, the others are as they were.
pub open spec fn resolve<X>(
    subscriptions: Seq<(u64, X, Option<u64>)>,
    request: u64,
    subscription: u64,
) -> Seq<(u64, X, Option<u64>)> {
    Seq::new(
        subscriptions.len(),
        |i: int|
            if subscriptions[i].0 == request {
                (subscriptions[i].0, subscriptions[i].1, Some(subscription))
            } else {
                subscriptions[i]
            },
    )
}

/// Filtering one entry more: the entry at place `k` comes behind what the
/// first `k` entries left if it is to be kept, and is left out if not.
pub proof fn lemma_filter_next<A>(s: Seq<A>, keep: spec_fn(A) -> bool, k: int)
    requires
        0 <= k < s.len(),
    ensures
        s.take(k + 1).filter(keep) == if keep(s[k]) {
            s.take(k).filter(keep).push(s[k])
        } else {
            s.take(k).filter(keep)
        },
{
    reveal(Seq::filter);
    assert(s.take(k + 1).drop_last() =~= s.take(k));
    assert(s.take(k + 1).last() == s[k]);
}

/// Filtering no entry leaves none.
pub proof fn lemma_filter_none<A>(s: Seq<A>, keep: spec_fn(A) -> bool)
    ensures
        s.take(0).filter(keep) == Seq::<A>::empty(),
{
    reveal(Seq::filter);
    assert(s.take(0).filter(keep) =~= Seq::<A>::empty());
}

/// The first place of a value is the one place that holds it with no such
/// place before.
pub proof fn lemma_first_at<A>(s: Seq<A>, needle: A, i: int)
    requires
        0 <= i < s.len(),
        s[i] == needle,
        forall|j: int| 0 <= j < i ==> s[j] != needle,
    ensures
        s.index_of_first(needle) == Some(i),
{
    s.index_of_first_ensures(needle);
    assert(s.contains(needle));
}

/// A value that occurs nowhere has no first place, and the other way round.
pub proof fn lemma_first_absent<A>(s: Seq<A>, needle: A)
    ensures
        s.index_of_first(needle) is None <==> forall|j: int| 0 <= j < s.len() ==> s[j] != needle,
{
    s.index_of_first_ensures(needle);
    if s.index_of_first(needle) is None {
        assert forall|j: int| 0 <= j < s.len() implies s[j] != needle by {
            if s[j] == needle {
                assert(s.contains(needle));
            }
        }
    }
}

/// The route to the first entry of `list` that equals `wanted`.
pub open spec fn first_session(list: Seq<SessionKind>, wanted: SessionKind) -> Route {
    match list.index_of_first(wanted) {
        Some(i) => Route::Session(i),
        None => Route::Unrouted,
    }
}

/// What a session-level handler may hand back for a message: the outcome of
/// its call where it is a handler for that kind of message.
pub open spec fn session_outcome<H: Handlers>(
    callback: Events<H>,
    event: WampEvents,
    context: Context<H>,
    returned: Context<H>,
) -> bool {
    match (callback, event) {
        (Events::Welcome(handler), WampEvents::Welcome(m)) => handler.outcome(
            context,
            m,
            returned,
        ),
        (Events::Challenge(handler), WampEvents::Challenge(m)) => handler.outcome(
            context,
            m,
            returned,
        ),
        (Events::Abort(handler), WampEvents::Abort(m)) => handler.outcome(context, m, returned),
        (Events::Goodbye(handler), WampEvents::Goodbye(m)) => handler.outcome(
            context,
            m,
            returned,
        ),
        (Events::Error(handler), WampEvents::ErrorMessage(m)) => handler.outcome(
            context,
            m,
            returned,
        ),
        (Events::Interrupt(handler), WampEvents::Interrupt(m)) => handler.outcome(
            context,
            m,
            returned,
        ),
        (Events::Yield(handler), WampEvents::Yield(m)) => handler.outcome(context, m, returned),
        _ => returned == context,
    }
}

impl<H: Handlers> Registry<H> {
    /// The registry that holds nothing.
    pub open spec fn empty() -> Registry<H> {
        Registry {
            callbacks: Seq::empty(),
            subscriptions: Seq::empty(),
            on_subscribed: Seq::empty(),
            call_results: Seq::empty(),
            publish_callbacks: Seq::empty(),
            unsubscribe_callbacks: Seq::empty(),
            register_callbacks: Seq::empty(),
            unregistered_callbacks: Seq::empty(),
            message_queue: Seq::empty(),
        }
    }

    /// This registry with `text` at the end of the outbound queue.
    pub open spec fn enqueued(self, text: String) -> Registry<H> {
        Registry { message_queue: self.message_queue.push(text), ..self }
    }

    /// This registry without the subscriptions that are resolved to
    /// `subscription`.
    pub open spec fn unsubscribed(self, subscription: u64) -> Registry<H> {
        Registry {
            subscriptions: self.subscriptions.filter(other_subscription(subscription)),
            ..self
        }
    }

    /// The request ids that wait in a list, in order.
    pub open spec fn requests(self, list: Pending) -> Seq<u64> {
        match list {
            Pending::Subscribed => keys(self.on_subscribed),
            Pending::CallResult => keys(self.call_results),
            Pending::Published => keys(self.publish_callbacks),
            Pending::Unsubscribed => keys(self.unsubscribe_callbacks),
            Pending::Registered => keys(self.register_callbacks),
            Pending::Unregistered => keys(self.unregistered_callbacks),
        }
    }

    /// The route to the first request of `list` that waits under `request`.
    pub open spec fn first_pending(self, list: Pending, request: u64) -> Route {
        match self.requests(list).index_of_first(request) {
            Some(i) => Route::Pending(list, i),
            None => Route::Unrouted,
        }
    }

    /// Where an error message goes: to the first request that waits under
    /// its request id in the list of the kind of request that failed;
    /// where that kind has no list, to the session's first error handler.
    pub open spec fn error_route(self, request_type: u64, request: u64) -> Route {
        match spec_waits_in(request_type) {
            Some(list) => self.first_pending(list, request),
            None => first_session(kinds(self.callbacks), SessionKind::Error),
        }
    }

    /// The handler that is due for a message: always the first that matches.
    pub open spec fn route(self, event: WampEvents) -> Route {
        match event {
            WampEvents::Welcome(_) => first_session(kinds(self.callbacks), SessionKind::Welcome),
            WampEvents::Challenge(_) => first_session(
                kinds(self.callbacks),
                SessionKind::Challenge,
            ),
            WampEvents::Abort(_) => first_session(kinds(self.callbacks), SessionKind::Abort),
            WampEvents::Goodbye(_) => first_session(kinds(self.callbacks), SessionKind::Goodbye),
            WampEvents::Interrupt(_) => first_session(
                kinds(self.callbacks),
                SessionKind::Interrupt,
            ),
            WampEvents::Yield(_) => first_session(kinds(self.callbacks), SessionKind::Yield),
            WampEvents::ErrorMessage(m) => self.error_route(m.request_type, m.request),
            WampEvents::Subscribed(m) => self.first_pending(Pending::Subscribed, m.request),
            WampEvents::MessageResult(m) => self.first_pending(Pending::CallResult, m.request),
            WampEvents::Published(m) => self.first_pending(Pending::Published, m.request),
            WampEvents::Unsubscribed(m) => self.first_pending(Pending::Unsubscribed, m.request),
            WampEvents::Registered(m) => self.first_pending(Pending::Registered, m.request),
            WampEvents::Unregistered(m) => self.first_pending(Pending::Unregistered, m.request),
            WampEvents::Event(m) => match resolutions(self.subscriptions).index_of_first(
                Some(m.subscription),
            ) {
                Some(i) => Route::Subscription(i),
                None => Route::Unrouted,
            },
            WampEvents::Other(_) => Route::Unrouted,
        }
    }

    /// What the pending request at place `i` of `list` may hand back for a
    /// message: the outcome of its call on the response, or on the error
    /// that came in its place.
    pub open spec fn pending_outcome(
        self,
        list: Pending,
        i: int,
        event: WampEvents,
        context: Context<H>,
        returned: Context<H>,
    ) -> bool {
        match (list, event) {
            (Pending::Subscribed, WampEvents::Subscribed(m)) => self.on_subscribed[i].1.outcome(
                context,
                Ok(m),
                returned,
            ),
            (Pending::Subscribed, WampEvents::ErrorMessage(m)) => self.on_subscribed[i].1.outcome(
                context,
                Err(m),
                returned,
            ),
            (Pending::CallResult, WampEvents::MessageResult(m)) => self.call_results[i].1.outcome(
                context,
                Ok(m),
                returned,
            ),
            (Pending::CallResult, WampEvents::ErrorMessage(m)) => self.call_results[i].1.outcome(
                context,
                Err(m),
                returned,
            ),
            (Pending::Published, WampEvents::Published(m)) => self.publish_callbacks[i].1.outcome(
                context,
                Ok(m),
                returned,
            ),
            (Pending::Published, WampEvents::ErrorMessage(m)) => self.publish_callbacks[i].1.outcome(
                context,
                Err(m),
                returned,
            ),
            (
                Pending::Unsubscribed,
                WampEvents::Unsubscribed(m),
            ) => self.unsubscribe_callbacks[i].1.outcome(context, Ok(m), returned),
            (
                Pending::Unsubscribed,
                WampEvents::ErrorMessage(m),
            ) => self.unsubscribe_callbacks[i].1.outcome(context, Err(m), returned),
            (Pending::Registered, WampEvents::Registered(m)) => self.register_callbacks[i].1.outcome(
                context,
                Ok(m),
                returned,
            ),
            (
                Pending::Registered,
                WampEvents::ErrorMessage(m),
            ) => self.register_callbacks[i].1.outcome(context, Err(m), returned),
            (
                Pending::Unregistered,
                WampEvents::Unregistered(m),
            ) => self.unregistered_callbacks[i].1.outcome(context, Ok(m), returned),
            (
                Pending::Unregistered,
                WampEvents::ErrorMessage(m),
            ) => self.unregistered_callbacks[i].1.outcome(context, Err(m), returned),
            _ => returned == context,
        }
    }

    /// What dispatching a message may hand back: the context untouched where
    /// no handler is due, else the outcome of calling the one handler that
    /// is due, on the context and the message's payload.
    pub open spec fn handled(
        self,
        event: WampEvents,
        context: Context<H>,
        returned: Context<H>,
    ) -> bool {
        match self.route(event) {
            Route::Unrouted => returned == context,
            Route::Session(i) => session_outcome(self.callbacks[i], event, context, returned),
            Route::Pending(list, i) => self.pending_outcome(list, i, event, context, returned),
            Route::Subscription(i) => match event {
                WampEvents::Event(m) => self.subscriptions[i].1.outcome(context, m, returned),
                _ => returned == context,
            },
        }
    }

    /// The registry once a message was dispatched: a confirmation of a
    /// subscription resolves the subscriptions opened under its request id;
    /// any other message changes nothing.
    pub open spec fn confirmed(self, event: WampEvents) -> Registry<H> {
        match event {
            WampEvents::Subscribed(m) => Registry {
                subscriptions: resolve(self.subscriptions, m.request, m.subscription),
                ..self
            },
            _ => self,
        }
    }

    /// This registry with everything of `other` behind it, list by list.
    pub open spec fn merged(self, other: Registry<H>) -> Registry<H> {
        Registry {
            callbacks: self.callbacks + other.callbacks,
            subscriptions: self.subscriptions + other.subscriptions,
            on_subscribed: self.on_subscribed + other.on_subscribed,
            call_results: self.call_results + other.call_results,
            publish_callbacks: self.publish_callbacks + other.publish_callbacks,
            unsubscribe_callbacks: self.unsubscribe_callbacks + other.unsubscribe_callbacks,
            register_callbacks: self.register_callbacks + other.register_callbacks,
            unregistered_callbacks: self.unregistered_callbacks + other.unregistered_callbacks,
            message_queue: self.message_queue + other.message_queue,
        }
    }

    /// This registry without the requests that wait in `list` under
    /// `request`.
    pub open spec fn completed(self, list: Pending, request: u64) -> Registry<H> {
        match list {
            Pending::Subscribed => Registry {
                on_subscribed: self.on_subscribed.filter(other_request(request)),
                ..self
            },
            Pending::CallResult => Registry {
                call_results: self.call_results.filter(other_request(request)),
                ..self
            },
            Pending::Published => Registry {
                publish_callbacks: self.publish_callbacks.filter(other_request(request)),
                ..self
            },
            Pending::Unsubscribed => Registry {
                unsubscribe_callbacks: self.unsubscribe_callbacks.filter(other_request(request)),
                ..self
            },
            Pending::Registered => Registry {
                register_callbacks: self.register_callbacks.filter(other_request(request)),
                ..self
            },
            Pending::Unregistered => Registry {
                unregistered_callbacks: self.unregistered_callbacks.filter(
                    other_request(request),
                ),
                ..self
            },
        }
    }

    /// This registry once the request that `event` answers, if it answers
    /// one, is taken off its list.
    pub open spec fn settled(self, event: WampEvents) -> Registry<H> {
        match event.spec_answers() {
            Some((list, request)) => self.completed(list, request),
            None => self,
        }
    }

    /// This registry with an empty outbound queue.
    pub open spec fn drained(self) -> Registry<H> {
        Registry { message_queue: Seq::empty(), ..self }
    }

    /// The registry at the end of the cycle in which `event` came in and the
    /// handler that was due recorded `recorded`: the confirmation applied,
    /// the handler's registrations taken over, the answered request taken
    /// off its list, the queue handed to the transport.
    pub open spec fn cycled(self, event: WampEvents, recorded: Registry<H>) -> Registry<H> {
        self.confirmed(event).merged(recorded).settled(event).drained()
    }
}

impl<H: Handlers> View for CallbackHandler<H> {
    type V = Registry<H>;

    open spec fn view(&self) -> Registry<H> {
        Registry {
            callbacks: self.callbacks@,
            subscriptions: self.subscriptions@,
            on_subscribed: self.on_subscribed@,
            call_results: self.call_results@,
            publish_callbacks: self.publish_callbacks@,
            unsubscribe_callbacks: self.unsubscribe_callbacks@,
            register_callbacks: self.register_callbacks@,
            unregistered_callbacks: self.unregistered_callbacks@,
            message_queue: self.message_queue@,
        }
    }
}

} // verus!
