//! What holds of every registry: laws that relate registration, dispatch and
//! the end of a cycle.

use vstd::prelude::*;
use crate::callback::{Events, Handlers, SessionKind};
use crate::messages::{ErrorMessage, Event, Pending, Subscribed, WampEvents, CALL, PUBLISH};
use crate::messages::{REGISTER, SUBSCRIBE, UNREGISTER, UNSUBSCRIBE};
use crate::registry::{
    first_session, keys, kinds, lemma_first_absent, lemma_first_at, other_request, resolutions,
    Registry, Route,
};

verus! {

/// The kind of session-level handler that a message goes to by its own
/// kind alone. An error message has none: where it goes depends on the
/// request that failed.
pub open spec fn session_kind(event: WampEvents) -> Option<SessionKind> {
    match event {
        WampEvents::Welcome(_) => Some(SessionKind::Welcome),
        WampEvents::Challenge(_) => Some(SessionKind::Challenge),
        WampEvents::Abort(_) => Some(SessionKind::Abort),
        WampEvents::Goodbye(_) => Some(SessionKind::Goodbye),
        WampEvents::Interrupt(_) => Some(SessionKind::Interrupt),
        WampEvents::Yield(_) => Some(SessionKind::Yield),
        _ => None,
    }
}

/// A subscription is opened under `request` and confirmed as `subscription`.
/// Unless the registry already tracked a subscription under that request id
/// or one resolved to that subscription id, an event is then delivered to
/// the new subscription, and to its handler, if and only if it carries that
/// subscription id.
pub proof fn lemma_subscription_delivery<H: Handlers>(
    registry: Registry<H>,
    request: u64,
    subscription: u64,
    text: String,
    on_subscribed: H::Subscribed,
    on_event: H::Event,
    delivery: Event,
)
    requires
        forall|i: int|
            0 <= i < registry.subscriptions.len() ==> {
                &&& (#[trigger] registry.subscriptions[i]).0 != request
                &&& registry.subscriptions[i].2 != Some(subscription)
            },
    ensures
        ({
            let opened = Registry {
                subscriptions: registry.subscriptions.push((request, on_event, None)),
                on_subscribed: registry.on_subscribed.push((request, on_subscribed)),
                ..registry.enqueued(text)
            };
            let confirmed = opened.confirmed(
                WampEvents::Subscribed(Subscribed { request, subscription }),
            );
            let place = registry.subscriptions.len() as int;
            &&& confirmed.subscriptions[place].1 == on_event
            &&& confirmed.route(WampEvents::Event(delivery)) == Route::Subscription(place)
                <==> delivery.subscription == subscription
        }),
{
    let opened = Registry {
        subscriptions: registry.subscriptions.push((request, on_event, None)),
        on_subscribed: registry.on_subscribed.push((request, on_subscribed)),
        ..registry.enqueued(text)
    };
    let confirmed = opened.confirmed(
        WampEvents::Subscribed(Subscribed { request, subscription }),
    );
    let place = registry.subscriptions.len() as int;
    let ids = resolutions(confirmed.subscriptions);
    assert(ids[place] == Some(subscription));
    assert forall|j: int| 0 <= j < place implies ids[j] != Some(subscription) by {
        assert(opened.subscriptions[j] == registry.subscriptions[j]);
    }
    ids.index_of_first_ensures(Some(delivery.subscription));
    if delivery.subscription == subscription {
        lemma_first_at(ids, Some(subscription), place);
    }
}

/// An event is only ever delivered to a subscription that a confirmation
/// has resolved, and resolved to the subscription id that the event carries.
pub proof fn lemma_delivery_needs_resolution<H: Handlers>(
    registry: Registry<H>,
    delivery: Event,
    place: int,
)
    requires
        registry.route(WampEvents::Event(delivery)) == Route::Subscription(place),
    ensures
        0 <= place < registry.subscriptions.len(),
        registry.subscriptions[place].2 == Some(delivery.subscription),
{
    resolutions(registry.subscriptions).index_of_first_ensures(Some(delivery.subscription));
}

/// Over a cycle the session loses no session-level handler and no
/// subscription: those it had stay where they were, with their handlers,
/// and what the handler of the cycle recorded comes behind them.
pub proof fn lemma_cycle_keeps_what_persists<H: Handlers>(
    registry: Registry<H>,
    event: WampEvents,
    recorded: Registry<H>,
)
    ensures
        ({
            let after = registry.cycled(event, recorded);
            &&& after.callbacks == registry.callbacks + recorded.callbacks
            &&& after.subscriptions.len() == registry.subscriptions.len()
                + recorded.subscriptions.len()
            &&& forall|i: int|
                0 <= i < registry.subscriptions.len() ==> {
                    &&& (#[trigger] after.subscriptions[i]).0 == registry.subscriptions[i].0
                    &&& after.subscriptions[i].1 == registry.subscriptions[i].1
                }
            &&& after.message_queue.len() == 0
        }),
{
}

/// A message that answers a request is routed to the first request that
/// waits under the answered id in the answered list: what is called and what
/// is taken off the list afterwards go by the same list and id.
pub proof fn lemma_answer_is_routed_to_its_list<H: Handlers>(
    registry: Registry<H>,
    event: WampEvents,
)
    requires
        event.spec_answers() is Some,
    ensures
        registry.route(event) == registry.first_pending(
            event.spec_answers()->Some_0.0,
            event.spec_answers()->Some_0.1,
        ),
{
}

/// One-shot: once the cycle of a message that answers a request is over, be
/// it the confirmation, the result or an error, no request waits any more
/// under the id it answered, whatever the handler recorded, and a second
/// message that answers the same request is routed to no handler.
pub proof fn lemma_one_shot<H: Handlers>(
    registry: Registry<H>,
    event: WampEvents,
    recorded: Registry<H>,
    again: WampEvents,
)
    requires
        event.spec_answers() is Some,
        again.spec_answers() == event.spec_answers(),
    ensures
        ({
            let (list, request) = event.spec_answers()->Some_0;
            let after = registry.cycled(event, recorded);
            &&& !after.requests(list).contains(request)
            &&& after.route(again) == Route::Unrouted
        }),
{
    let (list, request) = event.spec_answers()->Some_0;
    let after = registry.cycled(event, recorded);
    let merged = registry.confirmed(event).merged(recorded);
    match list {
        Pending::Subscribed => lemma_forgotten(merged.on_subscribed, request),
        Pending::CallResult => lemma_forgotten(merged.call_results, request),
        Pending::Published => lemma_forgotten(merged.publish_callbacks, request),
        Pending::Unsubscribed => lemma_forgotten(merged.unsubscribe_callbacks, request),
        Pending::Registered => lemma_forgotten(merged.register_callbacks, request),
        Pending::Unregistered => lemma_forgotten(merged.unregistered_callbacks, request),
    }
    lemma_first_absent(after.requests(list), request);
    assert(after.route(again) == after.first_pending(list, request));
}

/// Taking the requests under an id off a list leaves none under that id.
pub proof fn lemma_forgotten<X>(list: Seq<(u64, X)>, request: u64)
    ensures
        !keys(list.filter(other_request(request))).contains(request),
{
    let kept = list.filter(other_request::<X>(request));
    let ids = keys(kept);
    assert forall|j: int| 0 <= j < ids.len() implies ids[j] != request by {
        list.lemma_filter_pred(other_request::<X>(request), j);
    }
}

/// First match: of two handlers registered one after the other for one kind
/// of session-level message, the second is never the one that a message of
/// that kind is routed to. Where a handler for the kind was registered
/// before them, it stays the one; else the first of the two is.
pub proof fn lemma_first_registered_wins<H: Handlers>(
    registry: Registry<H>,
    first: Events<H>,
    second: Events<H>,
    event: WampEvents,
)
    requires
        session_kind(event) == Some(first.spec_kind()),
        second.spec_kind() == first.spec_kind(),
    ensures
        ({
            let both = Registry {
                callbacks: registry.callbacks.push(first).push(second),
                ..registry
            };
            let place = registry.callbacks.len() as int;
            &&& both.route(event) != Route::Session(place + 1)
            &&& registry.route(event) is Unrouted ==> both.route(event) == Route::Session(place)
            &&& registry.route(event) !is Unrouted ==> both.route(event) == registry.route(event)
        }),
{
    let kind = first.spec_kind();
    let both = Registry { callbacks: registry.callbacks.push(first).push(second), ..registry };
    let place = registry.callbacks.len() as int;
    let before = kinds(registry.callbacks);
    let after = kinds(both.callbacks);
    assert(registry.route(event) == first_session(before, kind));
    assert(both.route(event) == first_session(after, kind));
    assert(after[place] == kind);
    assert forall|j: int| 0 <= j < place implies after[j] == before[j] by {
        assert(both.callbacks[j] == registry.callbacks[j]);
    }
    before.index_of_first_ensures(kind);
    match before.index_of_first(kind) {
        Some(i) => {
            lemma_first_at(after, kind, i);
        },
        None => {
            lemma_first_absent(before, kind);
            lemma_first_at(after, kind, place);
        },
    }
}

/// Error routing: the error of a call and the error of a publish both go to
/// the first request that waits for a call's result under the error's
/// request id, and both answer that request; an error whose request kind is
/// none of subscribe, call, publish, unsubscribe, register and unregister
/// goes to the first session-level error handler and answers no request.
pub proof fn lemma_error_routing<H: Handlers>(registry: Registry<H>, error: ErrorMessage)
    ensures
        error.request_type == CALL || error.request_type == PUBLISH ==> registry.route(
            WampEvents::ErrorMessage(error),
        ) == registry.first_pending(Pending::CallResult, error.request),
        error.request_type != SUBSCRIBE && error.request_type != CALL && error.request_type
            != PUBLISH && error.request_type != UNSUBSCRIBE && error.request_type != REGISTER
            && error.request_type != UNREGISTER ==> registry.route(
            WampEvents::ErrorMessage(error),
        ) == first_session(kinds(registry.callbacks), SessionKind::Error),
        error.request_type == CALL || error.request_type == PUBLISH ==> WampEvents::ErrorMessage(
            error,
        ).spec_answers() == Some((Pending::CallResult, error.request)),
        error.request_type != SUBSCRIBE && error.request_type != CALL && error.request_type
            != PUBLISH && error.request_type != UNSUBSCRIBE && error.request_type != REGISTER
            && error.request_type != UNREGISTER ==> WampEvents::ErrorMessage(
            error,
        ).spec_answers() is None,
{
}

} // verus!
