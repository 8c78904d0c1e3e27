//! Handlers, and the registry that owns them.

use vstd::prelude::*;
use crate::client::Context;
use crate::error::Error;
use crate::registry::{
    keys, kinds, lemma_filter_next, lemma_filter_none, lemma_first_absent, lemma_first_at,
    other_request, other_subscription, resolutions, resolve, Registry,
};
use crate::messages::{
    Abort, Challenge, ErrorMessage, Event, Goodbye, Interrupt, MessageResult, Pending, Published,
    Registered, Subscribed, Unregistered, Unsubscribed, Welcome, Yield,
};

verus! {

/// Something that handles one kind of payload. It is handed a context of its
/// own, records in it the operations it wants performed, and hands it back.
/// It must return for every context and payload, and must not block.
///
/// The session proves nothing about a handler; it only says, through
/// `outcome`, which handler was called on what. A handler that is written
/// where nothing is verified keeps the `outcome` given here, under which any
/// context may come back.
pub trait Handler<C, T> {
    /// What the handler may hand back for a given context and payload. Unless
    /// an implementation says more, anything.
    open spec fn outcome(&self, context: C, payload: T, returned: C) -> bool {
        true
    }

    /// Handles `payload` on `context`.
    fn call(&self, context: C, payload: T) -> (returned: C)
        ensures
            self.outcome(context, payload, returned),
    ;
}

/// A function or closure as a handler. It must accept every context and
/// every payload; what it may hand back is what the function may return.
#[verifier::reject_recursive_types(C)]
#[verifier::reject_recursive_types(T)]
#[verifier::reject_recursive_types(F)]
pub struct Func<C, T, F: Fn(C, T) -> C> {
    f: F,
    context: core::marker::PhantomData<C>,
    payload: core::marker::PhantomData<T>,
}

impl<C, T, F: Fn(C, T) -> C> Func<C, T, F> {
    #[verifier::type_invariant]
    spec fn total(self) -> bool {
        forall|context: C, payload: T| call_requires(self.f, (context, payload))
    }

    /// The function that this handler calls.
    pub closed spec fn function(self) -> F {
        self.f
    }

    /// Makes a handler of a function that can be called on everything.
    pub fn new(f: F) -> (handler: Self)
        requires
            forall|context: C, payload: T| call_requires(f, (context, payload)),
        ensures
            handler.function() == f,
    {
        Func { f, context: core::marker::PhantomData, payload: core::marker::PhantomData }
    }
}

impl<C, T, F: Fn(C, T) -> C> Handler<C, T> for Func<C, T, F> {
    /// Whatever the function may return.
    open spec fn outcome(&self, context: C, payload: T, returned: C) -> bool {
        call_ensures(self.function(), (context, payload), returned)
    }

    fn call(&self, context: C, payload: T) -> (returned: C) {
        proof {
            use_type_invariant(self);
        }
        (self.f)(context, payload)
    }
}

/// What a pending request resolves to: the response, or the error that the
/// router sent in its place.
pub type Reply<T> = Result<T, ErrorMessage>;

/// The handler types of a session, one for each kind of payload. Every
/// handler works on a `Context` of the same family.
pub trait Handlers: Sized {
    type Welcome: Handler<Context<Self>, Welcome>;

    type Challenge: Handler<Context<Self>, Challenge>;

    type Abort: Handler<Context<Self>, Abort>;

    type Goodbye: Handler<Context<Self>, Goodbye>;

    type Error: Handler<Context<Self>, ErrorMessage>;

    type Interrupt: Handler<Context<Self>, Interrupt>;

    type Yield: Handler<Context<Self>, Yield>;

    type Event: Handler<Context<Self>, Event>;

    type Subscribed: Handler<Context<Self>, Reply<Subscribed>>;

    type CallResult: Handler<Context<Self>, Reply<MessageResult>>;

    type Published: Handler<Context<Self>, Reply<Published>>;

    type Unsubscribed: Handler<Context<Self>, Reply<Unsubscribed>>;

    type Registered: Handler<Context<Self>, Reply<Registered>>;

    type Unregistered: Handler<Context<Self>, Reply<Unregistered>>;
}

/// The kinds of session-level message that a handler can be registered for.
#[derive(Clone, Copy, Debug, PartialEq, Eq, Structural)]
pub enum SessionKind {
    Welcome,
    Challenge,
    Abort,
    Goodbye,
    Error,
    Interrupt,
    Yield,
}

/// A handler for a session-level message, tagged with the kind it handles.
pub enum Events<H: Handlers> {
    Welcome(H::Welcome),
    Challenge(H::Challenge),
    Abort(H::Abort),
    Goodbye(H::Goodbye),
    Error(H::Error),
    Interrupt(H::Interrupt),
    Yield(H::Yield),
}

impl<H: Handlers> Events<H> {
    pub open spec fn spec_kind(&self) -> SessionKind {
        match *self {
            Events::Welcome(_) => SessionKind::Welcome,
            Events::Challenge(_) => SessionKind::Challenge,
            Events::Abort(_) => SessionKind::Abort,
            Events::Goodbye(_) => SessionKind::Goodbye,
            Events::Error(_) => SessionKind::Error,
            Events::Interrupt(_) => SessionKind::Interrupt,
            Events::Yield(_) => SessionKind::Yield,
        }
    }

    /// The kind of message that this handler is for.
    #[verifier::when_used_as_spec(spec_kind)]
    pub fn kind(&self) -> (kind: SessionKind)
        ensures
            kind == self.spec_kind(),
    {
        match self {
            Events::Welcome(_) => SessionKind::Welcome,
            Events::Challenge(_) => SessionKind::Challenge,
            Events::Abort(_) => SessionKind::Abort,
            Events::Goodbye(_) => SessionKind::Goodbye,
            Events::Error(_) => SessionKind::Error,
            Events::Interrupt(_) => SessionKind::Interrupt,
            Events::Yield(_) => SessionKind::Yield,
        }
    }
}

/// The handlers, the pending requests and the outbound queue of a session.
pub struct CallbackHandler<H: Handlers> {
    pub callbacks: Vec<Events<H>>,
    pub subscriptions: Vec<(u64, H::Event, Option<u64>)>,
    pub on_subscribed: Vec<(u64, H::Subscribed)>,
    pub call_results: Vec<(u64, H::CallResult)>,
    pub publish_callbacks: Vec<(u64, H::Published)>,
    pub unsubscribe_callbacks: Vec<(u64, H::Unsubscribed)>,
    pub register_callbacks: Vec<(u64, H::Registered)>,
    pub unregistered_callbacks: Vec<(u64, H::Unregistered)>,
    pub message_queue: Vec<String>,
}

impl<H: Handlers> CallbackHandler<H> {
    /// A registry that holds nothing.
    pub fn new() -> (handler: CallbackHandler<H>)
        ensures
            handler@ == Registry::<H>::empty(),
    {
        CallbackHandler {
            callbacks: Vec::new(),
            subscriptions: Vec::new(),
            on_subscribed: Vec::new(),
            call_results: Vec::new(),
            publish_callbacks: Vec::new(),
            unsubscribe_callbacks: Vec::new(),
            register_callbacks: Vec::new(),
            unregistered_callbacks: Vec::new(),
            message_queue: Vec::new(),
        }
    }

    /// Puts everything that `handler` holds behind what this registry holds,
    /// list by list.
    pub fn merge(&mut self, handler: CallbackHandler<H>)
        ensures
            final(self)@ == old(self)@.merged(handler@),
    {
        let mut handler = handler;
        self.callbacks.append(&mut handler.callbacks);
        self.subscriptions.append(&mut handler.subscriptions);
        self.on_subscribed.append(&mut handler.on_subscribed);
        self.call_results.append(&mut handler.call_results);
        self.publish_callbacks.append(&mut handler.publish_callbacks);
        self.unsubscribe_callbacks.append(&mut handler.unsubscribe_callbacks);
        self.register_callbacks.append(&mut handler.register_callbacks);
        self.unregistered_callbacks.append(&mut handler.unregistered_callbacks);
        self.message_queue.append(&mut handler.message_queue);
    }

    /// Queues an encoded message for the transport. `encoded` is what the
    /// codec made of the message: where it failed, nothing is queued and the
    /// failure is reported.
    pub fn send(&mut self, encoded: Result<String, String>) -> (sent: Result<(), Error>)
        ensures
            match encoded {
                Ok(text) => sent is Ok && final(self)@ == old(self)@.enqueued(text),
                Err(why) => {
                    &&& sent == Err::<(), Error>(Error::JsonError(why))
                    &&& final(self)@ == old(self)@
                },
            },
    {
        match encoded {
            Ok(text) => {
                self.message_queue.push(text);
                Ok(())
            },
            Err(why) => Err(Error::JsonError(why)),
        }
    }

    /// Opens a subscription under `request`: queues the encoded request,
    /// tracks the subscription, still unresolved, with its event handler,
    /// and lets `on_subscribed` wait for the confirmation. Where the
    /// encoding failed, nothing changes.
    pub fn subscribe(
        &mut self,
        request: u64,
        encoded: Result<String, String>,
        on_subscribed: H::Subscribed,
        on_event: H::Event,
    ) -> (sent: Result<(), Error>)
        ensures
            match encoded {
                Ok(text) => sent is Ok && final(self)@ == (Registry {
                    subscriptions: old(self)@.subscriptions.push((request, on_event, None)),
                    on_subscribed: old(self)@.on_subscribed.push((request, on_subscribed)),
                    ..old(self)@.enqueued(text)
                }),
                Err(why) => {
                    &&& sent == Err::<(), Error>(Error::JsonError(why))
                    &&& final(self)@ == old(self)@
                },
            },
    {
        match self.send(encoded) {
            Ok(()) => {
                self.subscriptions.push((request, on_event, None));
                self.on_subscribed.push((request, on_subscribed));
                Ok(())
            },
            Err(error) => Err(error),
        }
    }

    /// Issues a call under `request`: queues the encoded request and lets
    /// `on_result` wait for the result. Where the encoding failed, nothing
    /// changes.
    pub fn call(&mut self, request: u64, encoded: Result<String, String>, on_result: H::CallResult)
        -> (sent: Result<(), Error>)
        ensures
            match encoded {
                Ok(text) => sent is Ok && final(self)@ == (Registry {
                    call_results: old(self)@.call_results.push((request, on_result)),
                    ..old(self)@.enqueued(text)
                }),
                Err(why) => {
                    &&& sent == Err::<(), Error>(Error::JsonError(why))
                    &&& final(self)@ == old(self)@
                },
            },
    {
        match self.send(encoded) {
            Ok(()) => {
                self.call_results.push((request, on_result));
                Ok(())
            },
            Err(error) => Err(error),
        }
    }

    /// Publishes under `request`: queues the encoded request and lets
    /// `on_published` wait for the confirmation. Where the encoding failed,
    /// nothing changes.
    pub fn publish(
        &mut self,
        request: u64,
        encoded: Result<String, String>,
        on_published: H::Published,
    ) -> (sent: Result<(), Error>)
        ensures
            match encoded {
                Ok(text) => sent is Ok && final(self)@ == (Registry {
                    publish_callbacks: old(self)@.publish_callbacks.push((request, on_published)),
                    ..old(self)@.enqueued(text)
                }),
                Err(why) => {
                    &&& sent == Err::<(), Error>(Error::JsonError(why))
                    &&& final(self)@ == old(self)@
                },
            },
    {
        match self.send(encoded) {
            Ok(()) => {
                self.publish_callbacks.push((request, on_published));
                Ok(())
            },
            Err(error) => Err(error),
        }
    }

    /// Ends the subscriptions that are resolved to `subscription`, at once
    /// and whatever the router will answer; then queues the encoded request
    /// and lets `on_unsubscribed` wait under `request` for the confirmation.
    /// Where the encoding failed, the subscriptions are gone all the same,
    /// nothing is queued and no handler waits.
    pub fn unsubscribe(
        &mut self,
        request: u64,
        subscription: u64,
        encoded: Result<String, String>,
        on_unsubscribed: H::Unsubscribed,
    ) -> (sent: Result<(), Error>)
        ensures
            match encoded {
                Ok(text) => sent is Ok && final(self)@ == (Registry {
                    unsubscribe_callbacks: old(self)@.unsubscribe_callbacks.push(
                        (request, on_unsubscribed),
                    ),
                    ..old(self)@.unsubscribed(subscription).enqueued(text)
                }),
                Err(why) => {
                    &&& sent == Err::<(), Error>(Error::JsonError(why))
                    &&& final(self)@ == old(self)@.unsubscribed(subscription)
                },
            },
    {
        drop_subscription(&mut self.subscriptions, subscription);
        match self.send(encoded) {
            Ok(()) => {
                self.unsubscribe_callbacks.push((request, on_unsubscribed));
                Ok(())
            },
            Err(error) => Err(error),
        }
    }

    /// Registers a procedure under `request`: queues the encoded request and
    /// lets `on_registered` wait for the confirmation. Where the encoding
    /// failed, nothing changes.
    pub fn register(
        &mut self,
        request: u64,
        encoded: Result<String, String>,
        on_registered: H::Registered,
    ) -> (sent: Result<(), Error>)
        ensures
            match encoded {
                Ok(text) => sent is Ok && final(self)@ == (Registry {
                    register_callbacks: old(self)@.register_callbacks.push(
                        (request, on_registered),
                    ),
                    ..old(self)@.enqueued(text)
                }),
                Err(why) => {
                    &&& sent == Err::<(), Error>(Error::JsonError(why))
                    &&& final(self)@ == old(self)@
                },
            },
    {
        match self.send(encoded) {
            Ok(()) => {
                self.register_callbacks.push((request, on_registered));
                Ok(())
            },
            Err(error) => Err(error),
        }
    }

    /// Unregisters a procedure under `request`: queues the encoded request
    /// and lets `on_unregistered` wait for the confirmation. Where the
    /// encoding failed, nothing changes.
    pub fn unregister(
        &mut self,
        request: u64,
        encoded: Result<String, String>,
        on_unregistered: H::Unregistered,
    ) -> (sent: Result<(), Error>)
        ensures
            match encoded {
                Ok(text) => sent is Ok && final(self)@ == (Registry {
                    unregistered_callbacks: old(self)@.unregistered_callbacks.push(
                        (request, on_unregistered),
                    ),
                    ..old(self)@.enqueued(text)
                }),
                Err(why) => {
                    &&& sent == Err::<(), Error>(Error::JsonError(why))
                    &&& final(self)@ == old(self)@
                },
            },
    {
        match self.send(encoded) {
            Ok(()) => {
                self.unregistered_callbacks.push((request, on_unregistered));
                Ok(())
            },
            Err(error) => Err(error),
        }
    }

    /// Registers a handler for a session-level message, behind those that
    /// are registered already.
    pub fn on(&mut self, callback: Events<H>)
        ensures
            final(self)@ == (Registry {
                callbacks: old(self)@.callbacks.push(callback),
                ..old(self)@
            }),
    {
        self.callbacks.push(callback);
    }

    /// Takes the requests that wait in `list` under `request` off it.
    pub fn complete(&mut self, list: Pending, request: u64)
        ensures
            final(self)@ == old(self)@.completed(list, request),
    {
        match list {
            Pending::Subscribed => forget(&mut self.on_subscribed, request),
            Pending::CallResult => forget(&mut self.call_results, request),
            Pending::Published => forget(&mut self.publish_callbacks, request),
            Pending::Unsubscribed => forget(&mut self.unsubscribe_callbacks, request),
            Pending::Registered => forget(&mut self.register_callbacks, request),
            Pending::Unregistered => forget(&mut self.unregistered_callbacks, request),
        }
    }

    /// Empties the outbound queue and hands out what was in it, oldest
    /// first.
    pub fn drain(&mut self) -> (outbound: Vec<String>)
        ensures
            outbound@ == old(self)@.message_queue,
            final(self)@ == old(self)@.drained(),
    {
        let mut outbound: Vec<String> = Vec::new();
        core::mem::swap(&mut outbound, &mut self.message_queue);
        outbound
    }
}

/// The place of the first handler for `kind` in `callbacks`, if there is
/// one.
pub(crate) fn find_session<H: Handlers>(callbacks: &Vec<Events<H>>, kind: SessionKind) -> (found:
    Option<usize>)
    ensures
        found matches Some(i) ==> i < callbacks.len(),
        kinds(callbacks@).index_of_first(kind) == match found {
            Some(i) => Some(i as int),
            None => None,
        },
{
    let ghost list = kinds(callbacks@);
    let mut i: usize = 0;
    while i < callbacks.len()
        invariant
            i <= callbacks.len(),
            list == kinds(callbacks@),
            forall|j: int| 0 <= j < i ==> list[j] != kind,
        decreases callbacks.len() - i,
    {
        if callbacks[i].kind() == kind {
            proof {
                lemma_first_at(list, kind, i as int);
            }
            return Some(i);
        }
        i += 1;
    }
    proof {
        lemma_first_absent(list, kind);
    }
    None
}

/// The place of the first request that waits under `request` in `list`, if
/// there is one.
pub(crate) fn find_pending<X>(list: &Vec<(u64, X)>, request: u64) -> (found: Option<usize>)
    ensures
        found matches Some(i) ==> i < list.len(),
        keys(list@).index_of_first(request) == match found {
            Some(i) => Some(i as int),
            None => None,
        },
{
    let ghost ids = keys(list@);
    let mut i: usize = 0;
    while i < list.len()
        invariant
            i <= list.len(),
            ids == keys(list@),
            forall|j: int| 0 <= j < i ==> ids[j] != request,
        decreases list.len() - i,
    {
        if list[i].0 == request {
            proof {
                lemma_first_at(ids, request, i as int);
            }
            return Some(i);
        }
        i += 1;
    }
    proof {
        lemma_first_absent(ids, request);
    }
    None
}

/// The place of the first subscription that is resolved to `subscription`
/// in `list`, if there is one.
pub(crate) fn find_subscription<X>(list: &Vec<(u64, X, Option<u64>)>, subscription: u64) -> (found:
    Option<usize>)
    ensures
        found matches Some(i) ==> i < list.len(),
        resolutions(list@).index_of_first(Some(subscription)) == match found {
            Some(i) => Some(i as int),
            None => None,
        },
{
    let ghost ids = resolutions(list@);
    let mut i: usize = 0;
    while i < list.len()
        invariant
            i <= list.len(),
            ids == resolutions(list@),
            forall|j: int| 0 <= j < i ==> ids[j] != Some(subscription),
        decreases list.len() - i,
    {
        let hit = match list[i].2 {
            Some(id) => id == subscription,
            None => false,
        };
        if hit {
            proof {
                lemma_first_at(ids, Some(subscription), i as int);
            }
            return Some(i);
        }
        i += 1;
    }
    proof {
        lemma_first_absent(ids, Some(subscription));
    }
    None
}

/// Takes the requests that wait under `request` off `list`; the others keep
/// their order.
pub(crate) fn forget<X>(list: &mut Vec<(u64, X)>, request: u64)
    ensures
        final(list)@ == old(list)@.filter(other_request(request)),
{
    let ghost before = list@;
    let ghost keep = other_request::<X>(request);
    let ghost mut k: int = 0;
    let mut i: usize = 0;
    proof {
        lemma_filter_none(before, keep);
    }
    assert(before.skip(0) =~= before);
    while i < list.len()
        invariant
            0 <= k <= before.len(),
            i <= list.len(),
            list.len() - i == before.len() - k,
            i == before.take(k).filter(keep).len(),
            list@ == before.take(k).filter(keep) + before.skip(k),
            keep == other_request::<X>(request),
        decreases list.len() - i,
    {
        let ghost kept = before.take(k).filter(keep);
        assert(list@[i as int] == before[k]);
        proof {
            lemma_filter_next(before, keep, k);
        }
        if list[i].0 == request {
            list.remove(i);
            assert(list@ =~= kept + before.skip(k + 1));
        } else {
            i += 1;
            assert(list@ =~= kept.push(before[k]) + before.skip(k + 1));
        }
        proof {
            k = k + 1;
        }
    }
    assert(before.take(k) =~= before);
    assert(before.skip(k) =~= Seq::empty());
    assert(list@ =~= before.filter(keep));
}

/// Takes the subscriptions that are resolved to `subscription` off `list`;
/// the others keep their order.
pub(crate) fn drop_subscription<X>(list: &mut Vec<(u64, X, Option<u64>)>, subscription: u64)
    ensures
        final(list)@ == old(list)@.filter(other_subscription(subscription)),
{
    let ghost before = list@;
    let ghost keep = other_subscription::<X>(subscription);
    let ghost mut k: int = 0;
    let mut i: usize = 0;
    proof {
        lemma_filter_none(before, keep);
    }
    assert(before.skip(0) =~= before);
    while i < list.len()
        invariant
            0 <= k <= before.len(),
            i <= list.len(),
            list.len() - i == before.len() - k,
            i == before.take(k).filter(keep).len(),
            list@ == before.take(k).filter(keep) + before.skip(k),
            keep == other_subscription::<X>(subscription),
        decreases list.len() - i,
    {
        let ghost kept = before.take(k).filter(keep);
        assert(list@[i as int] == before[k]);
        proof {
            lemma_filter_next(before, keep, k);
        }
        let hit = match list[i].2 {
            Some(id) => id == subscription,
            None => false,
        };
        if hit {
            list.remove(i);
            assert(list@ =~= kept + before.skip(k + 1));
        } else {
            i += 1;
            assert(list@ =~= kept.push(before[k]) + before.skip(k + 1));
        }
        proof {
            k = k + 1;
        }
    }
    assert(before.take(k) =~= before);
    assert(before.skip(k) =~= Seq::empty());
    assert(list@ =~= before.filter(keep));
}

/// Resolves the subscriptions of `list` that were opened under `request` to
/// `subscription`.
pub(crate) fn resolve_subscriptions<X>(
    list: &mut Vec<(u64, X, Option<u64>)>,
    request: u64,
    subscription: u64,
)
    ensures
        final(list)@ == resolve(old(list)@, request, subscription),
{
    let ghost before = list@;
    let mut i: usize = 0;
    while i < list.len()
        invariant
            i <= list.len(),
            list.len() == before.len(),
            forall|j: int| 0 <= j < i ==> list@[j] == resolve(before, request, subscription)[j],
            forall|j: int| i <= j < list.len() ==> list@[j] == before[j],
        decreases list.len() - i,
    {
        if list[i].0 == request {
            list[i].2 = Some(subscription);
        }
        i += 1;
    }
    assert(list@ =~= resolve(before, request, subscription));
}

} // verus!
