//! The session, and the context that handlers work on.

use vstd::prelude::*;
use websockets::WebSocketError;
use crate::callback::{
    find_pending, find_session, find_subscription, resolve_subscriptions, CallbackHandler, Events,
    Handler, Handlers, SessionKind,
};
use crate::error::Error;
use crate::messages::{waits_in, Pending, WampEvents};
use crate::registry::{keys, kinds, session_outcome, Registry};

verus! {

/// What a handler works on in place of the session: a registry of its own,
/// empty at the start of each dispatch, that collects the operations the
/// handler asks for. The session takes them over once the handler is done.
pub struct Context<H: Handlers> {
    pub messages: CallbackHandler<H>,
}

impl<H: Handlers> Context<H> {
    /// A context in which nothing is recorded.
    pub fn new() -> (context: Context<H>)
        ensures
            context.messages@ == Registry::<H>::empty(),
    {
        Context { messages: CallbackHandler::new() }
    }

    /// Queues an encoded message; see `CallbackHandler::send`.
    pub fn send(&mut self, encoded: Result<String, String>) -> (sent: Result<(), Error>)
        ensures
            match encoded {
                Ok(text) => {
                    &&& sent is Ok
                    &&& final(self).messages@ == old(self).messages@.enqueued(text)
                },
                Err(why) => {
                    &&& sent == Err::<(), Error>(Error::JsonError(why))
                    &&& final(self).messages@ == old(self).messages@
                },
            },
    {
        self.messages.send(encoded)
    }

    /// Opens a subscription; see `CallbackHandler::subscribe`.
    pub fn subscribe(
        &mut self,
        request: u64,
        encoded: Result<String, String>,
        on_subscribed: H::Subscribed,
        on_event: H::Event,
    ) -> (sent: Result<(), Error>)
        ensures
            match encoded {
                Ok(text) => sent is Ok && final(self).messages@ == (Registry {
                    subscriptions: old(self).messages@.subscriptions.push(
                        (request, on_event, None),
                    ),
                    on_subscribed: old(self).messages@.on_subscribed.push(
                        (request, on_subscribed),
                    ),
                    ..old(self).messages@.enqueued(text)
                }),
                Err(why) => {
                    &&& sent == Err::<(), Error>(Error::JsonError(why))
                    &&& final(self).messages@ == old(self).messages@
                },
            },
    {
        self.messages.subscribe(request, encoded, on_subscribed, on_event)
    }

    /// Issues a call; see `CallbackHandler::call`.
    pub fn call(&mut self, request: u64, encoded: Result<String, String>, on_result: H::CallResult)
        -> (sent: Result<(), Error>)
        ensures
            match encoded {
                Ok(text) => sent is Ok && final(self).messages@ == (Registry {
                    call_results: old(self).messages@.call_results.push((request, on_result)),
                    ..old(self).messages@.enqueued(text)
                }),
                Err(why) => {
                    &&& sent == Err::<(), Error>(Error::JsonError(why))
                    &&& final(self).messages@ == old(self).messages@
                },
            },
    {
        self.messages.call(request, encoded, on_result)
    }

    /// Publishes; see `CallbackHandler::publish`.
    pub fn publish(
        &mut self,
        request: u64,
        encoded: Result<String, String>,
        on_published: H::Published,
    ) -> (sent: Result<(), Error>)
        ensures
            match encoded {
                Ok(text) => sent is Ok && final(self).messages@ == (Registry {
                    publish_callbacks: old(self).messages@.publish_callbacks.push(
                        (request, on_published),
                    ),
                    ..old(self).messages@.enqueued(text)
                }),
                Err(why) => {
                    &&& sent == Err::<(), Error>(Error::JsonError(why))
                    &&& final(self).messages@ == old(self).messages@
                },
            },
    {
        self.messages.publish(request, encoded, on_published)
    }

    /// Ends a subscription; see `CallbackHandler::unsubscribe`.
    pub fn unsubscribe(
        &mut self,
        request: u64,
        subscription: u64,
        encoded: Result<String, String>,
        on_unsubscribed: H::Unsubscribed,
    ) -> (sent: Result<(), Error>)
        ensures
            match encoded {
                Ok(text) => sent is Ok && final(self).messages@ == (Registry {
                    unsubscribe_callbacks: old(self).messages@.unsubscribe_callbacks.push(
                        (request, on_unsubscribed),
                    ),
                    ..old(self).messages@.unsubscribed(subscription).enqueued(text)
                }),
                Err(why) => {
                    &&& sent == Err::<(), Error>(Error::JsonError(why))
                    &&& final(self).messages@ == old(self).messages@.unsubscribed(subscription)
                },
            },
    {
        self.messages.unsubscribe(request, subscription, encoded, on_unsubscribed)
    }

    /// Registers a procedure; see `CallbackHandler::register`.
    pub fn register(
        &mut self,
        request: u64,
        encoded: Result<String, String>,
        on_registered: H::Registered,
    ) -> (sent: Result<(), Error>)
        ensures
            match encoded {
                Ok(text) => sent is Ok && final(self).messages@ == (Registry {
                    register_callbacks: old(self).messages@.register_callbacks.push(
                        (request, on_registered),
                    ),
                    ..old(self).messages@.enqueued(text)
                }),
                Err(why) => {
                    &&& sent == Err::<(), Error>(Error::JsonError(why))
                    &&& final(self).messages@ == old(self).messages@
                },
            },
    {
        self.messages.register(request, encoded, on_registered)
    }

    /// Unregisters a procedure; see `CallbackHandler::unregister`.
    pub fn unregister(
        &mut self,
        request: u64,
        encoded: Result<String, String>,
        on_unregistered: H::Unregistered,
    ) -> (sent: Result<(), Error>)
        ensures
            match encoded {
                Ok(text) => sent is Ok && final(self).messages@ == (Registry {
                    unregistered_callbacks: old(self).messages@.unregistered_callbacks.push(
                        (request, on_unregistered),
                    ),
                    ..old(self).messages@.enqueued(text)
                }),
                Err(why) => {
                    &&& sent == Err::<(), Error>(Error::JsonError(why))
                    &&& final(self).messages@ == old(self).messages@
                },
            },
    {
        self.messages.unregister(request, encoded, on_unregistered)
    }

    /// Registers a handler for a session-level message; see
    /// `CallbackHandler::on`.
    pub fn on(&mut self, callback: Events<H>)
        ensures
            final(self).messages@ == (Registry {
                callbacks: old(self).messages@.callbacks.push(callback),
                ..old(self).messages@
            }),
    {
        self.messages.on(callback)
    }
}

/// What one receive on the transport came to.
pub enum Received {
    /// The transport reported an error.
    Failed,
    /// A frame that carries no text.
    NotText,
    /// A text frame that is no protocol message.
    Undecodable,
    /// A protocol message.
    Message(WampEvents),
}

/// Hands `reply` to the first handler of `list` that waits under `request`;
/// where none does, the context passes through.
pub(crate) fn answer<C, T, X: Handler<C, T>>(
    list: &Vec<(u64, X)>,
    request: u64,
    reply: T,
    context: C,
) -> (returned: C)
    ensures
        match keys(list@).index_of_first(request) {
            Some(i) => list@[i].1.outcome(context, reply, returned),
            None => returned == context,
        },
{
    match find_pending(list, request) {
        Some(i) => list[i].1.call(context, reply),
        None => context,
    }
}

/// Hands a session-level message to the first handler of `callbacks` that
/// is for `kind`; where there is none, the context passes through.
pub(crate) fn notify<H: Handlers>(
    callbacks: &Vec<Events<H>>,
    kind: SessionKind,
    event: WampEvents,
    context: Context<H>,
) -> (returned: Context<H>)
    ensures
        match kinds(callbacks@).index_of_first(kind) {
            Some(i) => session_outcome(callbacks@[i], event, context, returned),
            None => returned == context,
        },
{
    match find_session(callbacks, kind) {
        Some(i) => match (&callbacks[i], event) {
            (Events::Welcome(handler), WampEvents::Welcome(m)) => handler.call(context, m),
            (Events::Challenge(handler), WampEvents::Challenge(m)) => handler.call(context, m),
            (Events::Abort(handler), WampEvents::Abort(m)) => handler.call(context, m),
            (Events::Goodbye(handler), WampEvents::Goodbye(m)) => handler.call(context, m),
            (Events::Error(handler), WampEvents::ErrorMessage(m)) => handler.call(context, m),
            (Events::Interrupt(handler), WampEvents::Interrupt(m)) => handler.call(context, m),
            (Events::Yield(handler), WampEvents::Yield(m)) => handler.call(context, m),
            _ => context,
        },
        None => context,
    }
}

/// The session: the handlers that are registered, the requests that wait
/// for their response, and the messages that wait for the transport.
pub struct WampClient<H: Handlers> {
    pub handler: CallbackHandler<H>,
}

impl<H: Handlers> WampClient<H> {
    /// Makes a session of what the transport's connect came to: with a
    /// connection, the connection and a session that holds nothing yet; with
    /// an error, that error and no session.
    pub fn connect<T>(connection: Result<T, WebSocketError>) -> (session: Result<
        (T, WampClient<H>),
        WebSocketError,
    >)
        ensures
            match connection {
                Ok(transport) => session is Ok && session->Ok_0.0 == transport
                    && session->Ok_0.1.handler@ == Registry::<H>::empty(),
                Err(error) => session == Err::<(T, WampClient<H>), WebSocketError>(error),
            },
    {
        match connection {
            Ok(transport) => Ok((transport, WampClient { handler: CallbackHandler::new() })),
            Err(error) => Err(error),
        }
    }

    /// Registers a handler for a session-level message, behind those that
    /// are registered already.
    pub fn on(&mut self, callback: Events<H>)
        ensures
            final(self).handler@ == (Registry {
                callbacks: old(self).handler@.callbacks.push(callback),
                ..old(self).handler@
            }),
    {
        self.handler.callbacks.push(callback);
    }

    /// The first half of sending a message at once, past the queue: what to
    /// hand to the transport. `encoded` is what the codec made of the
    /// message; where it failed there is nothing to transmit.
    pub fn send(&self, encoded: Result<String, String>) -> (text: Result<String, Error>)
        ensures
            match encoded {
                Ok(wire) => text == Ok::<String, Error>(wire),
                Err(why) => text == Err::<String, Error>(Error::JsonError(why)),
            },
    {
        match encoded {
            Ok(wire) => Ok(wire),
            Err(why) => Err(Error::JsonError(why)),
        }
    }

    /// The second half: what the send came to, given what the transport
    /// answered.
    pub fn transmitted(&self, answer: Result<(), WebSocketError>) -> (sent: Result<(), Error>)
        ensures
            match answer {
                Ok(()) => sent is Ok,
                Err(error) => sent == Err::<(), Error>(Error::WsError(error)),
            },
    {
        match answer {
            Ok(()) => Ok(()),
            Err(error) => Err(Error::WsError(error)),
        }
    }

    /// Opens a subscription through the queue; see `CallbackHandler::subscribe`.
    /// The request goes out with the next cycle. Where the encoding failed,
    /// nothing changes.
    pub fn subscribe(
        &mut self,
        request: u64,
        encoded: Result<String, String>,
        on_subscribed: H::Subscribed,
        on_event: H::Event,
    ) -> (sent: Result<(), Error>)
        ensures
            match encoded {
                Ok(text) => sent is Ok && final(self).handler@ == (Registry {
                    subscriptions: old(self).handler@.subscriptions.push(
                        (request, on_event, None),
                    ),
                    on_subscribed: old(self).handler@.on_subscribed.push(
                        (request, on_subscribed),
                    ),
                    ..old(self).handler@.enqueued(text)
                }),
                Err(why) => {
                    &&& sent == Err::<(), Error>(Error::JsonError(why))
                    &&& final(self).handler@ == old(self).handler@
                },
            },
    {
        self.handler.subscribe(request, encoded, on_subscribed, on_event)
    }

    /// Issues a call through the queue; see `CallbackHandler::call`.
    /// The request goes out with the next cycle. Where the encoding failed,
    /// nothing changes.
    pub fn call(
        &mut self,
        request: u64,
        encoded: Result<String, String>,
        on_result: H::CallResult,
    ) -> (sent: Result<(), Error>)
        ensures
            match encoded {
                Ok(text) => sent is Ok && final(self).handler@ == (Registry {
                    call_results: old(self).handler@.call_results.push(
                        (request, on_result),
                    ),
                    ..old(self).handler@.enqueued(text)
                }),
                Err(why) => {
                    &&& sent == Err::<(), Error>(Error::JsonError(why))
                    &&& final(self).handler@ == old(self).handler@
                },
            },
    {
        self.handler.call(request, encoded, on_result)
    }

    /// Publishes through the queue; see `CallbackHandler::publish`.
    /// The request goes out with the next cycle. Where the encoding failed,
    /// nothing changes.
    pub fn publish(
        &mut self,
        request: u64,
        encoded: Result<String, String>,
        on_published: H::Published,
    ) -> (sent: Result<(), Error>)
        ensures
            match encoded {
                Ok(text) => sent is Ok && final(self).handler@ == (Registry {
                    publish_callbacks: old(self).handler@.publish_callbacks.push(
                        (request, on_published),
                    ),
                    ..old(self).handler@.enqueued(text)
                }),
                Err(why) => {
                    &&& sent == Err::<(), Error>(Error::JsonError(why))
                    &&& final(self).handler@ == old(self).handler@
                },
            },
    {
        self.handler.publish(request, encoded, on_published)
    }

    /// Ends a subscription through the queue; see
    /// `CallbackHandler::unsubscribe`. The request goes out with the next
    /// cycle.
    pub fn unsubscribe(
        &mut self,
        request: u64,
        subscription: u64,
        encoded: Result<String, String>,
        on_unsubscribed: H::Unsubscribed,
    ) -> (sent: Result<(), Error>)
        ensures
            match encoded {
                Ok(text) => sent is Ok && final(self).handler@ == (Registry {
                    unsubscribe_callbacks: old(self).handler@.unsubscribe_callbacks.push(
                        (request, on_unsubscribed),
                    ),
                    ..old(self).handler@.unsubscribed(subscription).enqueued(text)
                }),
                Err(why) => {
                    &&& sent == Err::<(), Error>(Error::JsonError(why))
                    &&& final(self).handler@ == old(self).handler@.unsubscribed(subscription)
                },
            },
    {
        self.handler.unsubscribe(request, subscription, encoded, on_unsubscribed)
    }

    /// Registers a procedure through the queue; see `CallbackHandler::register`.
    /// The request goes out with the next cycle. Where the encoding failed,
    /// nothing changes.
    pub fn register(
        &mut self,
        request: u64,
        encoded: Result<String, String>,
        on_registered: H::Registered,
    ) -> (sent: Result<(), Error>)
        ensures
            match encoded {
                Ok(text) => sent is Ok && final(self).handler@ == (Registry {
                    register_callbacks: old(self).handler@.register_callbacks.push(
                        (request, on_registered),
                    ),
                    ..old(self).handler@.enqueued(text)
                }),
                Err(why) => {
                    &&& sent == Err::<(), Error>(Error::JsonError(why))
                    &&& final(self).handler@ == old(self).handler@
                },
            },
    {
        self.handler.register(request, encoded, on_registered)
    }

    /// Unregisters a procedure through the queue; see `CallbackHandler::unregister`.
    /// The request goes out with the next cycle. Where the encoding failed,
    /// nothing changes.
    pub fn unregister(
        &mut self,
        request: u64,
        encoded: Result<String, String>,
        on_unregistered: H::Unregistered,
    ) -> (sent: Result<(), Error>)
        ensures
            match encoded {
                Ok(text) => sent is Ok && final(self).handler@ == (Registry {
                    unregistered_callbacks: old(self).handler@.unregistered_callbacks.push(
                        (request, on_unregistered),
                    ),
                    ..old(self).handler@.enqueued(text)
                }),
                Err(why) => {
                    &&& sent == Err::<(), Error>(Error::JsonError(why))
                    &&& final(self).handler@ == old(self).handler@
                },
            },
    {
        self.handler.unregister(request, encoded, on_unregistered)
    }

    /// Dispatches one message: calls the one handler that is due for it, if
    /// any, on `context` and the message's payload, and hands back what the
    /// handler handed back, or `context` itself where no handler is due.
    /// A confirmation of a subscription first resolves the subscriptions
    /// opened under its request id.
    pub fn handle_event(&mut self, event: WampEvents, context: Context<H>) -> (returned: Context<H>)
        ensures
            final(self).handler@ == old(self).handler@.confirmed(event),
            old(self).handler@.handled(event, context, returned),
    {
        match event {
            WampEvents::Welcome(_) => notify(
                &self.handler.callbacks,
                SessionKind::Welcome,
                event,
                context,
            ),
            WampEvents::Abort(_) => notify(
                &self.handler.callbacks,
                SessionKind::Abort,
                event,
                context,
            ),
            WampEvents::Challenge(_) => notify(
                &self.handler.callbacks,
                SessionKind::Challenge,
                event,
                context,
            ),
            WampEvents::Goodbye(_) => notify(
                &self.handler.callbacks,
                SessionKind::Goodbye,
                event,
                context,
            ),
            WampEvents::ErrorMessage(error) => {
                let request = error.request;
                match waits_in(error.request_type) {
                    Some(Pending::Subscribed) => answer(
                        &self.handler.on_subscribed,
                        request,
                        Err(error),
                        context,
                    ),
                    Some(Pending::CallResult) => answer(
                        &self.handler.call_results,
                        request,
                        Err(error),
                        context,
                    ),
                    Some(Pending::Published) => answer(
                        &self.handler.publish_callbacks,
                        request,
                        Err(error),
                        context,
                    ),
                    Some(Pending::Unsubscribed) => answer(
                        &self.handler.unsubscribe_callbacks,
                        request,
                        Err(error),
                        context,
                    ),
                    Some(Pending::Registered) => answer(
                        &self.handler.register_callbacks,
                        request,
                        Err(error),
                        context,
                    ),
                    Some(Pending::Unregistered) => answer(
                        &self.handler.unregistered_callbacks,
                        request,
                        Err(error),
                        context,
                    ),
                    None => notify(
                        &self.handler.callbacks,
                        SessionKind::Error,
                        WampEvents::ErrorMessage(error),
                        context,
                    ),
                }
            },
            WampEvents::Published(published) => {
                let request = published.request;
                answer(&self.handler.publish_callbacks, request, Ok(published), context)
            },
            WampEvents::Subscribed(subscribed) => {
                let request = subscribed.request;
                resolve_subscriptions(
                    &mut self.handler.subscriptions,
                    request,
                    subscribed.subscription,
                );
                answer(&self.handler.on_subscribed, request, Ok(subscribed), context)
            },
            WampEvents::Unsubscribed(unsubscribed) => {
                let request = unsubscribed.request;
                answer(&self.handler.unsubscribe_callbacks, request, Ok(unsubscribed), context)
            },
            WampEvents::Event(delivery) => {
                match find_subscription(&self.handler.subscriptions, delivery.subscription) {
                    Some(i) => self.handler.subscriptions[i].1.call(context, delivery),
                    None => context,
                }
            },
            WampEvents::MessageResult(result) => {
                let request = result.request;
                answer(&self.handler.call_results, request, Ok(result), context)
            },
            WampEvents::Registered(registered) => {
                let request = registered.request;
                answer(&self.handler.register_callbacks, request, Ok(registered), context)
            },
            WampEvents::Unregistered(unregistered) => {
                let request = unregistered.request;
                answer(&self.handler.unregistered_callbacks, request, Ok(unregistered), context)
            },
            WampEvents::Interrupt(_) => notify(
                &self.handler.callbacks,
                SessionKind::Interrupt,
                event,
                context,
            ),
            WampEvents::Yield(_) => notify(
                &self.handler.callbacks,
                SessionKind::Yield,
                event,
                context,
            ),
            WampEvents::Other(_) => context,
        }
    }

    /// One cycle of the session's loop, on what the last receive came to.
    /// A protocol message is dispatched on a fresh context; then the session
    /// takes over what the handler recorded, takes the request that the
    /// message answers, as its confirmation, its result or its error, off
    /// its list, whether or not a handler was called for it, and empties the
    /// outbound queue. What comes back is what the
    /// transport has to send before the next receive, in this order: first
    /// what was queued before the cycle, then what the handler queued.
    /// Anything but a protocol message changes nothing and sends nothing.
    pub fn loop_messages(&mut self, received: Received) -> (outbound: Vec<String>)
        ensures
            match received {
                Received::Message(event) => exists|fresh: Context<H>, returned: Context<H>|
                    {
                        &&& fresh.messages@ == Registry::<H>::empty()
                        &&& #[trigger] old(self).handler@.handled(event, fresh, returned)
                        &&& final(self).handler@ == old(self).handler@.cycled(
                            event,
                            returned.messages@,
                        )
                        &&& outbound@ == old(self).handler@.message_queue
                            + returned.messages@.message_queue
                    } && final(self).handler@.message_queue.len() == 0,
                _ => final(self).handler@ == old(self).handler@ && outbound@ == Seq::<
                    String,
                >::empty(),
            },
    {
        match received {
            Received::Message(event) => {
                let answered = event.answers();
                let fresh = Context::new();
                let ghost before = self.handler@;
                let ghost blank = fresh;
                let returned = self.handle_event(event, fresh);
                let ghost after = returned;
                self.handler.merge(returned.messages);
                let outbound = self.handler.drain();
                match answered {
                    Some((list, request)) => self.handler.complete(list, request),
                    None => {},
                }
                assert(before.handled(event, blank, after));
                assert(self.handler@ == before.cycled(event, after.messages@));
                outbound
            },
            _ => Vec::new(),
        }
    }
}

} // verus!
