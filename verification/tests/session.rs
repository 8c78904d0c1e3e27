use wamp_rs::callback::{CallbackHandler, Events, Func, Handlers, SessionKind};
use wamp_rs::client::{Context, Received, WampClient};
use wamp_rs::error::Error;
use wamp_rs::messages::{
    Abort, Challenge, ErrorMessage, Event, Goodbye, Interrupt, MessageResult, Pending, Published,
    Registered, Subscribed, Unregistered, Unsubscribed, WampEvents, Welcome, Yield, CALL, PUBLISH,
    REGISTER, SUBSCRIBE, UNREGISTER, UNSUBSCRIBE,
};
use websockets::WebSocketError;

struct Boxed;

type Ctx = Context<Boxed>;
type Cb<T> = Func<Ctx, T, Box<dyn Fn(Ctx, T) -> Ctx>>;
type Reply<T> = Result<T, ErrorMessage>;

impl Handlers for Boxed {
    type Welcome = Cb<Welcome>;
    type Challenge = Cb<Challenge>;
    type Abort = Cb<Abort>;
    type Goodbye = Cb<Goodbye>;
    type Error = Cb<ErrorMessage>;
    type Interrupt = Cb<Interrupt>;
    type Yield = Cb<Yield>;
    type Event = Cb<Event>;
    type Subscribed = Cb<Reply<Subscribed>>;
    type CallResult = Cb<Reply<MessageResult>>;
    type Published = Cb<Reply<Published>>;
    type Unsubscribed = Cb<Reply<Unsubscribed>>;
    type Registered = Cb<Reply<Registered>>;
    type Unregistered = Cb<Reply<Unregistered>>;
}

fn cb<T>(f: impl Fn(Ctx, T) -> Ctx + 'static) -> Cb<T> {
    Func::new(Box::new(f))
}

/// A handler that leaves `text` in the outbound queue of its context.
fn mark<T>(text: &'static str) -> Cb<T> {
    cb(move |mut ctx: Ctx, _payload: T| {
        ctx.send(Ok(text.to_string())).unwrap();
        ctx
    })
}

/// A pending handler that says whether it was handed a response or an error.
fn verdict<T>(name: &'static str) -> Cb<Reply<T>> {
    cb(move |mut ctx: Ctx, reply: Reply<T>| {
        let text = match reply {
            Ok(_) => format!("{name}:ok"),
            Err(e) => format!("{name}:err:{}", e.error),
        };
        ctx.send(Ok(text)).unwrap();
        ctx
    })
}

fn client() -> WampClient<Boxed> {
    match WampClient::connect(Ok(())) {
        Ok(((), client)) => client,
        Err(_) => panic!("a connection gives a session"),
    }
}

/// The wire text of some request.
fn wire() -> Result<String, String> {
    Ok("request".to_string())
}

fn queued(ctx: &Ctx) -> Vec<String> {
    ctx.messages.message_queue.clone()
}

fn strings(texts: &[&str]) -> Vec<String> {
    texts.iter().map(|t| t.to_string()).collect()
}

fn error(request_type: u64, request: u64) -> ErrorMessage {
    ErrorMessage {
        request_type,
        request,
        details: "{}".to_string(),
        error: "wamp.error.test".to_string(),
        args: "[]".to_string(),
        kwargs: "{}".to_string(),
    }
}

fn event(subscription: u64, args: &str) -> Event {
    Event {
        subscription,
        publication: 9,
        details: "{}".to_string(),
        args: args.to_string(),
        kwargs: "{}".to_string(),
    }
}

fn result(request: u64, args: &str) -> MessageResult {
    MessageResult {
        request,
        details: "{}".to_string(),
        args: args.to_string(),
        kwargs: "{}".to_string(),
    }
}

fn welcome() -> WampEvents {
    WampEvents::Welcome(Welcome { session: 1, details: "{}".to_string() })
}

fn echo_event() -> Cb<Event> {
    cb(|mut ctx: Ctx, e: Event| {
        ctx.send(Ok(e.args)).unwrap();
        ctx
    })
}

#[test]
fn subscribed_and_confirmed_event_reaches_its_handler() {
    let mut c = client();
    c.subscribe(1, wire(), verdict("subscribed"), echo_event()).unwrap();
    let out = c.loop_messages(Received::Message(WampEvents::Subscribed(Subscribed {
        request: 1,
        subscription: 100,
    })));
    assert_eq!(out, strings(&["request", "subscribed:ok"]));
    let out = c.loop_messages(Received::Message(WampEvents::Event(event(100, "[\"hi\"]"))));
    assert_eq!(out, strings(&["[\"hi\"]"]));
}

#[test]
fn call_result_reaches_its_handler_once() {
    let mut c = client();
    c.call(
        2,
        wire(),
        cb(|mut ctx: Ctx, reply: Reply<MessageResult>| {
            let text = match reply {
                Ok(r) => format!("Ok({})", r.args),
                Err(_) => "Err".to_string(),
            };
            ctx.send(Ok(text)).unwrap();
            ctx
        }),
    )
    .unwrap();
    let out = c.loop_messages(Received::Message(WampEvents::MessageResult(result(2, "[42]"))));
    assert_eq!(out, strings(&["request", "Ok([42])"]));
    assert!(c.handler.call_results.is_empty());
    let out = c.loop_messages(Received::Message(WampEvents::MessageResult(result(2, "[43]"))));
    assert!(out.is_empty());
}

#[test]
fn event_for_another_subscription_fires_nothing() {
    let mut c = client();
    c.subscribe(1, wire(), verdict("subscribed"), echo_event()).unwrap();
    c.loop_messages(Received::Message(WampEvents::Subscribed(Subscribed {
        request: 1,
        subscription: 100,
    })));
    let out = c.loop_messages(Received::Message(WampEvents::Event(event(101, "[1]"))));
    assert!(out.is_empty());
    assert_eq!(c.handler.subscriptions.len(), 1);
}

#[test]
fn event_before_confirmation_fires_nothing() {
    let mut c = client();
    c.subscribe(1, wire(), verdict("subscribed"), echo_event()).unwrap();
    let ctx = c.handle_event(WampEvents::Event(event(100, "[1]")), Context::new());
    assert!(queued(&ctx).is_empty());
}

#[test]
fn confirmation_resolves_only_its_own_subscription() {
    let mut c = client();
    c.subscribe(1, wire(), verdict("a"), mark("first")).unwrap();
    c.subscribe(2, wire(), verdict("b"), mark("second")).unwrap();
    c.loop_messages(Received::Message(WampEvents::Subscribed(Subscribed {
        request: 2,
        subscription: 200,
    })));
    assert_eq!(c.handler.subscriptions[0].2, None);
    assert_eq!(c.handler.subscriptions[1].2, Some(200));
    let out = c.loop_messages(Received::Message(WampEvents::Event(event(200, "[]"))));
    assert_eq!(out, strings(&["second"]));
    c.loop_messages(Received::Message(WampEvents::Subscribed(Subscribed {
        request: 1,
        subscription: 100,
    })));
    let out = c.loop_messages(Received::Message(WampEvents::Event(event(100, "[]"))));
    assert_eq!(out, strings(&["first"]));
    let out = c.loop_messages(Received::Message(WampEvents::Event(event(200, "[]"))));
    assert_eq!(out, strings(&["second"]));
}

#[test]
fn subscription_survives_many_events() {
    let mut c = client();
    c.subscribe(1, wire(), verdict("subscribed"), echo_event()).unwrap();
    c.loop_messages(Received::Message(WampEvents::Subscribed(Subscribed {
        request: 1,
        subscription: 100,
    })));
    for n in 0..3 {
        let args = format!("[{n}]");
        let out = c.loop_messages(Received::Message(WampEvents::Event(event(100, &args))));
        assert_eq!(out, vec![args]);
    }
}

#[test]
fn outbound_is_first_in_first_out_over_caller_and_handler() {
    let mut c = client();
    c.on(Events::Welcome(cb(|mut ctx: Ctx, _w: Welcome| {
        ctx.send(Ok("h1".to_string())).unwrap();
        ctx.send(Ok("h2".to_string())).unwrap();
        ctx
    })));
    c.unsubscribe(7, 70, Ok("u1".to_string()), verdict("unsub")).unwrap();
    c.unsubscribe(8, 80, Ok("u2".to_string()), verdict("unsub")).unwrap();
    let out = c.loop_messages(Received::Message(welcome()));
    assert_eq!(out, strings(&["u1", "u2", "h1", "h2"]));
    assert!(c.handler.message_queue.is_empty());
    let out = c.loop_messages(Received::Message(WampEvents::Other(68)));
    assert!(out.is_empty());
}

#[test]
fn register_confirmed_is_one_shot() {
    let mut c = client();
    c.register(5, wire(), verdict("registered")).unwrap();
    let confirmation = WampEvents::Registered(Registered { request: 5, registration: 50 });
    let out = c.loop_messages(Received::Message(confirmation.clone()));
    assert_eq!(out, strings(&["request", "registered:ok"]));
    assert!(c.handler.register_callbacks.is_empty());
    let out = c.loop_messages(Received::Message(confirmation));
    assert!(out.is_empty());
}

#[test]
fn answered_request_leaves_even_if_no_handler_fired() {
    let mut c = client();
    c.publish(3, wire(), verdict("first")).unwrap();
    c.publish(3, wire(), verdict("second")).unwrap();
    c.publish(4, wire(), verdict("other")).unwrap();
    let out = c.loop_messages(Received::Message(WampEvents::Published(Published {
        request: 3,
        publication: 1,
    })));
    assert_eq!(out, strings(&["request", "request", "request", "first:ok"]));
    assert_eq!(c.handler.publish_callbacks.len(), 1);
    assert_eq!(c.handler.publish_callbacks[0].0, 4);
}

#[test]
fn request_registered_by_the_handler_under_the_answered_id_leaves_too() {
    let mut c = client();
    c.call(
        2,
        wire(),
        cb(|mut ctx: Ctx, _reply: Reply<MessageResult>| {
            ctx.call(2, Ok("again".to_string()), verdict("late")).unwrap();
            ctx.call(3, Ok("next".to_string()), verdict("next")).unwrap();
            ctx
        }),
    )
    .unwrap();
    let out = c.loop_messages(Received::Message(WampEvents::MessageResult(result(2, "[]"))));
    assert_eq!(out, strings(&["request", "again", "next"]));
    assert_eq!(c.handler.call_results.len(), 1);
    assert_eq!(c.handler.call_results[0].0, 3);
}

#[test]
fn first_registered_session_handler_fires() {
    let mut c = client();
    c.on(Events::Welcome(mark("first")));
    c.on(Events::Welcome(mark("second")));
    let ctx = c.handle_event(welcome(), Context::new());
    assert_eq!(queued(&ctx), strings(&["first"]));
}

#[test]
fn session_handlers_are_found_by_kind() {
    let mut c = client();
    c.on(Events::Abort(mark("abort")));
    c.on(Events::Challenge(mark("challenge")));
    c.on(Events::Goodbye(mark("goodbye")));
    c.on(Events::Interrupt(mark("interrupt")));
    c.on(Events::Yield(mark("yield")));
    c.on(Events::Welcome(mark("welcome")));
    let cases = vec![
        (welcome(), "welcome"),
        (
            WampEvents::Abort(Abort { details: "{}".to_string(), reason: "r".to_string() }),
            "abort",
        ),
        (
            WampEvents::Challenge(Challenge {
                authmethod: "ticket".to_string(),
                details: "{}".to_string(),
            }),
            "challenge",
        ),
        (
            WampEvents::Goodbye(Goodbye { details: "{}".to_string(), reason: "r".to_string() }),
            "goodbye",
        ),
        (
            WampEvents::Interrupt(Interrupt { request: 1, options: "{}".to_string() }),
            "interrupt",
        ),
        (
            WampEvents::Yield(Yield {
                request: 1,
                options: "{}".to_string(),
                args: "[]".to_string(),
                kwargs: "{}".to_string(),
            }),
            "yield",
        ),
    ];
    for (message, expected) in cases {
        let ctx = c.handle_event(message, Context::new());
        assert_eq!(queued(&ctx), strings(&[expected]));
    }
    let ctx = c.handle_event(
        WampEvents::ErrorMessage(error(999, 1)),
        Context::new(),
    );
    assert!(queued(&ctx).is_empty());
}

#[test]
fn errors_of_call_and_publish_reach_the_call_handlers() {
    let mut c = client();
    c.call(2, wire(), verdict("call")).unwrap();
    c.publish(2, wire(), verdict("publish")).unwrap();
    c.on(Events::Error(mark("generic")));
    let ctx = c.handle_event(WampEvents::ErrorMessage(error(CALL, 2)), Context::new());
    assert_eq!(queued(&ctx), strings(&["call:err:wamp.error.test"]));
    let ctx = c.handle_event(WampEvents::ErrorMessage(error(PUBLISH, 2)), Context::new());
    assert_eq!(queued(&ctx), strings(&["call:err:wamp.error.test"]));
    let ctx = c.handle_event(WampEvents::ErrorMessage(error(PUBLISH, 3)), Context::new());
    assert!(queued(&ctx).is_empty());
}

#[test]
fn error_of_unknown_kind_reaches_the_error_handler() {
    let mut c = client();
    c.call(2, wire(), verdict("call")).unwrap();
    c.on(Events::Welcome(mark("welcome")));
    c.on(Events::Error(cb(|mut ctx: Ctx, e: ErrorMessage| {
        ctx.send(Ok(format!("generic:{}", e.request_type))).unwrap();
        ctx
    })));
    c.on(Events::Error(mark("later")));
    let ctx = c.handle_event(WampEvents::ErrorMessage(error(68, 2)), Context::new());
    assert_eq!(queued(&ctx), strings(&["generic:68"]));
}

#[test]
fn errors_are_routed_by_the_kind_of_request_that_failed() {
    let mut c = client();
    c.subscribe(1, wire(), verdict("subscribe"), mark("event")).unwrap();
    c.unsubscribe(1, 77, Ok("u".to_string()), verdict("unsubscribe")).unwrap();
    c.register(1, wire(), verdict("register")).unwrap();
    c.unregister(1, wire(), verdict("unregister")).unwrap();
    let cases = vec![
        (SUBSCRIBE, "subscribe"),
        (UNSUBSCRIBE, "unsubscribe"),
        (REGISTER, "register"),
        (UNREGISTER, "unregister"),
    ];
    for (kind, name) in cases {
        let ctx = c.handle_event(WampEvents::ErrorMessage(error(kind, 1)), Context::new());
        assert_eq!(queued(&ctx), vec![format!("{name}:err:wamp.error.test")]);
    }
}

#[test]
fn an_error_takes_the_request_off_its_list() {
    let mut c = client();
    c.call(2, wire(), verdict("call")).unwrap();
    let out = c.loop_messages(Received::Message(WampEvents::ErrorMessage(error(CALL, 2))));
    assert_eq!(out, strings(&["request", "call:err:wamp.error.test"]));
    assert!(c.handler.call_results.is_empty());
    let out = c.loop_messages(Received::Message(WampEvents::ErrorMessage(error(CALL, 2))));
    assert!(out.is_empty());
}

#[test]
fn an_error_of_a_publish_takes_the_call_off_its_list() {
    let mut c = client();
    c.call(2, wire(), verdict("call")).unwrap();
    c.publish(2, wire(), verdict("publish")).unwrap();
    c.handler.drain();
    let out = c.loop_messages(Received::Message(WampEvents::ErrorMessage(error(PUBLISH, 2))));
    assert_eq!(out, strings(&["call:err:wamp.error.test"]));
    assert!(c.handler.call_results.is_empty());
    assert_eq!(c.handler.publish_callbacks.len(), 1);
}

#[test]
fn errors_take_the_request_off_the_list_of_its_kind() {
    let kinds = [
        (SUBSCRIBE, Pending::Subscribed),
        (UNSUBSCRIBE, Pending::Unsubscribed),
        (REGISTER, Pending::Registered),
        (UNREGISTER, Pending::Unregistered),
        (CALL, Pending::CallResult),
    ];
    for (kind, list) in kinds {
        let mut c = client();
        c.subscribe(1, wire(), verdict("subscribe"), mark("event")).unwrap();
        c.call(1, wire(), verdict("call")).unwrap();
        c.publish(1, wire(), verdict("publish")).unwrap();
        c.unsubscribe(1, 77, wire(), verdict("unsubscribe")).unwrap();
        c.register(1, wire(), verdict("register")).unwrap();
        c.unregister(1, wire(), verdict("unregister")).unwrap();
        assert_eq!(WampEvents::ErrorMessage(error(kind, 1)).answers(), Some((list, 1)));
        c.loop_messages(Received::Message(WampEvents::ErrorMessage(error(kind, 1))));
        let left = [
            (Pending::Subscribed, c.handler.on_subscribed.len()),
            (Pending::CallResult, c.handler.call_results.len()),
            (Pending::Published, c.handler.publish_callbacks.len()),
            (Pending::Unsubscribed, c.handler.unsubscribe_callbacks.len()),
            (Pending::Registered, c.handler.register_callbacks.len()),
            (Pending::Unregistered, c.handler.unregistered_callbacks.len()),
        ];
        for (other, waiting) in left {
            assert_eq!(waiting, if other == list { 0 } else { 1 });
        }
        assert_eq!(c.handler.subscriptions.len(), 1);
    }
}

#[test]
fn an_error_of_unknown_kind_takes_no_request_off() {
    let mut c = client();
    c.call(2, wire(), verdict("call")).unwrap();
    c.on(Events::Error(mark("generic")));
    let out = c.loop_messages(Received::Message(WampEvents::ErrorMessage(error(68, 2))));
    assert_eq!(out, strings(&["request", "generic"]));
    assert_eq!(c.handler.call_results.len(), 1);
    assert_eq!(WampEvents::ErrorMessage(error(68, 2)).answers(), None);
}

#[test]
fn confirmations_reach_their_own_lists() {
    let mut c = client();
    c.subscribe(1, wire(), verdict("subscribed"), mark("event")).unwrap();
    c.call(1, wire(), verdict("result")).unwrap();
    c.publish(1, wire(), verdict("published")).unwrap();
    c.unsubscribe(1, 77, Ok("u".to_string()), verdict("unsubscribed")).unwrap();
    c.register(1, wire(), verdict("registered")).unwrap();
    c.unregister(1, wire(), verdict("unregistered")).unwrap();
    assert_eq!(
        c.handler.drain(),
        strings(&["request", "request", "request", "u", "request", "request"])
    );
    let cases = vec![
        (WampEvents::Subscribed(Subscribed { request: 1, subscription: 5 }), "subscribed:ok"),
        (WampEvents::MessageResult(result(1, "[]")), "result:ok"),
        (WampEvents::Published(Published { request: 1, publication: 5 }), "published:ok"),
        (WampEvents::Unsubscribed(Unsubscribed { request: 1 }), "unsubscribed:ok"),
        (WampEvents::Registered(Registered { request: 1, registration: 5 }), "registered:ok"),
        (WampEvents::Unregistered(Unregistered { request: 1 }), "unregistered:ok"),
    ];
    for (message, expected) in cases {
        let out = c.loop_messages(Received::Message(message));
        assert_eq!(out, strings(&[expected]));
    }
    assert!(c.handler.on_subscribed.is_empty());
    assert!(c.handler.call_results.is_empty());
    assert!(c.handler.publish_callbacks.is_empty());
    assert!(c.handler.unsubscribe_callbacks.is_empty());
    assert!(c.handler.register_callbacks.is_empty());
    assert!(c.handler.unregistered_callbacks.is_empty());
    assert_eq!(c.handler.subscriptions.len(), 1);
}

#[test]
fn unrecognized_message_is_ignored() {
    let mut c = client();
    c.on(Events::Welcome(mark("welcome")));
    c.call(1, wire(), verdict("call")).unwrap();
    let ctx = c.handle_event(WampEvents::Other(68), Context::new());
    assert!(queued(&ctx).is_empty());
    assert_eq!(c.handler.call_results.len(), 1);
}

#[test]
fn anything_but_a_message_changes_nothing() {
    let mut c = client();
    c.unsubscribe(7, 70, Ok("u1".to_string()), verdict("unsub")).unwrap();
    for received in [Received::Failed, Received::NotText, Received::Undecodable] {
        let out = c.loop_messages(received);
        assert!(out.is_empty());
        assert_eq!(c.handler.message_queue, strings(&["u1"]));
        assert_eq!(c.handler.unsubscribe_callbacks.len(), 1);
    }
}

#[test]
fn handler_registrations_are_taken_over() {
    let mut c = client();
    c.on(Events::Welcome(cb(|mut ctx: Ctx, _w: Welcome| {
        ctx.subscribe(1, Ok("sub".to_string()), verdict("subscribed"), mark("chat")).unwrap();
        ctx.on(Events::Goodbye(mark("bye")));
        ctx
    })));
    let out = c.loop_messages(Received::Message(welcome()));
    assert_eq!(out, strings(&["sub"]));
    assert_eq!(c.handler.callbacks.len(), 2);
    assert_eq!(c.handler.subscriptions.len(), 1);
    assert_eq!(c.handler.on_subscribed.len(), 1);
    let out = c.loop_messages(Received::Message(WampEvents::Subscribed(Subscribed {
        request: 1,
        subscription: 11,
    })));
    assert_eq!(out, strings(&["subscribed:ok"]));
    let out = c.loop_messages(Received::Message(WampEvents::Event(event(11, "[]"))));
    assert_eq!(out, strings(&["chat"]));
}

#[test]
fn send_queues_or_reports_and_queues_nothing() {
    let mut h: CallbackHandler<Boxed> = CallbackHandler::new();
    assert!(h.send(Ok("a".to_string())).is_ok());
    let failed = h.send(Err("bad".to_string()));
    assert!(matches!(failed, Err(Error::JsonError(why)) if why == "bad"));
    assert!(h.send(Ok("b".to_string())).is_ok());
    assert_eq!(h.message_queue, strings(&["a", "b"]));
}

#[test]
fn failed_encoding_registers_nothing() {
    let mut h: CallbackHandler<Boxed> = CallbackHandler::new();
    assert!(matches!(
        h.subscribe(1, Err("e".to_string()), verdict("s"), mark("e")),
        Err(Error::JsonError(_))
    ));
    assert!(matches!(h.call(1, Err("e".to_string()), verdict("c")), Err(Error::JsonError(_))));
    assert!(matches!(h.publish(1, Err("e".to_string()), verdict("p")), Err(Error::JsonError(_))));
    assert!(matches!(h.register(1, Err("e".to_string()), verdict("r")), Err(Error::JsonError(_))));
    assert!(matches!(
        h.unregister(1, Err("e".to_string()), verdict("u")),
        Err(Error::JsonError(_))
    ));
    assert!(h.subscriptions.is_empty());
    assert!(h.on_subscribed.is_empty());
    assert!(h.call_results.is_empty());
    assert!(h.publish_callbacks.is_empty());
    assert!(h.register_callbacks.is_empty());
    assert!(h.unregistered_callbacks.is_empty());
    assert!(h.message_queue.is_empty());
}

#[test]
fn operations_queue_and_register() {
    let mut h: CallbackHandler<Boxed> = CallbackHandler::new();
    h.subscribe(1, Ok("s".to_string()), verdict("s"), mark("e")).unwrap();
    h.call(2, Ok("c".to_string()), verdict("c")).unwrap();
    h.publish(3, Ok("p".to_string()), verdict("p")).unwrap();
    h.register(4, Ok("r".to_string()), verdict("r")).unwrap();
    h.unregister(5, Ok("u".to_string()), verdict("u")).unwrap();
    assert_eq!(h.message_queue, strings(&["s", "c", "p", "r", "u"]));
    assert_eq!(h.subscriptions[0].0, 1);
    assert_eq!(h.subscriptions[0].2, None);
    assert_eq!(h.on_subscribed[0].0, 1);
    assert_eq!(h.call_results[0].0, 2);
    assert_eq!(h.publish_callbacks[0].0, 3);
    assert_eq!(h.register_callbacks[0].0, 4);
    assert_eq!(h.unregistered_callbacks[0].0, 5);
}

#[test]
fn unsubscribe_ends_the_subscription_at_once() {
    let mut c = client();
    c.subscribe(1, wire(), verdict("a"), mark("first")).unwrap();
    c.subscribe(2, wire(), verdict("b"), mark("second")).unwrap();
    c.subscribe(3, wire(), verdict("c"), mark("third")).unwrap();
    for (request, subscription) in [(1, 100), (2, 200), (3, 300)] {
        c.loop_messages(Received::Message(WampEvents::Subscribed(Subscribed {
            request,
            subscription,
        })));
    }
    c.unsubscribe(9, 200, Ok("unsub".to_string()), verdict("unsubscribed")).unwrap();
    assert_eq!(c.handler.subscriptions.len(), 2);
    assert_eq!(c.handler.subscriptions[0].0, 1);
    assert_eq!(c.handler.subscriptions[1].0, 3);
    assert_eq!(c.handler.unsubscribe_callbacks[0].0, 9);
    let out = c.loop_messages(Received::Message(WampEvents::Event(event(200, "[]"))));
    assert_eq!(out, strings(&["unsub"]));
    let out = c.loop_messages(Received::Message(WampEvents::Unsubscribed(Unsubscribed {
        request: 9,
    })));
    assert_eq!(out, strings(&["unsubscribed:ok"]));
}

#[test]
fn unsubscribe_with_failed_encoding_still_ends_the_subscription() {
    let mut c = client();
    c.subscribe(1, wire(), verdict("a"), mark("first")).unwrap();
    c.loop_messages(Received::Message(WampEvents::Subscribed(Subscribed {
        request: 1,
        subscription: 100,
    })));
    let failed = c.unsubscribe(9, 100, Err("bad".to_string()), verdict("unsubscribed"));
    assert!(matches!(failed, Err(Error::JsonError(why)) if why == "bad"));
    assert!(c.handler.subscriptions.is_empty());
    assert!(c.handler.unsubscribe_callbacks.is_empty());
    assert!(c.handler.message_queue.is_empty());
}

#[test]
fn unsubscribe_leaves_unresolved_subscriptions() {
    let mut h: CallbackHandler<Boxed> = CallbackHandler::new();
    h.subscribe(1, Ok("s".to_string()), verdict("s"), mark("e")).unwrap();
    h.unsubscribe(2, 0, Ok("u".to_string()), verdict("u")).unwrap();
    assert_eq!(h.subscriptions.len(), 1);
}

#[test]
fn merge_appends_every_list_in_order() {
    let mut a: CallbackHandler<Boxed> = CallbackHandler::new();
    a.on(Events::Welcome(mark("a")));
    a.subscribe(1, Ok("a1".to_string()), verdict("s"), mark("e")).unwrap();
    a.call(2, Ok("a2".to_string()), verdict("c")).unwrap();
    let mut b: CallbackHandler<Boxed> = CallbackHandler::new();
    b.on(Events::Goodbye(mark("b")));
    b.subscribe(11, Ok("b1".to_string()), verdict("s"), mark("e")).unwrap();
    b.call(12, Ok("b2".to_string()), verdict("c")).unwrap();
    b.publish(13, Ok("b3".to_string()), verdict("p")).unwrap();
    b.unsubscribe(14, 0, Ok("b4".to_string()), verdict("u")).unwrap();
    b.register(15, Ok("b5".to_string()), verdict("r")).unwrap();
    b.unregister(16, Ok("b6".to_string()), verdict("x")).unwrap();
    a.merge(b);
    assert_eq!(a.message_queue, strings(&["a1", "a2", "b1", "b2", "b3", "b4", "b5", "b6"]));
    assert_eq!(a.callbacks.len(), 2);
    assert!(matches!(a.callbacks[0], Events::Welcome(_)));
    assert!(matches!(a.callbacks[1], Events::Goodbye(_)));
    let subscribed: Vec<u64> = a.subscriptions.iter().map(|s| s.0).collect();
    assert_eq!(subscribed, vec![1, 11]);
    let waiting: Vec<u64> = a.on_subscribed.iter().map(|s| s.0).collect();
    assert_eq!(waiting, vec![1, 11]);
    let calls: Vec<u64> = a.call_results.iter().map(|s| s.0).collect();
    assert_eq!(calls, vec![2, 12]);
    assert_eq!(a.publish_callbacks[0].0, 13);
    assert_eq!(a.unsubscribe_callbacks[0].0, 14);
    assert_eq!(a.register_callbacks[0].0, 15);
    assert_eq!(a.unregistered_callbacks[0].0, 16);
}

#[test]
fn new_registry_and_context_hold_nothing() {
    let h: CallbackHandler<Boxed> = CallbackHandler::new();
    assert!(h.callbacks.is_empty());
    assert!(h.subscriptions.is_empty());
    assert!(h.on_subscribed.is_empty());
    assert!(h.call_results.is_empty());
    assert!(h.publish_callbacks.is_empty());
    assert!(h.unsubscribe_callbacks.is_empty());
    assert!(h.register_callbacks.is_empty());
    assert!(h.unregistered_callbacks.is_empty());
    assert!(h.message_queue.is_empty());
    let ctx: Ctx = Context::new();
    assert!(ctx.messages.message_queue.is_empty());
    assert!(ctx.messages.callbacks.is_empty());
}

#[test]
fn context_records_what_the_handler_asks_for() {
    let mut ctx: Ctx = Context::new();
    ctx.send(Ok("raw".to_string())).unwrap();
    ctx.subscribe(1, Ok("s".to_string()), verdict("s"), mark("e")).unwrap();
    ctx.call(2, Ok("c".to_string()), verdict("c")).unwrap();
    ctx.publish(3, Ok("p".to_string()), verdict("p")).unwrap();
    ctx.unsubscribe(4, 40, Ok("u".to_string()), verdict("u")).unwrap();
    ctx.register(5, Ok("r".to_string()), verdict("r")).unwrap();
    ctx.unregister(6, Ok("x".to_string()), verdict("x")).unwrap();
    ctx.on(Events::Abort(mark("abort")));
    assert!(matches!(ctx.send(Err("bad".to_string())), Err(Error::JsonError(_))));
    assert_eq!(queued(&ctx), strings(&["raw", "s", "c", "p", "u", "r", "x"]));
    assert_eq!(ctx.messages.subscriptions.len(), 1);
    assert_eq!(ctx.messages.on_subscribed[0].0, 1);
    assert_eq!(ctx.messages.call_results[0].0, 2);
    assert_eq!(ctx.messages.publish_callbacks[0].0, 3);
    assert_eq!(ctx.messages.unsubscribe_callbacks[0].0, 4);
    assert_eq!(ctx.messages.register_callbacks[0].0, 5);
    assert_eq!(ctx.messages.unregistered_callbacks[0].0, 6);
    assert_eq!(ctx.messages.callbacks.len(), 1);
}

#[test]
fn connect_gives_an_empty_session_or_the_error() {
    let connected: Result<(u8, WampClient<Boxed>), WebSocketError> = WampClient::connect(Ok(7u8));
    match connected {
        Ok((transport, session)) => {
            assert_eq!(transport, 7);
            assert!(session.handler.callbacks.is_empty());
            assert!(session.handler.message_queue.is_empty());
        }
        Err(_) => panic!("a connection gives a session"),
    }
    let refused: Result<((), WampClient<Boxed>), WebSocketError> =
        WampClient::connect(Err(WebSocketError::WebSocketClosedError));
    assert!(matches!(refused, Err(WebSocketError::WebSocketClosedError)));
}

#[test]
fn direct_send_hands_on_the_text_or_the_failure() {
    let c = client();
    assert!(matches!(c.send(Ok("hello".to_string())), Ok(text) if text == "hello"));
    assert!(matches!(c.send(Err("bad".to_string())), Err(Error::JsonError(why)) if why == "bad"));
    assert!(c.transmitted(Ok(())).is_ok());
    assert!(matches!(
        c.transmitted(Err(WebSocketError::PayloadTooLargeError)),
        Err(Error::WsError(WebSocketError::PayloadTooLargeError))
    ));
    assert!(c.handler.message_queue.is_empty());
}

#[test]
fn session_operations_with_failed_encoding_register_nothing() {
    let mut c = client();
    let bad = || Err("bad".to_string());
    assert!(matches!(
        c.subscribe(1, bad(), verdict("s"), mark("e")),
        Err(Error::JsonError(why)) if why == "bad"
    ));
    assert!(matches!(c.call(1, bad(), verdict("c")), Err(Error::JsonError(_))));
    assert!(matches!(c.publish(1, bad(), verdict("p")), Err(Error::JsonError(_))));
    assert!(matches!(c.register(1, bad(), verdict("r")), Err(Error::JsonError(_))));
    assert!(matches!(c.unregister(1, bad(), verdict("u")), Err(Error::JsonError(_))));
    assert!(c.handler.subscriptions.is_empty());
    assert!(c.handler.on_subscribed.is_empty());
    assert!(c.handler.call_results.is_empty());
    assert!(c.handler.publish_callbacks.is_empty());
    assert!(c.handler.register_callbacks.is_empty());
    assert!(c.handler.unregistered_callbacks.is_empty());
    assert!(c.handler.message_queue.is_empty());
}

#[test]
fn session_operations_register_and_queue() {
    let mut c = client();
    c.subscribe(1, Ok("s".to_string()), verdict("s"), mark("e")).unwrap();
    c.call(2, Ok("c".to_string()), verdict("c")).unwrap();
    c.publish(3, Ok("p".to_string()), verdict("p")).unwrap();
    c.register(4, Ok("r".to_string()), verdict("r")).unwrap();
    c.unregister(5, Ok("u".to_string()), verdict("u")).unwrap();
    assert_eq!(c.handler.message_queue, strings(&["s", "c", "p", "r", "u"]));
    assert_eq!(c.handler.subscriptions[0].0, 1);
    assert_eq!(c.handler.subscriptions[0].2, None);
    assert_eq!(c.handler.on_subscribed[0].0, 1);
    assert_eq!(c.handler.call_results[0].0, 2);
    assert_eq!(c.handler.publish_callbacks[0].0, 3);
    assert_eq!(c.handler.register_callbacks[0].0, 4);
    assert_eq!(c.handler.unregistered_callbacks[0].0, 5);
}

#[test]
fn queued_request_goes_out_with_the_next_cycle_after_what_was_queued_before() {
    let mut c = client();
    c.unsubscribe(7, 70, Ok("earlier".to_string()), verdict("unsub")).unwrap();
    c.subscribe(1, Ok("subscribe".to_string()), verdict("s"), mark("e")).unwrap();
    assert!(c.loop_messages(Received::NotText).is_empty());
    let out = c.loop_messages(Received::Message(WampEvents::Other(68)));
    assert_eq!(out, strings(&["earlier", "subscribe"]));
}

#[test]
fn complete_and_drain() {
    let mut h: CallbackHandler<Boxed> = CallbackHandler::new();
    h.call(1, Ok("a".to_string()), verdict("a")).unwrap();
    h.call(2, Ok("b".to_string()), verdict("b")).unwrap();
    h.call(1, Ok("c".to_string()), verdict("c")).unwrap();
    h.register(1, Ok("d".to_string()), verdict("d")).unwrap();
    h.complete(Pending::CallResult, 1);
    assert_eq!(h.call_results.len(), 1);
    assert_eq!(h.call_results[0].0, 2);
    assert_eq!(h.register_callbacks.len(), 1);
    assert_eq!(h.drain(), strings(&["a", "b", "c", "d"]));
    assert!(h.drain().is_empty());
}

#[test]
fn messages_say_which_request_they_answer() {
    assert_eq!(
        WampEvents::Subscribed(Subscribed { request: 3, subscription: 4 }).answers(),
        Some((Pending::Subscribed, 3))
    );
    assert_eq!(WampEvents::MessageResult(result(5, "[]")).answers(), Some((Pending::CallResult, 5)));
    assert_eq!(
        WampEvents::Published(Published { request: 6, publication: 1 }).answers(),
        Some((Pending::Published, 6))
    );
    assert_eq!(
        WampEvents::Unsubscribed(Unsubscribed { request: 7 }).answers(),
        Some((Pending::Unsubscribed, 7))
    );
    assert_eq!(
        WampEvents::Registered(Registered { request: 8, registration: 1 }).answers(),
        Some((Pending::Registered, 8))
    );
    assert_eq!(
        WampEvents::Unregistered(Unregistered { request: 9 }).answers(),
        Some((Pending::Unregistered, 9))
    );
    assert_eq!(
        WampEvents::ErrorMessage(error(CALL, 5)).answers(),
        Some((Pending::CallResult, 5))
    );
    assert_eq!(
        WampEvents::ErrorMessage(error(PUBLISH, 5)).answers(),
        Some((Pending::CallResult, 5))
    );
    assert_eq!(WampEvents::ErrorMessage(error(0, 5)).answers(), None);
    assert_eq!(WampEvents::Event(event(1, "[]")).answers(), None);
    assert_eq!(welcome().answers(), None);
    assert_eq!(WampEvents::Other(1).answers(), None);
}

#[test]
fn message_codes() {
    assert_eq!(SUBSCRIBE, 32);
    assert_eq!(UNSUBSCRIBE, 34);
    assert_eq!(CALL, 48);
    assert_eq!(PUBLISH, 16);
    assert_eq!(REGISTER, 64);
    assert_eq!(UNREGISTER, 66);
}

#[test]
fn session_handler_kinds() {
    let welcome: Events<Boxed> = Events::Welcome(mark("w"));
    let error: Events<Boxed> = Events::Error(mark("e"));
    assert_eq!(welcome.kind(), SessionKind::Welcome);
    assert_eq!(error.kind(), SessionKind::Error);
}
