use stated_dialogues::controller::{
    ControllerError, CtxResult as Effect, DialContext, DialogueController, SessionRegistry,
};
use stated_dialogues::dialogues::{CtxResult, MessageFormat, MessageId, OutgoingDocument, OutgoingMessage};
use stated_dialogues::dispatch::{plan_delivery, ChannelCall, Dispatch, DispatchAction, DispatchPhase};
use stated_dialogues::resolver::{flatten_results, ContextResolver, Phase, Request};
use stated_dialogues::ttl::{inactivity_notice, plan_sweep};

/// A scripted step: what it answers to `init` and to `shutdown`.
struct Scripted {
    name: String,
    on_init: Vec<Script>,
    on_shutdown: Vec<Script>,
    remembered: Vec<MessageId>,
}

#[derive(Clone)]
enum Script {
    Say(&'static str),
    HandTo(&'static str, Vec<Script>, Vec<Script>),
    Close,
    Nothing,
    /// Removes the messages the step remembered.
    RemoveRemembered,
}

impl DialContext for Scripted {
    fn file_expected(&self) -> bool {
        false
    }

    fn remember_sent_messages(&mut self, msg_ids: Vec<MessageId>) {
        self.remembered.extend(msg_ids);
    }
}

fn step(name: &str, on_init: Vec<Script>, on_shutdown: Vec<Script>) -> Scripted {
    Scripted {
        name: name.to_string(),
        on_init,
        on_shutdown,
        remembered: vec![],
    }
}

fn effects(script: &[Script], remembered: &[MessageId]) -> Vec<CtxResult<Scripted>> {
    script
        .iter()
        .cloned()
        .map(|s| match s {
            Script::Say(t) => CtxResult::Messages(vec![OutgoingMessage::plain(t.to_string())]),
            Script::HandTo(name, init, shutdown) => CtxResult::NewCtx(step(name, init, shutdown)),
            Script::Close => CtxResult::CloseCtx,
            Script::Nothing => CtxResult::Nothing,
            Script::RemoveRemembered => CtxResult::RemoveMessages(remembered.to_vec()),
        })
        .collect()
}

/// Runs a resolution, recording the calls made on the steps.
fn resolve(
    held: Option<Scripted>,
    results: Vec<CtxResult<Scripted>>,
    calls: &mut Vec<String>,
) -> (Option<Scripted>, Vec<Effect>) {
    let mut resolver = ContextResolver::new(held, results);
    loop {
        match resolver.step() {
            Request::Shutdown(c) => {
                calls.push(format!("shutdown {}", c.name));
                resolver.shutdown_done(effects(&c.on_shutdown, &c.remembered));
            }
            Request::Init(c) => {
                calls.push(format!("init {}", c.name));
                let e = effects(&c.on_init, &c.remembered);
                resolver.init_done(c, e);
            }
            Request::Continue => {}
            Request::Finished(c, e) => {
                assert_eq!(resolver.phase(), Phase::Finished);
                return (c, e);
            }
        }
    }
}

fn describe(effects: &[Effect]) -> Vec<String> {
    let mut out = vec![];
    for e in effects {
        match e {
            Effect::Messages(ms) => out.extend(ms.iter().map(|m| m.text().to_string())),
            Effect::Document(d) => out.push(format!("document {}", d.name)),
            Effect::RemoveMessages(ids) => out.push(format!(
                "remove {:?}",
                ids.iter().map(|i| i.0).collect::<Vec<i32>>()
            )),
            Effect::Buttons(m, _) => out.push(format!("buttons {}", m.text())),
        }
    }
    out
}

fn say(t: &'static str) -> Script {
    Script::Say(t)
}

#[test]
fn teardown_comes_before_setup() {
    let held = step("a", vec![], vec![say("bye a")]);
    let mut calls = vec![];
    let (ctx, out) = resolve(
        Some(held),
        effects(&[say("first"), Script::HandTo("b", vec![say("hi b")], vec![]), say("last")], &[]),
        &mut calls,
    );
    assert_eq!(ctx.unwrap().name, "b");
    assert_eq!(calls, vec!["shutdown a", "init b"]);
    assert_eq!(describe(&out), vec!["first", "bye a", "hi b", "last"]);
}

#[test]
fn close_empties_the_session_and_flushes_later_effects() {
    let held = step("a", vec![], vec![say("bye a")]);
    let mut calls = vec![];
    let (ctx, out) = resolve(
        Some(held),
        effects(&[say("before"), Script::Close, say("after")], &[]),
        &mut calls,
    );
    assert!(ctx.is_none());
    assert_eq!(calls, vec!["shutdown a"]);
    assert_eq!(describe(&out), vec!["before", "bye a", "after"]);
}

#[test]
fn close_without_a_step_calls_nothing() {
    let mut calls = vec![];
    let (ctx, out) = resolve(None, effects(&[Script::Close, say("x")], &[]), &mut calls);
    assert!(ctx.is_none());
    assert!(calls.is_empty());
    assert_eq!(describe(&out), vec!["x"]);
}

#[test]
fn handoff_chain_makes_one_round_trip_per_handoff() {
    // s0 hands to s1; each s_i's init hands to s_{i+1}; s5 says hello.
    let mut init = vec![say("hello from s5")];
    for i in (1..5).rev() {
        let name: &'static str = Box::leak(format!("s{}", i + 1).into_boxed_str());
        init = vec![Script::HandTo(name, init, vec![])];
    }
    let held = step("s0", vec![], vec![]);
    let mut calls = vec![];
    let (ctx, out) = resolve(Some(held), effects(&[Script::HandTo("s1", init, vec![])], &[]), &mut calls);
    assert_eq!(ctx.unwrap().name, "s5");
    assert_eq!(calls.iter().filter(|c| c.starts_with("shutdown")).count(), 5);
    assert_eq!(calls.iter().filter(|c| c.starts_with("init")).count(), 5);
    assert_eq!(
        calls,
        vec![
            "shutdown s0", "init s1", "shutdown s1", "init s2", "shutdown s2", "init s3",
            "shutdown s3", "init s4", "shutdown s4", "init s5"
        ]
    );
    assert_eq!(describe(&out), vec!["hello from s5"]);
}

#[test]
fn handoff_without_a_held_step_only_initialises() {
    let mut calls = vec![];
    let (ctx, out) = resolve(
        None,
        effects(&[Script::HandTo("b", vec![say("hi")], vec![say("never")])], &[]),
        &mut calls,
    );
    assert_eq!(ctx.unwrap().name, "b");
    assert_eq!(calls, vec!["init b"]);
    assert_eq!(describe(&out), vec!["hi"]);
}

#[test]
fn nothing_is_dropped_and_order_is_kept() {
    let input: Vec<CtxResult<Scripted>> = vec![
        CtxResult::Nothing,
        CtxResult::RemoveMessages(vec![MessageId(7)]),
        CtxResult::Document(OutgoingDocument::new(vec![1, 2], "f.json".to_string())),
        CtxResult::Nothing,
        CtxResult::Buttons(OutgoingMessage::plain("pick".to_string()), vec![]),
    ];
    let out = flatten_results(input);
    assert_eq!(describe(&out), vec!["remove [7]", "document f.json", "buttons pick"]);
}

#[test]
fn plain_effects_resolve_in_one_pass() {
    let held = step("a", vec![], vec![say("bye")]);
    let mut calls = vec![];
    let (ctx, out) = resolve(Some(held), effects(&[say("x"), Script::Nothing, say("y")], &[]), &mut calls);
    assert_eq!(ctx.unwrap().name, "a");
    assert!(calls.is_empty());
    assert_eq!(describe(&out), vec!["x", "y"]);
}

#[test]
fn init_that_closes_leaves_no_session() {
    let mut calls = vec![];
    let ctx = step("a", vec![Script::Close], vec![say("bye")]);
    let init = effects(&ctx.on_init, &[]);
    let (held, out) = resolve(Some(ctx), init, &mut calls);
    let created = DialogueController::create(held, out, 10);
    assert!(matches!(created, Err(ControllerError::ContextDestroyed)));
}

fn create_default(now: u64, calls: &mut Vec<String>) -> (DialogueController<Scripted>, Vec<Effect>) {
    let ctx = step("default", vec![say("welcome")], vec![Script::RemoveRemembered]);
    calls.push("init default".to_string());
    let init = effects(&ctx.on_init, &[]);
    let (held, out) = resolve(Some(ctx), init, calls);
    DialogueController::create(held, out, now).unwrap()
}

fn handle(
    session: DialogueController<Scripted>,
    reply: &[Script],
    now: u64,
    calls: &mut Vec<String>,
) -> (Option<DialogueController<Scripted>>, Vec<Effect>) {
    let ctx = session.into_context();
    let results = effects(reply, &ctx.remembered);
    let (held, out) = resolve(Some(ctx), results, calls);
    DialogueController::handle(held, out, now)
}

/// Runs one interaction for `user`, whose step answers with `reply`; gives
/// what was delivered, one line per call.
fn dispatch(
    registry: &mut SessionRegistry<Scripted>,
    user: u64,
    reply: &[Script],
    now: u64,
    next_id: &mut i32,
    calls: &mut Vec<String>,
) -> Vec<String> {
    let mut delivered = vec![];
    let (mut d, mut action) = Dispatch::start(user, registry.take_controller(&user));
    loop {
        action = match action {
            DispatchAction::CreateSession => {
                let (c, e) = create_default(now, calls);
                d.created(c, e)
            }
            DispatchAction::Handle(c) => {
                let (c, e) = handle(c, reply, now, calls);
                d.handled(c, e)
            }
            DispatchAction::Deliver(effects) => {
                let mut ids = vec![];
                for call in plan_delivery(effects) {
                    if call.assigns_id() {
                        ids.push(MessageId(*next_id));
                        *next_id += 1;
                    }
                    delivered.push(match call {
                        ChannelCall::SendMessage(m) => m.text().to_string(),
                        ChannelCall::SendDocument(doc) => format!("document {}", doc.name),
                        ChannelCall::SendKeyboard(m, _) => format!("buttons {}", m.text()),
                        ChannelCall::DeleteMessages(ids) => {
                            format!("remove {:?}", ids.iter().map(|i| i.0).collect::<Vec<i32>>())
                        }
                    });
                }
                d.delivered(ids)
            }
            DispatchAction::CheckIn(mut c, ids) => {
                assert_eq!(d.phase(), DispatchPhase::Done);
                assert_eq!(d.user_id(), user);
                c.remember_sent_messages(ids);
                registry.put_controller(user, c);
                break;
            }
        }
    }
    delivered
}

#[test]
fn fresh_user_gets_the_default_session() {
    let mut registry = SessionRegistry::new();
    let (mut next_id, mut calls) = (1, vec![]);
    let delivered = dispatch(&mut registry, 42, &[], 100, &mut next_id, &mut calls);
    assert_eq!(delivered, vec!["welcome"]);
    let session = registry.get_controller(&42).unwrap();
    assert_eq!(session.context().name, "default");
    assert_eq!(session.get_last_interaction_time(), 100);
    assert_eq!(session.context().remembered, vec![MessageId(1)]);
}

#[test]
fn handoff_removes_what_the_default_session_sent() {
    let mut registry = SessionRegistry::new();
    let (mut next_id, mut calls) = (1, vec![]);
    dispatch(&mut registry, 42, &[], 100, &mut next_id, &mut calls);
    let delivered = dispatch(
        &mut registry,
        42,
        &[Script::HandTo("b", vec![say("this is b")], vec![])],
        160,
        &mut next_id,
        &mut calls,
    );
    assert_eq!(delivered, vec!["remove [1]", "this is b"]);
    let session = registry.get_controller(&42).unwrap();
    assert_eq!(session.context().name, "b");
    assert_eq!(session.get_last_interaction_time(), 160);
}

#[test]
fn closed_conversation_is_replaced_by_a_fresh_session() {
    let mut registry = SessionRegistry::new();
    let (mut next_id, mut calls) = (1, vec![]);
    dispatch(&mut registry, 7, &[], 5, &mut next_id, &mut calls);
    let delivered = dispatch(&mut registry, 7, &[Script::Close], 6, &mut next_id, &mut calls);
    assert_eq!(delivered, vec!["remove [1]", "welcome"]);
    let session = registry.get_controller(&7).unwrap();
    assert_eq!(session.context().name, "default");
    assert_eq!(session.context().remembered, vec![MessageId(2)]);
}

#[test]
fn fresh_user_whose_first_interaction_closes_still_has_a_session() {
    let mut registry = SessionRegistry::new();
    let (mut next_id, mut calls) = (1, vec![]);
    let delivered = dispatch(&mut registry, 9, &[Script::Close], 1, &mut next_id, &mut calls);
    assert_eq!(delivered, vec!["welcome", "remove []", "welcome"]);
    assert!(registry.get_controller(&9).is_some());
}

#[test]
fn sweep_evicts_exactly_the_expired_and_sleeps_until_the_next_expiry() {
    let now = 10_000;
    let plan = plan_sweep(&vec![(1, now - 301), (2, now - 1)], now, 300);
    assert_eq!(plan.evict, vec![1]);
    assert_eq!(plan.sleep_secs, 299);
}

#[test]
fn sweep_over_nothing_sleeps_the_whole_ttl() {
    let plan = plan_sweep(&vec![], 50, 300);
    assert!(plan.evict.is_empty());
    assert_eq!(plan.sleep_secs, 300);
}

#[test]
fn sweep_evicts_at_exactly_the_ttl_and_takes_the_nearest_expiry() {
    let now = 1_000;
    let plan = plan_sweep(&vec![(1, now - 300), (2, now - 100), (3, now - 250), (4, now + 5)], now, 300);
    assert_eq!(plan.evict, vec![1]);
    assert_eq!(plan.sleep_secs, 50);
}

#[test]
fn idle_user_is_evicted_and_notified() {
    let mut registry = SessionRegistry::new();
    let (mut next_id, mut calls) = (1, vec![]);
    dispatch(&mut registry, 1, &[], 0, &mut next_id, &mut calls);
    dispatch(&mut registry, 2, &[], 250, &mut next_id, &mut calls);
    let now = 300;
    let plan = plan_sweep(&registry.dialogues_list(), now, 300);
    assert_eq!(plan.evict, vec![1]);
    assert_eq!(plan.sleep_secs, 250);
    let mut delivered = vec![];
    for user in plan.evict {
        let session = registry.take_controller(&user).unwrap();
        let ctx = session.into_context();
        let results = effects(&ctx.on_shutdown, &ctx.remembered);
        let (_, out) = resolve(Some(ctx), results, &mut calls);
        delivered.extend(describe(&out));
        delivered.push("closed due to inactivity".to_string());
    }
    assert_eq!(delivered, vec!["remove [1]", "closed due to inactivity"]);
    assert!(registry.get_controller(&1).is_none());
    assert!(registry.get_controller(&2).is_some());
    dispatch(&mut registry, 1, &[], 400, &mut next_id, &mut calls);
    assert!(registry.get_controller(&1).is_some());
}

#[test]
fn registry_keeps_one_session_per_user() {
    let mut registry: SessionRegistry<Scripted> = SessionRegistry::new();
    registry.put_controller(1, DialogueController::new(step("a", vec![], vec![]), 10));
    registry.put_controller(2, DialogueController::new(step("b", vec![], vec![]), 20));
    registry.put_controller(1, DialogueController::new(step("c", vec![], vec![]), 30));
    assert_eq!(registry.dialogues_list(), vec![(1, 30), (2, 20)]);
    assert_eq!(registry.get_controller(&1).unwrap().context().name, "c");
    let taken = registry.take_controller(&1).unwrap();
    assert_eq!(taken.context().name, "c");
    assert!(registry.take_controller(&1).is_none());
    assert_eq!(registry.dialogues_list(), vec![(2, 20)]);
}

#[test]
fn delivery_sends_each_message_and_deletes_in_one_call() {
    let effects = vec![
        Effect::Messages(vec![
            OutgoingMessage::plain("one".to_string()),
            OutgoingMessage::new("<b>two</b>".to_string(), MessageFormat::Html),
        ]),
        Effect::RemoveMessages(vec![MessageId(3), MessageId(4)]),
        Effect::Document(OutgoingDocument::new(vec![0], "backup".to_string())),
    ];
    let calls = plan_delivery(effects);
    assert_eq!(calls.len(), 4);
    assert!(matches!(&calls[0], ChannelCall::SendMessage(m) if m.text() == "one" && m.format == MessageFormat::Text));
    assert!(matches!(&calls[1], ChannelCall::SendMessage(m) if m.format == MessageFormat::Html));
    assert!(matches!(&calls[2], ChannelCall::DeleteMessages(ids) if ids == &vec![MessageId(3), MessageId(4)]));
    assert!(!calls[2].assigns_id());
    assert!(calls[3].assigns_id());
}

#[test]
fn session_keeps_time_and_step() {
    let s = DialogueController::new(step("a", vec![], vec![]), 77);
    assert_eq!(s.get_last_interaction_time(), 77);
    assert!(!s.file_expected());
    let (none, out) = DialogueController::<Scripted>::handle(None, vec![], 80);
    assert!(none.is_none() && out.is_empty());
}

#[test]
fn shutdown_keeps_the_effects_and_drops_the_step() {
    let mut calls = vec![];
    let ctx = step("a", vec![], vec![say("bye")]);
    let results = effects(&ctx.on_shutdown, &[]);
    let (held, out) = resolve(Some(ctx), results, &mut calls);
    assert_eq!(held.as_ref().unwrap().name, "a");
    let out = DialogueController::shutdown(held, out);
    assert_eq!(describe(&out), vec!["bye"]);
    assert!(calls.is_empty());
}

#[test]
fn notice_only_after_delivery() {
    let msg = Some("closed".to_string());
    assert_eq!(inactivity_notice(true, &msg).unwrap().text(), "closed");
    assert!(inactivity_notice(false, &msg).is_none());
    assert!(inactivity_notice(true, &None).is_none());
}

#[test]
fn take_after_put_returns_the_session_put() {
    let mut registry: SessionRegistry<Scripted> = SessionRegistry::new();
    registry.put_controller(3, DialogueController::new(step("old", vec![], vec![]), 1));
    registry.put_controller(3, DialogueController::new(step("new", vec![], vec![]), 2));
    assert_eq!(registry.dialogues_list(), vec![(3, 2)]);
    assert_eq!(registry.take_controller(&3).unwrap().context().name, "new");
}

#[test]
fn session_tells_its_step_the_delivered_ids() {
    let mut s = DialogueController::new(step("a", vec![], vec![]), 5);
    s.remember_sent_messages(vec![MessageId(1), MessageId(2)]);
    assert_eq!(s.context().remembered, vec![MessageId(1), MessageId(2)]);
    assert_eq!(s.get_last_interaction_time(), 5);
}
