//! One inbound interaction, from check-out to check-in, and the channel calls
//! that deliver its effects.
//!
//! The dispatcher takes the user's session out of the registry, lets it
//! handle the interaction (building the default session first for a user who
//! has none), delivers the effects, and puts the session back. When the
//! conversation closed, a fresh default session is built, its own effects
//! delivered, and that one is put back: no user is left without a session.
//! The channel calls, the session factory and the steps' handlers are the
//! driver's to run; this module decides what comes next.
use vstd::prelude::*;

use crate::controller::{holds, lemma_put_holds, put_result, CtxResult as Effect, DialogueController};
use crate::dialogues::{MessageId, OutgoingDocument, OutgoingMessage, Selector};

verus! {

/// Where a dispatch stands.
#[derive(Debug, Clone, Copy, PartialEq, Eq, Structural)]
pub enum DispatchPhase {
    /// The default session is being built; `created` comes next.
    AwaitingSession,
    /// The session handles the interaction; `handled` comes next.
    AwaitingHandling,
    /// Effects are being delivered; `delivered` comes next.
    AwaitingDelivery,
    /// The session was checked in.
    Done,
}

/// The abstract state of a dispatch.
pub struct DispatchState<C> {
    pub user: u64,
    pub phase: DispatchPhase,
    /// Effects of building the session, delivered before the handling's.
    pub prefix: Seq<Effect>,
    /// The session to check in once its effects are delivered.
    pub session: Option<DialogueController<C>>,
    /// Whether the session being built replaces one that closed.
    pub replacing: bool,
}

/// What a dispatch asks of its driver, abstractly.
pub enum DispatchNext<C> {
    CreateSession,
    Handle(DialogueController<C>),
    Deliver(Seq<Effect>),
    CheckIn(DialogueController<C>, Seq<MessageId>),
}

/// A request of a dispatch to its driver.
pub enum DispatchAction<C> {
    /// Build the default session of the user and hand it, with the effects of
    /// its set-up, to `created`.
    CreateSession,
    /// Let this session handle the interaction and hand the outcome to
    /// `handled`.
    Handle(DialogueController<C>),
    /// Deliver these effects, in order, and hand the ids the channel gave to
    /// `delivered`.
    Deliver(Vec<Effect>),
    /// Tell this session which messages were delivered and put it into the
    /// registry for the user. The dispatch is over.
    CheckIn(DialogueController<C>, Vec<MessageId>),
}

impl<C> DispatchAction<C> {
    pub open spec fn view_next(&self) -> DispatchNext<C> {
        match self {
            DispatchAction::CreateSession => DispatchNext::CreateSession,
            DispatchAction::Handle(c) => DispatchNext::Handle(*c),
            DispatchAction::Deliver(e) => DispatchNext::Deliver(e@),
            DispatchAction::CheckIn(c, ids) => DispatchNext::CheckIn(*c, ids@),
        }
    }
}

/// How a dispatch for `user` starts, given what was checked out for them.
pub open spec fn dispatch_start<C>(user: u64, checked_out: Option<DialogueController<C>>) -> (DispatchState<C>, DispatchNext<C>) {
    match checked_out {
        Some(c) => (
            DispatchState { user, phase: DispatchPhase::AwaitingHandling, prefix: seq![], session: None, replacing: false },
            DispatchNext::Handle(c),
        ),
        None => (
            DispatchState { user, phase: DispatchPhase::AwaitingSession, prefix: seq![], session: None, replacing: false },
            DispatchNext::CreateSession,
        ),
    }
}

/// The dispatch once the default session `c` was built with `effects`.
pub open spec fn dispatch_created<C>(s: DispatchState<C>, c: DialogueController<C>, effects: Seq<Effect>) -> (DispatchState<C>, DispatchNext<C>) {
    if s.replacing {
        (DispatchState { phase: DispatchPhase::AwaitingDelivery, session: Some(c), ..s }, DispatchNext::Deliver(effects))
    } else {
        (DispatchState { phase: DispatchPhase::AwaitingHandling, prefix: effects, ..s }, DispatchNext::Handle(c))
    }
}

/// The dispatch once the interaction was handled: `outcome` is the session
/// afterwards, none if the conversation closed.
pub open spec fn dispatch_handled<C>(s: DispatchState<C>, outcome: Option<DialogueController<C>>, effects: Seq<Effect>) -> (DispatchState<C>, DispatchNext<C>) {
    (
        DispatchState { phase: DispatchPhase::AwaitingDelivery, prefix: seq![], session: outcome, ..s },
        DispatchNext::Deliver(s.prefix + effects),
    )
}

/// The dispatch once the effects were delivered and the channel gave `ids`.
pub open spec fn dispatch_delivered<C>(s: DispatchState<C>, ids: Seq<MessageId>) -> (DispatchState<C>, DispatchNext<C>) {
    match s.session {
        Some(c) => (DispatchState { phase: DispatchPhase::Done, session: None, ..s }, DispatchNext::CheckIn(c, ids)),
        None => (
            DispatchState { phase: DispatchPhase::AwaitingSession, replacing: true, ..s },
            DispatchNext::CreateSession,
        ),
    }
}

/// The handling of one interaction of one user.
pub struct Dispatch<C> {
    user: u64,
    phase: DispatchPhase,
    prefix: Vec<Effect>,
    session: Option<DialogueController<C>>,
    replacing: bool,
}

impl<C> View for Dispatch<C> {
    type V = DispatchState<C>;

    closed spec fn view(&self) -> DispatchState<C> {
        DispatchState {
            user: self.user,
            phase: self.phase,
            prefix: self.prefix@,
            session: self.session,
            replacing: self.replacing,
        }
    }
}

impl<C> Dispatch<C> {
    /// Starts the dispatch for `user_id`, given the session checked out of
    /// the registry for them, if any.
    pub fn start(user_id: u64, checked_out: Option<DialogueController<C>>) -> (r: (Self, DispatchAction<C>))
        ensures
            (r.0@, r.1.view_next()) == dispatch_start(user_id, checked_out),
    {
        let (phase, action) = match checked_out {
            Some(c) => (DispatchPhase::AwaitingHandling, DispatchAction::Handle(c)),
            None => (DispatchPhase::AwaitingSession, DispatchAction::CreateSession),
        };
        (Dispatch { user: user_id, phase, prefix: Vec::new(), session: None, replacing: false }, action)
    }

    pub fn user_id(&self) -> (r: u64)
        ensures
            r == self@.user,
    {
        self.user
    }

    pub fn phase(&self) -> (r: DispatchPhase)
        ensures
            r == self@.phase,
    {
        self.phase
    }

    /// Takes the default session that was built, with its set-up effects.
    pub fn created(&mut self, controller: DialogueController<C>, effects: Vec<Effect>) -> (r: DispatchAction<C>)
        requires
            old(self)@.phase == DispatchPhase::AwaitingSession,
        ensures
            (final(self)@, r.view_next()) == dispatch_created(old(self)@, controller, effects@),
    {
        if self.replacing {
            self.phase = DispatchPhase::AwaitingDelivery;
            self.session = Some(controller);
            DispatchAction::Deliver(effects)
        } else {
            self.phase = DispatchPhase::AwaitingHandling;
            self.prefix = effects;
            DispatchAction::Handle(controller)
        }
    }

    /// Takes the outcome of the handling: the session afterwards, if the
    /// conversation goes on, and the effects.
    pub fn handled(&mut self, outcome: Option<DialogueController<C>>, effects: Vec<Effect>) -> (r: DispatchAction<C>)
        requires
            old(self)@.phase == DispatchPhase::AwaitingHandling,
        ensures
            (final(self)@, r.view_next()) == dispatch_handled(old(self)@, outcome, effects@),
    {
        let mut all = Vec::new();
        std::mem::swap(&mut all, &mut self.prefix);
        let mut effects = effects;
        all.append(&mut effects);
        self.phase = DispatchPhase::AwaitingDelivery;
        self.session = outcome;
        DispatchAction::Deliver(all)
    }

    /// Takes the ids of the messages the channel delivered.
    pub fn delivered(&mut self, sent: Vec<MessageId>) -> (r: DispatchAction<C>)
        requires
            old(self)@.phase == DispatchPhase::AwaitingDelivery,
        ensures
            (final(self)@, r.view_next()) == dispatch_delivered(old(self)@, sent@),
    {
        match self.session.take() {
            Some(c) => {
                self.phase = DispatchPhase::Done;
                DispatchAction::CheckIn(c, sent)
            },
            None => {
                self.phase = DispatchPhase::AwaitingSession;
                self.replacing = true;
                DispatchAction::CreateSession
            },
        }
    }
}

/// A dispatch never strands a user: whatever the handling of the interaction
/// gives, the dispatch ends by checking in a live session for the user,
/// either the one that handled it or, when the conversation closed, a fresh
/// default session whose own effects were delivered first; and the registry
/// that session is put into holds a session of the user.
pub proof fn lemma_never_strands<C>(
    s: DispatchState<C>,
    outcome: Option<DialogueController<C>>,
    effects: Seq<Effect>,
    sent: Seq<MessageId>,
    fresh: DialogueController<C>,
    fresh_effects: Seq<Effect>,
    fresh_sent: Seq<MessageId>,
    registry: Seq<(u64, DialogueController<C>)>,
    after: Seq<(u64, DialogueController<C>)>,
)
    requires
        s.phase == DispatchPhase::AwaitingHandling,
        put_result(registry, s.user, if outcome is Some { outcome->0 } else { fresh }, after),
    ensures
        holds(after, s.user),
        ({
            let handled = dispatch_handled(s, outcome, effects);
            let delivered = dispatch_delivered(handled.0, sent);
            let created = dispatch_created(delivered.0, fresh, fresh_effects);
            let last = dispatch_delivered(created.0, fresh_sent);
            &&& handled.1 == DispatchNext::<C>::Deliver(s.prefix + effects)
            &&& outcome is Some ==> delivered.1 == DispatchNext::CheckIn(outcome->0, sent)
            &&& outcome is Some ==> delivered.0.phase == DispatchPhase::Done
            &&& outcome is None ==> delivered.1 == DispatchNext::<C>::CreateSession
            &&& outcome is None ==> created.1 == DispatchNext::<C>::Deliver(fresh_effects)
            &&& outcome is None ==> last.1 == DispatchNext::CheckIn(fresh, fresh_sent)
            &&& outcome is None ==> last.0.phase == DispatchPhase::Done
            &&& last.0.user == s.user && delivered.0.user == s.user
        }),
{
    lemma_put_holds(registry, s.user, if outcome is Some { outcome->0 } else { fresh }, after);
}

/// A call on the channel.
pub enum ChannelCall {
    SendMessage(OutgoingMessage),
    SendDocument(OutgoingDocument),
    SendKeyboard(OutgoingMessage, Selector),
    DeleteMessages(Vec<MessageId>),
}

impl ChannelCall {
    /// Whether the channel answers this call with the id of a new message.
    pub open spec fn spec_assigns_id(&self) -> bool {
        !(self is DeleteMessages)
    }

    pub fn assigns_id(&self) -> (r: bool)
        ensures
            r == self.spec_assigns_id(),
    {
        match self {
            ChannelCall::DeleteMessages(_) => false,
            _ => true,
        }
    }
}

/// The calls that deliver one effect: one per message of a `Messages` effect.
pub open spec fn calls_of(e: Effect) -> Seq<ChannelCall> {
    match e {
        Effect::Messages(ms) => ms@.map_values(|m: OutgoingMessage| ChannelCall::SendMessage(m)),
        Effect::Document(d) => seq![ChannelCall::SendDocument(d)],
        Effect::Buttons(m, s) => seq![ChannelCall::SendKeyboard(m, s)],
        Effect::RemoveMessages(ids) => seq![ChannelCall::DeleteMessages(ids)],
    }
}

/// The calls that deliver `effects`, in order.
pub open spec fn delivery_plan(effects: Seq<Effect>) -> Seq<ChannelCall>
    decreases effects.len(),
{
    if effects.len() == 0 {
        seq![]
    } else {
        delivery_plan(effects.drop_last()) + calls_of(effects.last())
    }
}

/// One `SendMessage` call per message of `ms`, in order.
fn message_calls(ms: Vec<OutgoingMessage>) -> (r: Vec<ChannelCall>)
    ensures
        r@ == ms@.map_values(|m: OutgoingMessage| ChannelCall::SendMessage(m)),
{
    let ghost all = ms@;
    let mut ms = ms;
    let mut out: Vec<ChannelCall> = Vec::new();
    while ms.len() > 0
        invariant
            ms.len() <= all.len(),
            ms@ == all.subrange(all.len() - ms.len(), all.len() as int),
            out@ == all.subrange(0, all.len() - ms.len()).map_values(|m: OutgoingMessage| ChannelCall::SendMessage(m)),
        decreases ms.len(),
    {
        let ghost done = all.len() - ms.len();
        let m = ms.remove(0);
        assert(all[done] == m);
        out.push(ChannelCall::SendMessage(m));
        assert(all.subrange(0, done + 1).map_values(|m: OutgoingMessage| ChannelCall::SendMessage(m))
            =~= all.subrange(0, done).map_values(|m: OutgoingMessage| ChannelCall::SendMessage(m)).push(ChannelCall::SendMessage(m)));
        assert(ms@ =~= all.subrange(all.len() - ms.len(), all.len() as int));
    }
    assert(all.subrange(0, all.len() as int) =~= all);
    out
}

/// Turns effects into the channel calls that deliver them, in order.
pub fn plan_delivery(effects: Vec<Effect>) -> (r: Vec<ChannelCall>)
    ensures
        r@ == delivery_plan(effects@),
{
    let ghost all = effects@;
    let mut effects = effects;
    let mut out: Vec<ChannelCall> = Vec::new();
    while effects.len() > 0
        invariant
            effects.len() <= all.len(),
            effects@ == all.subrange(all.len() - effects.len(), all.len() as int),
            out@ == delivery_plan(all.subrange(0, all.len() - effects.len())),
        decreases effects.len(),
    {
        let ghost done = all.len() - effects.len();
        let e = effects.remove(0);
        assert(all.subrange(0, done + 1).drop_last() =~= all.subrange(0, done));
        assert(all.subrange(0, done + 1).last() == e);
        let mut calls = match e {
            Effect::Messages(ms) => message_calls(ms),
            Effect::Document(d) => vec![ChannelCall::SendDocument(d)],
            Effect::Buttons(m, s) => vec![ChannelCall::SendKeyboard(m, s)],
            Effect::RemoveMessages(ids) => vec![ChannelCall::DeleteMessages(ids)],
        };
        assert(calls@ =~= calls_of(all[done]));
        out.append(&mut calls);
        assert(effects@ =~= all.subrange(all.len() - effects.len(), all.len() as int));
    }
    assert(all.subrange(0, all.len() as int) =~= all);
    out
}

} // verus!
