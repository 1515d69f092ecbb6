//! Sessions, the per-user registry of sessions, and the effects that leave
//! the engine for the channel.
use vstd::prelude::*;

use crate::dialogues::{Message, MessageId, OutgoingDocument, OutgoingMessage, Select, Selector};

verus! {

/// An effect that the channel carries out. Hand-offs never appear here.
pub enum CtxResult {
    Messages(Vec<OutgoingMessage>),
    Document(OutgoingDocument),
    RemoveMessages(Vec<MessageId>),
    Buttons(OutgoingMessage, Selector),
}

/// One inbound interaction of a user.
pub enum DialInteraction {
    Select(Select),
    Message(Message),
    Command(Message),
}

/// Why a session could not be set up.
#[derive(Debug, Clone, Copy, PartialEq, Eq, Structural)]
pub enum ControllerError {
    /// The step closed the conversation while it was being initialised.
    ContextDestroyed,
}

/// A live session: the step a user is on and the time of their last
/// interaction, in seconds.
pub struct DialogueController<C> {
    context: C,
    last_usage_time: u64,
}

impl<C> View for DialogueController<C> {
    /// The step, and the time of the last interaction.
    type V = (C, u64);

    closed spec fn view(&self) -> (C, u64) {
        (self.context, self.last_usage_time)
    }
}

/// What the engine asks of a conversation step besides its handlers: whether
/// it waits for a file, and which of its messages the channel delivered, so
/// that it can remove them when it is shut down.
pub trait DialContext {
    /// Whether the step waits for a file; the steps of this crate each
    /// define it.
    open spec fn spec_file_expected(&self) -> bool {
        false
    }

    /// The ids of the step's messages it was told were delivered and still
    /// keeps; the steps of this crate each define it.
    open spec fn spec_sent(&self) -> Set<MessageId> {
        Set::empty()
    }

    fn file_expected(&self) -> (r: bool)
        ensures
            r == self.spec_file_expected(),
    ;

    fn remember_sent_messages(&mut self, msg_ids: Vec<MessageId>)
        ensures
            final(self).spec_sent() == old(self).spec_sent() + msg_ids@.to_set(),
            final(self).spec_file_expected() == old(self).spec_file_expected(),
    ;
}

impl<C: DialContext> DialogueController<C> {
    /// Whether the session's step waits for a file.
    pub fn file_expected(&self) -> (r: bool)
        ensures
            r == self@.0.spec_file_expected(),
    {
        self.context.file_expected()
    }

    /// Tells the session's step which of its messages were delivered; the
    /// time of the last interaction is kept.
    pub fn remember_sent_messages(&mut self, msg_ids: Vec<MessageId>)
        ensures
            final(self)@.1 == old(self)@.1,
            final(self)@.0.spec_sent() == old(self)@.0.spec_sent() + msg_ids@.to_set(),
            final(self)@.0.spec_file_expected() == old(self)@.0.spec_file_expected(),
    {
        self.context.remember_sent_messages(msg_ids)
    }
}

impl<C> DialogueController<C> {
    /// A session on `context`, last used at `now`.
    pub fn new(context: C, now: u64) -> (r: Self)
        ensures
            r@ == (context, now),
    {
        DialogueController { context, last_usage_time: now }
    }

    /// Sets a session up from the resolution of a step's `init`: the session
    /// holds the step that resolution left live, and fails when none is left.
    pub fn create(context: Option<C>, results: Vec<CtxResult>, now: u64) -> (r: Result<(Self, Vec<CtxResult>), ControllerError>)
        ensures
            context is None <==> r is Err,
            r is Err ==> r->Err_0 == ControllerError::ContextDestroyed,
            r is Ok ==> r->Ok_0.0@ == (context->0, now) && r->Ok_0.1@ == results@,
    {
        match context {
            Some(context) => Ok((DialogueController::new(context, now), results)),
            None => Err(ControllerError::ContextDestroyed),
        }
    }

    /// The session after an interaction was handled and resolved: the step
    /// that resolution left live, last used at `now`, or none when the
    /// conversation closed.
    pub fn handle(context: Option<C>, results: Vec<CtxResult>, now: u64) -> (r: (Option<Self>, Vec<CtxResult>))
        ensures
            r.0 is None <==> context is None,
            r.0 is Some ==> r.0->0@ == (context->0, now),
            r.1@ == results@,
    {
        match context {
            Some(context) => (Some(DialogueController::new(context, now)), results),
            None => (None, results),
        }
    }

    /// The effects of shutting a session down, from the resolution of its
    /// step's `shutdown`: a step that resolution left live is dropped, since
    /// the session ends anyway.
    pub fn shutdown(_context: Option<C>, results: Vec<CtxResult>) -> (r: Vec<CtxResult>)
        ensures
            r@ == results@,
    {
        results
    }

    pub fn get_last_interaction_time(&self) -> (r: u64)
        ensures
            r == self@.1,
    {
        self.last_usage_time
    }

    pub fn context(&self) -> (r: &C)
        ensures
            *r == self@.0,
    {
        &self.context
    }

    /// Gives the step up, to handle an interaction or to be shut down.
    pub fn into_context(self) -> (r: C)
        ensures
            r == self@.0,
    {
        self.context
    }
}

/// The live sessions, at most one per user, in the order the users arrived.
pub struct SessionRegistry<C> {
    entries: Vec<(u64, DialogueController<C>)>,
}

impl<C> View for SessionRegistry<C> {
    /// Each user with their session.
    type V = Seq<(u64, DialogueController<C>)>;

    closed spec fn view(&self) -> Seq<(u64, DialogueController<C>)> {
        self.entries@
    }
}

/// Whether `entries` holds a session of `user`.
pub open spec fn holds<C>(entries: Seq<(u64, DialogueController<C>)>, user: u64) -> bool {
    exists|i: int| 0 <= i < entries.len() && (#[trigger] entries[i]).0 == user
}

/// Whether no user has two sessions in `entries`.
pub open spec fn one_per_user<C>(entries: Seq<(u64, DialogueController<C>)>) -> bool {
    forall|i: int, j: int|
        0 <= i < entries.len() && 0 <= j < entries.len() && i != j ==> (#[trigger] entries[i]).0 != (#[trigger] entries[j]).0
}

/// Whether `after` is `before` with `controller` stored for `user`: in place
/// of the user's session if there was one, else at the end.
pub open spec fn put_result<C>(
    before: Seq<(u64, DialogueController<C>)>,
    user: u64,
    controller: DialogueController<C>,
    after: Seq<(u64, DialogueController<C>)>,
) -> bool {
    &&& holds(before, user) ==> exists|i: int|
        0 <= i < before.len() && before[i].0 == user && after == before.update(i, (user, controller))
    &&& !holds(before, user) ==> after == before.push((user, controller))
}

/// A stored session is found again.
pub proof fn lemma_put_holds<C>(
    before: Seq<(u64, DialogueController<C>)>,
    user: u64,
    controller: DialogueController<C>,
    after: Seq<(u64, DialogueController<C>)>,
)
    requires
        put_result(before, user, controller, after),
    ensures
        holds(after, user),
{
    if holds(before, user) {
        let i = choose|i: int| 0 <= i < before.len() && before[i].0 == user && after == before.update(i, (user, controller));
        assert(after[i].0 == user);
    } else {
        assert(after[before.len() as int].0 == user);
    }
}

/// Taking a user's session back out of a registry it was just put into
/// gives that session: after `put_controller(user, c)`, the only entry of
/// `user` holds `c`.
pub proof fn lemma_take_after_put<C>(
    before: Seq<(u64, DialogueController<C>)>,
    user: u64,
    controller: DialogueController<C>,
    after: Seq<(u64, DialogueController<C>)>,
)
    requires
        put_result(before, user, controller, after),
        one_per_user(after),
        exists|i: int| 0 <= i < after.len() && after[i] == (user, controller),
    ensures
        forall|i: int| 0 <= i < after.len() && after[i].0 == user ==> after[i].1 == controller,
{
    let k = choose|i: int| 0 <= i < after.len() && after[i] == (user, controller);
    assert forall|i: int| 0 <= i < after.len() && after[i].0 == user implies after[i].1 == controller by {
        if i != k {
            assert(after[i].0 != after[k].0);
        }
    }
}

/// The user and the time of the last interaction of each session.
pub open spec fn activity<C>(entries: Seq<(u64, DialogueController<C>)>) -> Seq<(u64, u64)> {
    entries.map_values(|e: (u64, DialogueController<C>)| (e.0, e.1@.1))
}

impl<C> SessionRegistry<C> {
    #[verifier::type_invariant]
    spec fn inv(&self) -> bool {
        one_per_user(self.entries@)
    }

    pub fn new() -> (r: Self)
        ensures
            r@ == Seq::<(u64, DialogueController<C>)>::empty(),
            one_per_user(r@),
    {
        SessionRegistry { entries: Vec::new() }
    }

    /// Where the session of `user` stands, if there is one.
    fn position(&self, user: u64) -> (r: Option<usize>)
        ensures
            r is None <==> !holds(self@, user),
            r is Some ==> r->0 < self@.len() && self@[r->0 as int].0 == user,
    {
        let mut i: usize = 0;
        while i < self.entries.len()
            invariant
                i <= self.entries@.len(),
                forall|j: int| 0 <= j < i ==> (#[trigger] self.entries@[j]).0 != user,
            decreases self.entries@.len() - i,
        {
            if self.entries[i].0 == user {
                return Some(i);
            }
            i = i + 1;
        }
        None
    }

    /// The session of `user`, left in place.
    pub fn get_controller(&self, user_id: &u64) -> (r: Option<&DialogueController<C>>)
        ensures
            r is None <==> !holds(self@, *user_id),
            r is Some ==> exists|i: int| 0 <= i < self@.len() && self@[i] == (*user_id, *r->0),
            r is Some ==> forall|i: int| 0 <= i < self@.len() && self@[i].0 == *user_id ==> self@[i].1 == *r->0,
            one_per_user(self@),
    {
        proof {
            use_type_invariant(self);
        }
        match self.position(*user_id) {
            Some(i) => {
                proof {
                    assert(self@[i as int] == (*user_id, self.entries@[i as int].1));
                }
                Some(&self.entries[i].1)
            },
            None => None,
        }
    }

    /// Removes the session of `user` and gives it back.
    pub fn take_controller(&mut self, user_id: &u64) -> (r: Option<DialogueController<C>>)
        ensures
            r is None <==> !holds(old(self)@, *user_id),
            r is None ==> final(self)@ == old(self)@,
            r is Some ==> exists|i: int|
                0 <= i < old(self)@.len() && old(self)@[i] == (*user_id, r->0) && final(self)@ == old(self)@.remove(i),
            r is Some ==> forall|i: int| 0 <= i < old(self)@.len() && old(self)@[i].0 == *user_id ==> old(self)@[i].1 == r->0,
            !holds(final(self)@, *user_id),
            one_per_user(old(self)@),
            one_per_user(final(self)@),
    {
        proof {
            use_type_invariant(&*self);
        }
        match self.position(*user_id) {
            Some(i) => {
                let ghost before = self.entries@;
                let mut taken = SessionRegistry::new();
                std::mem::swap(self, &mut taken);
                let mut entries = taken.entries;
                let (_, controller) = entries.remove(i);
                proof {
                    assert(entries@ =~= before.remove(i as int));
                    assert forall|j: int| 0 <= j < entries@.len() implies (#[trigger] entries@[j]).0 != *user_id by {
                        if j < i {
                            assert(entries@[j] == before[j]);
                        } else {
                            assert(entries@[j] == before[j + 1]);
                        }
                    }
                    assert forall|a: int, b: int|
                        0 <= a < entries@.len() && 0 <= b < entries@.len() && a != b
                        implies (#[trigger] entries@[a]).0 != (#[trigger] entries@[b]).0 by {
                        let a1 = if a < i { a } else { a + 1 };
                        let b1 = if b < i { b } else { b + 1 };
                        assert(entries@[a] == before[a1]);
                        assert(entries@[b] == before[b1]);
                    }
                }
                *self = SessionRegistry { entries };
                Some(controller)
            },
            None => None,
        }
    }

    /// Stores `controller` as the session of `user`, in place of the one it
    /// had, if any.
    pub fn put_controller(&mut self, user_id: u64, controller: DialogueController<C>)
        ensures
            put_result(old(self)@, user_id, controller, final(self)@),
            holds(final(self)@, user_id),
            exists|i: int| 0 <= i < final(self)@.len() && final(self)@[i] == (user_id, controller),
            one_per_user(final(self)@),
    {
        proof {
            use_type_invariant(&*self);
        }
        let ghost before = self.entries@;
        let ghost mut idx: int = 0;
        let found = self.position(user_id);
        let mut taken = SessionRegistry::new();
        std::mem::swap(self, &mut taken);
        let mut entries = taken.entries;
        match found {
            Some(i) => {
                let ghost put = (user_id, controller);
                entries.set(i, (user_id, controller));
                assert(entries@[i as int] == put);
                proof {
                    idx = i as int;
                }
                proof {
                    assert(entries@[i as int].0 == user_id);
                    assert forall|a: int, b: int|
                        0 <= a < entries@.len() && 0 <= b < entries@.len() && a != b
                        implies (#[trigger] entries@[a]).0 != (#[trigger] entries@[b]).0 by {
                        assert(entries@[a].0 == before[a].0);
                        assert(entries@[b].0 == before[b].0);
                    }
                }
            },
            None => {
                let ghost put = (user_id, controller);
                entries.push((user_id, controller));
                assert(entries@[before.len() as int] == put);
                proof {
                    idx = before.len() as int;
                }
                proof {
                    let n = before.len() as int;
                    assert(entries@[n].0 == user_id);
                    assert forall|a: int, b: int|
                        0 <= a < entries@.len() && 0 <= b < entries@.len() && a != b
                        implies (#[trigger] entries@[a]).0 != (#[trigger] entries@[b]).0 by {
                        if a < n && b < n {
                            assert(entries@[a] == before[a]);
                            assert(entries@[b] == before[b]);
                        } else if a < n {
                            assert(entries@[a] == before[a]);
                        } else {
                            assert(entries@[b] == before[b]);
                        }
                    }
                }
            },
        }
        *self = SessionRegistry { entries };
        assert(self@[idx] == (user_id, controller));
    }

    /// Each user with a session and the time of their last interaction, in
    /// the order the users arrived.
    pub fn dialogues_list(&self) -> (r: Vec<(u64, u64)>)
        ensures
            r@ == activity(self@),
            one_per_user(self@),
            forall|i: int, j: int| 0 <= i < r@.len() && 0 <= j < r@.len() && i != j ==> (#[trigger] r@[i]).0 != (#[trigger] r@[j]).0,
    {
        proof {
            use_type_invariant(self);
        }
        let mut out: Vec<(u64, u64)> = Vec::new();
        let mut i: usize = 0;
        while i < self.entries.len()
            invariant
                i <= self.entries@.len(),
                out@ == activity(self.entries@.take(i as int)),
            decreases self.entries@.len() - i,
        {
            let entry = &self.entries[i];
            out.push((entry.0, entry.1.get_last_interaction_time()));
            assert(activity(self.entries@.take(i as int + 1)) =~= activity(self.entries@.take(i as int)).push(
                (self.entries@[i as int].0, self.entries@[i as int].1@.1),
            ));
            i = i + 1;
        }
        assert(self.entries@.take(self.entries@.len() as int) =~= self.entries@);
        out
    }
}

} // verus!
