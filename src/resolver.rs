//! Resolution of hand-offs between conversation steps.
//!
//! A step answers an interaction with raw effects, among them `NewCtx` (hand
//! control to another step) and `CloseCtx` (end the conversation). The
//! resolver turns such a list into the effects the channel sees and the step
//! that is live afterwards. It never calls a step itself: it asks its driver to
//! run `shutdown` or `init` on a step and to hand back what came out, so the
//! driver may await those calls, and a chain of hand-offs of any length costs
//! no stack.
//!
//! The effects are scanned in passes. In a pass, deliverable effects are kept
//! in order; on `NewCtx(new)` the held step is shut down and `new` initialised,
//! and the effects of both calls are spliced in at that point; on `CloseCtx`
//! the held step is shut down and nothing is held. A pass that produced no
//! control effect ends the resolution.
use vstd::prelude::*;

use crate::controller::CtxResult as Effect;
use crate::dialogues::{has_control, CtxResult};

verus! {

/// The effect that the channel sees for a raw effect, if any: `Nothing`
/// (and a control effect) has none.
pub open spec fn deliverable<C>(e: CtxResult<C>) -> Option<Effect> {
    match e {
        CtxResult::Messages(m) => Some(Effect::Messages(m)),
        CtxResult::Document(d) => Some(Effect::Document(d)),
        CtxResult::RemoveMessages(ids) => Some(Effect::RemoveMessages(ids)),
        CtxResult::Buttons(m, s) => Some(Effect::Buttons(m, s)),
        _ => None,
    }
}

/// The deliverable effects of `s`, in order.
pub open spec fn flatten<C>(s: Seq<CtxResult<C>>) -> Seq<Effect>
    decreases s.len(),
{
    if s.len() == 0 {
        seq![]
    } else {
        let rest = flatten(s.drop_last());
        match deliverable(s.last()) {
            Some(e) => rest.push(e),
            None => rest,
        }
    }
}

/// Where a resolution stands.
#[derive(Debug, Clone, Copy, PartialEq, Eq, Structural)]
pub enum Phase {
    /// Ready for `step`.
    Scanning,
    /// A step was handed out to be shut down; `shutdown_done` comes next.
    AwaitingShutdown,
    /// A step was handed out to be initialised; `init_done` comes next.
    AwaitingInit,
    /// The outcome was handed out.
    Finished,
}

/// The abstract state of a resolution.
pub struct ResolverState<C> {
    /// The step held now.
    pub context: Option<C>,
    /// A step to initialise as soon as the held one is shut down.
    pub incoming: Option<C>,
    /// What is left of the current pass.
    pub pending: Seq<CtxResult<C>>,
    /// What the current pass has produced so far.
    pub produced: Seq<CtxResult<C>>,
    pub phase: Phase,
}

/// What a resolver asks of its driver, abstractly.
pub enum Next<C> {
    Shutdown(C),
    Init(C),
    Continue,
    Finished(Option<C>, Seq<Effect>),
}

/// The state in which the resolution of `results` starts, `context` held.
pub open spec fn initial<C>(context: Option<C>, results: Seq<CtxResult<C>>) -> ResolverState<C> {
    ResolverState {
        context,
        incoming: None,
        pending: results,
        produced: seq![],
        phase: Phase::Scanning,
    }
}

/// One step of a resolution in the phase `Scanning`: the next state and the
/// request made of the driver.
pub open spec fn step<C>(s: ResolverState<C>) -> (ResolverState<C>, Next<C>) {
    if s.incoming is Some {
        (ResolverState { incoming: None, phase: Phase::AwaitingInit, ..s }, Next::Init(s.incoming->0))
    } else if s.pending.len() > 0 {
        let e = s.pending[0];
        let rest = s.pending.drop_first();
        match e {
            CtxResult::NewCtx(new) => if s.context is Some {
                (
                    ResolverState {
                        context: None,
                        incoming: Some(new),
                        pending: rest,
                        phase: Phase::AwaitingShutdown,
                        ..s
                    },
                    Next::Shutdown(s.context->0),
                )
            } else {
                (ResolverState { pending: rest, phase: Phase::AwaitingInit, ..s }, Next::Init(new))
            },
            CtxResult::CloseCtx => if s.context is Some {
                (
                    ResolverState { context: None, pending: rest, phase: Phase::AwaitingShutdown, ..s },
                    Next::Shutdown(s.context->0),
                )
            } else {
                (ResolverState { pending: rest, ..s }, Next::Continue)
            },
            _ => (ResolverState { pending: rest, produced: s.produced.push(e), ..s }, Next::Continue),
        }
    } else if has_control(s.produced) {
        (ResolverState { pending: s.produced, produced: seq![], ..s }, Next::Continue)
    } else {
        (
            ResolverState { context: None, produced: seq![], phase: Phase::Finished, ..s },
            Next::Finished(s.context, flatten(s.produced)),
        )
    }
}

/// The state after the driver handed back what `shutdown` produced.
pub open spec fn after_shutdown<C>(s: ResolverState<C>, effects: Seq<CtxResult<C>>) -> ResolverState<C> {
    ResolverState { produced: s.produced + effects, phase: Phase::Scanning, ..s }
}

/// The state after the driver handed back the initialised step and what
/// `init` produced.
pub open spec fn after_init<C>(s: ResolverState<C>, context: C, effects: Seq<CtxResult<C>>) -> ResolverState<C> {
    ResolverState {
        context: Some(context),
        produced: s.produced + effects,
        phase: Phase::Scanning,
        ..s
    }
}

/// A request to the driver.
pub enum Request<C> {
    /// Run `shutdown` on this step, which is dropped afterwards, and hand its
    /// effects to `shutdown_done`.
    Shutdown(C),
    /// Run `init` on this step and hand it back, with its effects, to
    /// `init_done`.
    Init(C),
    /// Nothing to run: call `step` again.
    Continue,
    /// The resolution is over: the step that is live, if any, and the effects
    /// for the channel.
    Finished(Option<C>, Vec<Effect>),
}

impl<C> Request<C> {
    pub open spec fn view_next(&self) -> Next<C> {
        match self {
            Request::Shutdown(c) => Next::Shutdown(*c),
            Request::Init(c) => Next::Init(*c),
            Request::Continue => Next::Continue,
            Request::Finished(c, effects) => Next::Finished(*c, effects@),
        }
    }
}

/// The resolution of one list of raw effects.
pub struct ContextResolver<C> {
    context: Option<C>,
    incoming: Option<C>,
    pending: Vec<CtxResult<C>>,
    produced: Vec<CtxResult<C>>,
    phase: Phase,
}

impl<C> View for ContextResolver<C> {
    type V = ResolverState<C>;

    closed spec fn view(&self) -> ResolverState<C> {
        ResolverState {
            context: self.context,
            incoming: self.incoming,
            pending: self.pending@,
            produced: self.produced@,
            phase: self.phase,
        }
    }
}

/// Whether some effect of `v` is a control effect.
fn any_control<C>(v: &Vec<CtxResult<C>>) -> (r: bool)
    ensures
        r == has_control(v@),
{
    let mut i: usize = 0;
    while i < v.len()
        invariant
            i <= v.len(),
            forall|j: int| 0 <= j < i ==> !(#[trigger] v@[j]).spec_is_control(),
        decreases v.len() - i,
    {
        if v[i].is_control() {
            return true;
        }
        i = i + 1;
    }
    false
}

/// The effect that the channel sees for `e`, if any.
fn to_deliverable<C>(e: CtxResult<C>) -> (r: Option<Effect>)
    ensures
        r == deliverable(e),
{
    match e {
        CtxResult::Messages(m) => Some(Effect::Messages(m)),
        CtxResult::Document(d) => Some(Effect::Document(d)),
        CtxResult::RemoveMessages(ids) => Some(Effect::RemoveMessages(ids)),
        CtxResult::Buttons(m, s) => Some(Effect::Buttons(m, s)),
        _ => None,
    }
}

/// Keeps the deliverable effects of `v`, in order.
pub fn flatten_results<C>(v: Vec<CtxResult<C>>) -> (r: Vec<Effect>)
    ensures
        r@ == flatten(v@),
{
    let ghost all = v@;
    let mut v = v;
    let mut out: Vec<Effect> = Vec::new();
    while v.len() > 0
        invariant
            v.len() <= all.len(),
            v@ == all.subrange(all.len() - v.len(), all.len() as int),
            out@ == flatten(all.subrange(0, all.len() - v.len())),
        decreases v.len(),
    {
        let ghost done = all.len() - v.len();
        let e = v.remove(0);
        assert(all.subrange(0, done + 1).drop_last() =~= all.subrange(0, done));
        assert(all.subrange(0, done + 1).last() == e);
        if let Some(d) = to_deliverable(e) {
            out.push(d);
        }
        assert(v@ =~= all.subrange(all.len() - v.len(), all.len() as int));
    }
    assert(all.subrange(0, all.len() as int) =~= all);
    out
}

impl<C> ContextResolver<C> {
    /// Starts the resolution of `results`, `context` being the step held.
    pub fn new(context: Option<C>, results: Vec<CtxResult<C>>) -> (r: Self)
        ensures
            r@ == initial(context, results@),
    {
        ContextResolver {
            context,
            incoming: None,
            pending: results,
            produced: Vec::new(),
            phase: Phase::Scanning,
        }
    }

    pub fn phase(&self) -> (r: Phase)
        ensures
            r == self@.phase,
    {
        self.phase
    }

    /// Advances the resolution by one effect, or asks the driver for a call.
    pub fn step(&mut self) -> (r: Request<C>)
        requires
            old(self)@.phase == Phase::Scanning,
        ensures
            (final(self)@, r.view_next()) == step(old(self)@),
    {
        if self.incoming.is_some() {
            let new = self.incoming.take().unwrap();
            self.phase = Phase::AwaitingInit;
            return Request::Init(new);
        }
        if self.pending.len() > 0 {
            let e = self.pending.remove(0);
            assert(self.pending@ =~= old(self).pending@.drop_first());
            match e {
                CtxResult::NewCtx(new) => {
                    match self.context.take() {
                        Some(old) => {
                            self.incoming = Some(new);
                            self.phase = Phase::AwaitingShutdown;
                            Request::Shutdown(old)
                        },
                        None => {
                            self.phase = Phase::AwaitingInit;
                            Request::Init(new)
                        },
                    }
                },
                CtxResult::CloseCtx => {
                    match self.context.take() {
                        Some(old) => {
                            self.phase = Phase::AwaitingShutdown;
                            Request::Shutdown(old)
                        },
                        None => Request::Continue,
                    }
                },
                other => {
                    self.produced.push(other);
                    Request::Continue
                },
            }
        } else if any_control(&self.produced) {
            std::mem::swap(&mut self.pending, &mut self.produced);
            assert(self.produced@ =~= Seq::<CtxResult<C>>::empty());
            Request::Continue
        } else {
            let mut produced = Vec::new();
            std::mem::swap(&mut produced, &mut self.produced);
            self.phase = Phase::Finished;
            Request::Finished(self.context.take(), flatten_results(produced))
        }
    }

    /// Takes what `shutdown` produced on the step handed out last.
    pub fn shutdown_done(&mut self, effects: Vec<CtxResult<C>>)
        requires
            old(self)@.phase == Phase::AwaitingShutdown,
        ensures
            final(self)@ == after_shutdown(old(self)@, effects@),
    {
        let mut effects = effects;
        self.produced.append(&mut effects);
        self.phase = Phase::Scanning;
    }

    /// Takes back the step handed out last, once initialised, with what
    /// `init` produced; it is the step held from now on.
    pub fn init_done(&mut self, context: C, effects: Vec<CtxResult<C>>)
        requires
            old(self)@.phase == Phase::AwaitingInit,
        ensures
            final(self)@ == after_init(old(self)@, context, effects@),
    {
        let mut effects = effects;
        self.produced.append(&mut effects);
        self.context = Some(context);
        self.phase = Phase::Scanning;
    }
}

/// Runs a resolution from `s` for at most `fuel` requests, a driver answering
/// `shutdown` on a step `c` with `down(c)` and `init` on `c` with `up(c)`.
/// Gives the state in which the run stopped (one whose next step finishes,
/// unless the fuel ran out) and the numbers of shutdown and init calls made.
pub open spec fn run<C>(
    s: ResolverState<C>,
    down: spec_fn(C) -> Seq<CtxResult<C>>,
    up: spec_fn(C) -> Seq<CtxResult<C>>,
    fuel: nat,
) -> (ResolverState<C>, nat, nat)
    decreases fuel,
{
    if fuel == 0 || s.phase != Phase::Scanning {
        (s, 0, 0)
    } else {
        let (s1, next) = step(s);
        match next {
            Next::Shutdown(c) => {
                let r = run(after_shutdown(s1, down(c)), down, up, (fuel - 1) as nat);
                (r.0, r.1 + 1, r.2)
            },
            Next::Init(c) => {
                let r = run(after_init(s1, c, up(c)), down, up, (fuel - 1) as nat);
                (r.0, r.1, r.2 + 1)
            },
            Next::Continue => run(s1, down, up, (fuel - 1) as nat),
            Next::Finished(_, _) => (s, 0, 0),
        }
    }
}

/// The effects that the shutdowns of `chain[i]`, ..., `chain[n - 1]` produce,
/// in that order, `n + 1` being the length of the chain.
pub open spec fn chain_shutdowns<C>(
    chain: Seq<C>,
    down: spec_fn(C) -> Seq<CtxResult<C>>,
    i: int,
) -> Seq<CtxResult<C>>
    decreases chain.len() - i,
{
    if i < 0 || i >= chain.len() - 1 {
        seq![]
    } else {
        down(chain[i]) + chain_shutdowns(chain, down, i + 1)
    }
}

proof fn lemma_no_control_concat<C>(a: Seq<CtxResult<C>>, b: Seq<CtxResult<C>>)
    requires
        !has_control(a),
        !has_control(b),
    ensures
        !has_control(a + b),
{
    assert forall|i: int| 0 <= i < (a + b).len() implies !(#[trigger] (a + b)[i]).spec_is_control() by {
        if i < a.len() {
            assert((a + b)[i] == a[i]);
        } else {
            assert((a + b)[i] == b[i - a.len()]);
        }
    }
}

/// Deliverable effects at the head of a pass are moved, in order, to what the
/// pass produced, one request each and no call.
proof fn lemma_scan<C>(
    s: ResolverState<C>,
    down: spec_fn(C) -> Seq<CtxResult<C>>,
    up: spec_fn(C) -> Seq<CtxResult<C>>,
    fuel: nat,
    k: int,
)
    requires
        s.phase == Phase::Scanning,
        s.incoming is None,
        0 <= k <= s.pending.len(),
        k <= fuel,
        forall|j: int| 0 <= j < k ==> !(#[trigger] s.pending[j]).spec_is_control(),
    ensures
        run(s, down, up, fuel) == run(
            ResolverState { pending: s.pending.skip(k), produced: s.produced + s.pending.take(k), ..s },
            down,
            up,
            (fuel - k) as nat,
        ),
    decreases k,
{
    if k == 0 {
        assert(s.pending.skip(0) =~= s.pending);
        assert(s.produced + s.pending.take(0) =~= s.produced);
    } else {
        let e = s.pending[0];
        let s1 = ResolverState { pending: s.pending.drop_first(), produced: s.produced.push(e), ..s };
        assert(step(s) == (s1, Next::<C>::Continue));
        assert(run(s, down, up, fuel) == run(s1, down, up, (fuel - 1) as nat));
        assert forall|j: int| 0 <= j < k - 1 implies !(#[trigger] s1.pending[j]).spec_is_control() by {
            assert(s1.pending[j] == s.pending[j + 1]);
        }
        lemma_scan(s1, down, up, (fuel - 1) as nat, k - 1);
        assert(s1.pending.skip(k - 1) =~= s.pending.skip(k));
        assert(s1.produced + s1.pending.take(k - 1) =~= s.produced + s.pending.take(k));
    }
}

/// Once a pass holds no control effect, the resolution finishes with the step
/// held and every deliverable effect, in order.
proof fn lemma_finish<C>(
    s: ResolverState<C>,
    down: spec_fn(C) -> Seq<CtxResult<C>>,
    up: spec_fn(C) -> Seq<CtxResult<C>>,
    fuel: nat,
)
    requires
        s.phase == Phase::Scanning,
        s.incoming is None,
        fuel >= s.pending.len(),
        !has_control(s.pending),
        !has_control(s.produced),
    ensures
        ({
            let r = run(s, down, up, fuel);
            &&& step(r.0).1 == Next::Finished(s.context, flatten(s.produced + s.pending))
            &&& r.1 == 0
            &&& r.2 == 0
        }),
{
    let k = s.pending.len() as int;
    assert forall|j: int| 0 <= j < k implies !(#[trigger] s.pending[j]).spec_is_control() by {}
    lemma_scan(s, down, up, fuel, k);
    let t = ResolverState { pending: s.pending.skip(k), produced: s.produced + s.pending.take(k), ..s };
    assert(s.pending.take(k) =~= s.pending);
    assert(t.pending.len() == 0);
    lemma_no_control_concat(s.produced, s.pending);
    assert(run(t, down, up, (fuel - k) as nat) == (t, 0nat, 0nat));
}

/// Teardown before setup: when the next effect hands control from the held
/// step to a new one, the driver is asked to shut the held step down, then to
/// initialise the new one, and what the two calls produce is added in that
/// order, the new step being held afterwards.
pub proof fn lemma_teardown_before_setup<C>(
    s: ResolverState<C>,
    down: Seq<CtxResult<C>>,
    up: Seq<CtxResult<C>>,
)
    requires
        s.phase == Phase::Scanning,
        s.incoming is None,
        s.context is Some,
        s.pending.len() > 0,
        s.pending[0] is NewCtx,
    ensures
        ({
            let new = s.pending[0]->NewCtx_0;
            let first = step(s);
            let second = step(after_shutdown(first.0, down));
            let last = after_init(second.0, new, up);
            &&& first.1 == Next::Shutdown(s.context->0)
            &&& second.1 == Next::Init(new)
            &&& last.produced == s.produced + down + up
            &&& last.context == Some(new)
            &&& last.pending == s.pending.drop_first()
            &&& last.phase == Phase::Scanning
            &&& last.incoming is None
        }),
{
    let new = s.pending[0]->NewCtx_0;
    let first = step(s);
    let second = step(after_shutdown(first.0, down));
    assert(after_init(second.0, new, up).produced =~= s.produced + down + up);
}

/// What a close delivers: resolving effects that hold one `CloseCtx` and
/// otherwise only deliverable effects ends with no step held and delivers
/// every effect, those after the close included, the shutdown's effects at
/// the place of the close.
pub proof fn lemma_close_flushes_later_effects<C>(
    context: Option<C>,
    before: Seq<CtxResult<C>>,
    after: Seq<CtxResult<C>>,
    down: spec_fn(C) -> Seq<CtxResult<C>>,
    up: spec_fn(C) -> Seq<CtxResult<C>>,
) -> (fuel: nat)
    requires
        !has_control(before),
        !has_control(after),
        context is Some ==> !has_control(down(context->0)),
    ensures
        ({
            let r = run(initial(context, before + seq![CtxResult::CloseCtx] + after), down, up, fuel);
            let closing = if context is Some { down(context->0) } else { seq![] };
            &&& step(r.0).1 == Next::<C>::Finished(None, flatten(before + closing + after))
            &&& r.1 == (if context is Some { 1nat } else { 0nat })
            &&& r.2 == 0
        }),
{
    let results = before + seq![CtxResult::CloseCtx] + after;
    let s = initial(context, results);
    let k = before.len() as int;
    assert forall|j: int| 0 <= j < k implies !(#[trigger] s.pending[j]).spec_is_control() by {
        assert(s.pending[j] == before[j]);
    }
    let fuel = (k + 1 + after.len()) as nat;
    lemma_scan(s, down, up, fuel, k);
    let t = ResolverState { pending: s.pending.skip(k), produced: s.produced + s.pending.take(k), ..s };
    assert(t.pending[0] == CtxResult::<C>::CloseCtx);
    assert(t.pending.drop_first() =~= after);
    assert(t.produced =~= before);
    let closing = if context is Some { down(context->0) } else { seq![] };
    let u = ResolverState {
        context: None,
        incoming: None,
        pending: after,
        produced: before + closing,
        phase: Phase::Scanning,
    };
    if context is Some {
        assert(after_shutdown(step(t).0, down(context->0)) == u);
    } else {
        assert(before + closing =~= before);
        assert(step(t).0 == u);
    }
    lemma_no_control_concat(before, closing);
    lemma_finish(u, down, up, after.len());
    assert(before + closing + after =~= u.produced + u.pending);
    fuel
}

/// The state at the start of the `i`-th hand-off of a chain: `chain[i]` is
/// held, and the pass holds the deliverable effects `done` followed by the
/// hand-off to `chain[i + 1]`.
pub open spec fn chain_state<C>(chain: Seq<C>, i: int, done: Seq<CtxResult<C>>) -> ResolverState<C> {
    initial(Some(chain[i]), done.push(CtxResult::NewCtx(chain[i + 1])))
}

proof fn lemma_chain_from<C>(
    chain: Seq<C>,
    down: spec_fn(C) -> Seq<CtxResult<C>>,
    up: spec_fn(C) -> Seq<CtxResult<C>>,
    tail: Seq<CtxResult<C>>,
    i: int,
    done: Seq<CtxResult<C>>,
) -> (fuel: nat)
    requires
        chain.len() >= 2,
        0 <= i < chain.len() - 1,
        forall|j: int| 0 < j < chain.len() - 1 ==> up(#[trigger] chain[j]) == seq![CtxResult::NewCtx(chain[j + 1])],
        up(chain.last()) == tail,
        !has_control(tail),
        forall|j: int| 0 <= j < chain.len() - 1 ==> !has_control(down(#[trigger] chain[j])),
        !has_control(done),
    ensures
        ({
            let n = chain.len() - 1;
            let r = run(chain_state(chain, i, done), down, up, fuel);
            &&& step(r.0).1 == Next::Finished(
                Some(chain.last()),
                flatten(done + chain_shutdowns(chain, down, i) + tail),
            )
            &&& r.1 == n - i
            &&& r.2 == n - i
        }),
    decreases chain.len() - i,
{
    let n = chain.len() - 1;
    let s = chain_state(chain, i, done);
    let k = done.len() as int;
    assert forall|j: int| 0 <= j < k implies !(#[trigger] s.pending[j]).spec_is_control() by {
        assert(s.pending[j] == done[j]);
    }
    let c = chain[i];
    let new = chain[i + 1];
    let a = ResolverState { pending: s.pending.skip(k), produced: s.produced + s.pending.take(k), ..s };
    assert(a.pending =~= seq![CtxResult::NewCtx(new)]);
    assert(a.produced =~= done);
    let b = step(a).0;
    assert(step(a).1 == Next::Shutdown(c));
    let bc = after_shutdown(b, down(c));
    assert(step(bc).1 == Next::Init(new));
    let e = after_init(step(bc).0, new, up(new));
    assert(e.pending =~= Seq::<CtxResult<C>>::empty());
    assert(e.produced == done + down(c) + up(new));
    assert(chain_shutdowns(chain, down, i) == down(c) + chain_shutdowns(chain, down, i + 1));
    if i + 1 < n {
        let rest = lemma_chain_from(chain, down, up, tail, i + 1, done + down(c));
        assert(up(new) == seq![CtxResult::NewCtx(chain[i + 2])]);
        assert(e.produced[e.produced.len() - 1].spec_is_control());
        assert(has_control(e.produced));
        lemma_no_control_concat(done, down(c));
        assert((done + down(c)).push(CtxResult::NewCtx(chain[i + 2])) =~= e.produced);
        assert(step(e).0.produced =~= Seq::<CtxResult<C>>::empty());
        assert(step(e).0 == chain_state(chain, i + 1, done + down(c)));
        let fuel = (k + 3 + rest) as nat;
        lemma_scan(s, down, up, fuel, k);
        let g = chain_state(chain, i + 1, done + down(c));
        assert(run(e, down, up, (rest + 1) as nat) == run(g, down, up, rest));
        let re = run(e, down, up, (rest + 1) as nat);
        assert(run(bc, down, up, (rest + 2) as nat) == (re.0, re.1, re.2 + 1));
        assert(run(a, down, up, (rest + 3) as nat) == (re.0, re.1 + 1, re.2 + 1));
        assert(done + down(c) + chain_shutdowns(chain, down, i + 1) + tail
            =~= done + chain_shutdowns(chain, down, i) + tail);
        fuel
    } else {
        assert(chain_shutdowns(chain, down, i + 1) =~= Seq::<CtxResult<C>>::empty());
        lemma_no_control_concat(done, down(c));
        lemma_no_control_concat(done + down(c), tail);
        assert(e.produced + e.pending =~= e.produced);
        assert(step(e).1 == Next::Finished(Some(new), flatten(e.produced)));
        let fuel = (k + 3) as nat;
        lemma_scan(s, down, up, fuel, k);
        assert(run(e, down, up, 1) == (e, 0nat, 0nat));
        assert(run(bc, down, up, 2) == (e, 0nat, 1nat));
        assert(run(a, down, up, 3) == (e, 1nat, 1nat));
        assert(done + down(c) + tail =~= done + chain_shutdowns(chain, down, i) + tail);
        fuel
    }
}

/// A finite chain of hand-offs terminates: `chain[0]` is held and hands
/// control to `chain[1]`; each later step but the last answers `init` by
/// handing control to the next, the last one with deliverable effects only;
/// shutdowns produce no control effect. For `n + 1` steps the resolution makes
/// exactly `n` shutdown and `n` init calls and ends with the last step held,
/// delivering the shutdowns' effects in order and then the last step's.
pub proof fn lemma_handoff_chain<C>(
    chain: Seq<C>,
    down: spec_fn(C) -> Seq<CtxResult<C>>,
    up: spec_fn(C) -> Seq<CtxResult<C>>,
    tail: Seq<CtxResult<C>>,
) -> (fuel: nat)
    requires
        chain.len() >= 2,
        forall|j: int| 0 < j < chain.len() - 1 ==> up(#[trigger] chain[j]) == seq![CtxResult::NewCtx(chain[j + 1])],
        up(chain.last()) == tail,
        !has_control(tail),
        forall|j: int| 0 <= j < chain.len() - 1 ==> !has_control(down(#[trigger] chain[j])),
    ensures
        ({
            let n = chain.len() - 1;
            let r = run(initial(Some(chain[0]), seq![CtxResult::NewCtx(chain[1])]), down, up, fuel);
            &&& step(r.0).1 == Next::Finished(Some(chain.last()), flatten(chain_shutdowns(chain, down, 0) + tail))
            &&& r.1 == n
            &&& r.2 == n
        }),
{
    let none = Seq::<CtxResult<C>>::empty();
    let fuel = lemma_chain_from(chain, down, up, tail, 0, none);
    assert(none.push(CtxResult::NewCtx(chain[1])) =~= seq![CtxResult::NewCtx(chain[1])]);
    assert(none + chain_shutdowns(chain, down, 0) + tail =~= chain_shutdowns(chain, down, 0) + tail);
    fuel
}

/// Whether no effect of `s` hands control to another step.
pub open spec fn no_handoff<C>(s: Seq<CtxResult<C>>) -> bool {
    forall|i: int| 0 <= i < s.len() ==> !((#[trigger] s[i]) is NewCtx)
}

/// The effects of `s` that are no control effect, in order.
pub open spec fn without_control<C>(s: Seq<CtxResult<C>>) -> Seq<CtxResult<C>>
    decreases s.len(),
{
    if s.len() == 0 {
        seq![]
    } else if s[0].spec_is_control() {
        without_control(s.drop_first())
    } else {
        seq![s[0]] + without_control(s.drop_first())
    }
}

proof fn lemma_without_control<C>(s: Seq<CtxResult<C>>)
    ensures
        !has_control(without_control(s)),
        no_handoff(without_control(s)),
    decreases s.len(),
{
    if s.len() > 0 {
        lemma_without_control(s.drop_first());
        let rest = without_control(s.drop_first());
        if !s[0].spec_is_control() {
            assert forall|i: int| 0 <= i < (seq![s[0]] + rest).len() implies !(#[trigger] (seq![s[0]] + rest)[i]).spec_is_control() by {
                if i > 0 {
                    assert((seq![s[0]] + rest)[i] == rest[i - 1]);
                }
            }
        }
    }
}

proof fn lemma_no_handoff_concat<C>(a: Seq<CtxResult<C>>, b: Seq<CtxResult<C>>)
    requires
        no_handoff(a),
        no_handoff(b),
    ensures
        no_handoff(a + b),
{
    assert forall|i: int| 0 <= i < (a + b).len() implies !((#[trigger] (a + b)[i]) is NewCtx) by {
        if i < a.len() {
            assert((a + b)[i] == a[i]);
        } else {
            assert((a + b)[i] == b[i - a.len()]);
        }
    }
}

/// With no step held, a pass over effects that hand off to no step drops
/// the closes and keeps the rest, one request each and no call.
proof fn lemma_scan_closed<C>(
    s: ResolverState<C>,
    down: spec_fn(C) -> Seq<CtxResult<C>>,
    up: spec_fn(C) -> Seq<CtxResult<C>>,
    fuel: nat,
    k: int,
)
    requires
        s.phase == Phase::Scanning,
        s.incoming is None,
        s.context is None,
        0 <= k <= s.pending.len(),
        k <= fuel,
        forall|j: int| 0 <= j < k ==> !((#[trigger] s.pending[j]) is NewCtx),
    ensures
        run(s, down, up, fuel) == run(
            ResolverState { pending: s.pending.skip(k), produced: s.produced + without_control(s.pending.take(k)), ..s },
            down,
            up,
            (fuel - k) as nat,
        ),
    decreases k,
{
    if k == 0 {
        assert(s.pending.skip(0) =~= s.pending);
        assert(s.pending.take(0) =~= Seq::<CtxResult<C>>::empty());
        assert(s.produced + without_control(s.pending.take(0)) =~= s.produced);
    } else {
        let e = s.pending[0];
        let rest = s.pending.drop_first();
        let s1 = if e.spec_is_control() {
            ResolverState { pending: rest, ..s }
        } else {
            ResolverState { pending: rest, produced: s.produced.push(e), ..s }
        };
        assert(step(s) == (s1, Next::<C>::Continue));
        assert(run(s, down, up, fuel) == run(s1, down, up, (fuel - 1) as nat));
        assert forall|j: int| 0 <= j < k - 1 implies !((#[trigger] s1.pending[j]) is NewCtx) by {
            assert(s1.pending[j] == s.pending[j + 1]);
        }
        lemma_scan_closed(s1, down, up, (fuel - 1) as nat, k - 1);
        assert(s1.pending.skip(k - 1) =~= s.pending.skip(k));
        let t = s.pending.take(k);
        assert(t[0] == e);
        assert(t.drop_first() =~= rest.take(k - 1));
        if e.spec_is_control() {
            assert(without_control(t) == without_control(rest.take(k - 1)));
        } else {
            assert(without_control(t) == seq![e] + without_control(rest.take(k - 1)));
            assert(s.produced.push(e) + without_control(rest.take(k - 1)) =~= s.produced + without_control(t));
        }
    }
}

/// With no step held and nothing left that hands off, the resolution ends,
/// with no step held.
proof fn lemma_drain<C>(
    u: ResolverState<C>,
    down: spec_fn(C) -> Seq<CtxResult<C>>,
    up: spec_fn(C) -> Seq<CtxResult<C>>,
) -> (fuel: nat)
    requires
        u.phase == Phase::Scanning,
        u.incoming is None,
        u.context is None,
        no_handoff(u.pending),
        no_handoff(u.produced),
    ensures
        run(u, down, up, fuel).0.context is None,
        step(run(u, down, up, fuel).0).1 is Finished,
{
    let k = u.pending.len() as int;
    let produced = u.produced + without_control(u.pending.take(k));
    let v = ResolverState { pending: u.pending.skip(k), produced, ..u };
    assert(v.pending.len() == 0);
    lemma_without_control(u.pending.take(k));
    lemma_no_handoff_concat(u.produced, without_control(u.pending.take(k)));
    if !has_control(produced) {
        lemma_scan_closed(u, down, up, k as nat, k);
        assert(run(v, down, up, 0) == (v, 0nat, 0nat));
        k as nat
    } else {
        let m = produced.len() as int;
        let fuel = (k + 1 + m) as nat;
        lemma_scan_closed(u, down, up, fuel, k);
        let w = ResolverState { pending: produced, produced: seq![], ..v };
        assert(step(v) == (w, Next::<C>::Continue));
        assert(run(v, down, up, (fuel - k) as nat) == run(w, down, up, (fuel - k - 1) as nat));
        lemma_scan_closed(w, down, up, m as nat, m);
        let x = ResolverState { pending: w.pending.skip(m), produced: w.produced + without_control(w.pending.take(m)), ..w };
        lemma_without_control(w.pending.take(m));
        assert(x.produced =~= without_control(w.pending.take(m)));
        assert(x.pending.len() == 0);
        assert(run(x, down, up, 0) == (x, 0nat, 0nat));
        fuel
    }
}

/// Resolving the first `k` effects of a pass, whatever they are, when no
/// call answers with a hand-off: the state reached, and the requests it
/// takes.
proof fn lemma_consume<C>(
    s: ResolverState<C>,
    down: spec_fn(C) -> Seq<CtxResult<C>>,
    up: spec_fn(C) -> Seq<CtxResult<C>>,
    k: int,
) -> (r: (nat, ResolverState<C>))
    requires
        s.phase == Phase::Scanning,
        s.incoming is None,
        0 <= k <= s.pending.len(),
        no_handoff(s.produced),
        forall|c: C| #[trigger] no_handoff(down(c)),
        forall|c: C| #[trigger] no_handoff(up(c)),
    ensures
        r.1.phase == Phase::Scanning,
        r.1.incoming is None,
        r.1.pending == s.pending.skip(k),
        no_handoff(r.1.produced),
        forall|f: nat| f >= r.0 ==> (#[trigger] run(s, down, up, f)).0 == run(r.1, down, up, (f - r.0) as nat).0,
    decreases k,
{
    if k == 0 {
        assert(s.pending.skip(0) =~= s.pending);
        (0nat, s)
    } else {
        let e = s.pending[0];
        let rest = s.pending.drop_first();
        let (s1, calls) = match e {
            CtxResult::NewCtx(new) => if s.context is Some {
                let sa = after_shutdown(step(s).0, down(s.context->0));
                assert(no_handoff(down(s.context->0)));
                lemma_no_handoff_concat(s.produced, down(s.context->0));
                assert(step(sa).1 == Next::Init(new));
                assert(no_handoff(up(new)));
                lemma_no_handoff_concat(sa.produced, up(new));
                (after_init(step(sa).0, new, up(new)), 2nat)
            } else {
                assert(no_handoff(up(new)));
                lemma_no_handoff_concat(s.produced, up(new));
                (after_init(step(s).0, new, up(new)), 1nat)
            },
            CtxResult::CloseCtx => if s.context is Some {
                assert(no_handoff(down(s.context->0)));
                lemma_no_handoff_concat(s.produced, down(s.context->0));
                (after_shutdown(step(s).0, down(s.context->0)), 1nat)
            } else {
                (step(s).0, 1nat)
            },
            _ => {
                assert(s.produced.push(e) =~= s.produced + seq![e]);
                lemma_no_handoff_concat(s.produced, seq![e]);
                (step(s).0, 1nat)
            },
        };
        assert(s1.pending =~= rest);
        assert forall|f: nat| f >= calls implies (#[trigger] run(s, down, up, f)).0 == run(s1, down, up, (f - calls) as nat).0 by {
            if e is NewCtx && s.context is Some {
                let sa = after_shutdown(step(s).0, down(s.context->0));
                assert(run(s, down, up, f).0 == run(sa, down, up, (f - 1) as nat).0);
                assert(run(sa, down, up, (f - 1) as nat).0 == run(s1, down, up, (f - 2) as nat).0);
            }
        }
        let inner = lemma_consume(s1, down, up, k - 1);
        assert(s1.pending.skip(k - 1) =~= s.pending.skip(k));
        let fuel = calls + inner.0;
        assert forall|f: nat| f >= fuel implies (#[trigger] run(s, down, up, f)).0 == run(inner.1, down, up, (f - fuel) as nat).0 by {
            assert(run(s, down, up, f).0 == run(s1, down, up, (f - calls) as nat).0);
            assert(run(s1, down, up, (f - calls) as nat).0 == run(inner.1, down, up, ((f - calls) - inner.0) as nat).0);
        }
        (fuel, inner.1)
    }
}

/// Closing empties the session: when the calls never hand off and nothing
/// after the `CtxResult::CloseCtx` hands off, the resolution ends with no
/// step held, whatever comes before the close.
pub proof fn lemma_close_empties_session<C>(
    context: Option<C>,
    before: Seq<CtxResult<C>>,
    after: Seq<CtxResult<C>>,
    down: spec_fn(C) -> Seq<CtxResult<C>>,
    up: spec_fn(C) -> Seq<CtxResult<C>>,
) -> (fuel: nat)
    requires
        no_handoff(after),
        forall|c: C| #[trigger] no_handoff(down(c)),
        forall|c: C| #[trigger] no_handoff(up(c)),
    ensures
        ({
            let r = run(initial(context, before + seq![CtxResult::CloseCtx] + after), down, up, fuel).0;
            &&& r.context is None
            &&& step(r).1 is Finished
        }),
{
    let s = initial(context, before + seq![CtxResult::CloseCtx] + after);
    let k = before.len() as int;
    let (f1, t) = lemma_consume(s, down, up, k);
    assert(t.pending =~= seq![CtxResult::CloseCtx] + after);
    assert(t.pending[0] == CtxResult::<C>::CloseCtx);
    assert(t.pending.drop_first() =~= after);
    let u = if t.context is Some {
        assert(no_handoff(down(t.context->0)));
        lemma_no_handoff_concat(t.produced, down(t.context->0));
        after_shutdown(step(t).0, down(t.context->0))
    } else {
        step(t).0
    };
    let f2 = lemma_drain(u, down, up);
    let fuel = f1 + 1 + f2;
    assert(run(s, down, up, fuel).0 == run(t, down, up, (fuel - f1) as nat).0);
    assert(run(t, down, up, (1 + f2) as nat).0 == run(u, down, up, f2).0);
    fuel
}

} // verus!
