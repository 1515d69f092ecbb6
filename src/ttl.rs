//! The sweep that evicts idle sessions.
//!
//! Each cycle looks at the time of every session's last interaction: the
//! sessions idle for at least the maximal time to live are evicted, and the
//! sweeper sleeps until the next of the others expires (the whole time to
//! live when none is left).
use vstd::prelude::*;

use crate::dialogues::{MessageFormat, OutgoingMessage};

verus! {

/// The seconds from `last` to `now`; none when `last` lies ahead of `now`.
pub open spec fn elapsed(now: u64, last: u64) -> nat {
    if last <= now {
        (now - last) as nat
    } else {
        0
    }
}

/// Whether a session last used at `last` has expired at `now`.
pub open spec fn expired(now: u64, last: u64, max_ttl: u64) -> bool {
    elapsed(now, last) >= max_ttl
}

/// The users of the expired sessions among `sessions`, each given as a user
/// and the time of their last interaction, in order.
pub open spec fn evictions(sessions: Seq<(u64, u64)>, now: u64, max_ttl: u64) -> Seq<u64>
    decreases sessions.len(),
{
    if sessions.len() == 0 {
        seq![]
    } else {
        let rest = evictions(sessions.drop_last(), now, max_ttl);
        let (user, last) = sessions.last();
        if expired(now, last, max_ttl) {
            rest.push(user)
        } else {
            rest
        }
    }
}

/// The seconds until the first of the sessions that have not expired
/// expires; `max_ttl` when all have.
pub open spec fn next_sleep(sessions: Seq<(u64, u64)>, now: u64, max_ttl: u64) -> nat
    decreases sessions.len(),
{
    if sessions.len() == 0 {
        max_ttl as nat
    } else {
        let rest = next_sleep(sessions.drop_last(), now, max_ttl);
        let last = sessions.last().1;
        if expired(now, last, max_ttl) {
            rest
        } else {
            let remaining = (max_ttl - elapsed(now, last)) as nat;
            if remaining < rest {
                remaining
            } else {
                rest
            }
        }
    }
}

/// What one cycle of the sweep does.
pub struct SweepPlan {
    /// The users whose sessions are evicted.
    pub evict: Vec<u64>,
    /// How long to sleep before the next cycle, in seconds.
    pub sleep_secs: u64,
}

/// The notice that tells an evicted user why their session ended: sent only
/// once the session's shutdown effects were delivered, and only when the bot
/// has such a notice.
pub fn inactivity_notice(delivered: bool, close_msg: &Option<String>) -> (r: Option<OutgoingMessage>)
    ensures
        r is Some <==> delivered && close_msg is Some,
        r is Some ==> r->0@ == (close_msg->0@, MessageFormat::Text),
{
    match close_msg {
        Some(text) => if delivered {
            Some(OutgoingMessage::plain(text.clone()))
        } else {
            None
        },
        None => None,
    }
}

/// Plans a cycle at `now` over `sessions`, each given as a user and the time
/// of their last interaction.
pub fn plan_sweep(sessions: &Vec<(u64, u64)>, now: u64, max_ttl: u64) -> (r: SweepPlan)
    ensures
        r.evict@ == evictions(sessions@, now, max_ttl),
        r.sleep_secs == next_sleep(sessions@, now, max_ttl),
{
    let mut evict: Vec<u64> = Vec::new();
    let mut sleep_secs: u64 = max_ttl;
    let mut i: usize = 0;
    while i < sessions.len()
        invariant
            i <= sessions@.len(),
            evict@ == evictions(sessions@.take(i as int), now, max_ttl),
            sleep_secs == next_sleep(sessions@.take(i as int), now, max_ttl),
            sleep_secs <= max_ttl,
        decreases sessions@.len() - i,
    {
        let (user, last) = sessions[i];
        assert(sessions@.take(i as int + 1).drop_last() =~= sessions@.take(i as int));
        assert(sessions@.take(i as int + 1).last() == (user, last));
        let elapsed: u64 = if last <= now {
            now - last
        } else {
            0
        };
        if elapsed >= max_ttl {
            evict.push(user);
        } else {
            let remaining = max_ttl - elapsed;
            if remaining < sleep_secs {
                sleep_secs = remaining;
            }
        }
        i = i + 1;
    }
    assert(sessions@.take(sessions@.len() as int) =~= sessions@);
    SweepPlan { evict, sleep_secs }
}

/// The sweep is precise: exactly the expired sessions are evicted, and the
/// sleep ends when the first of the others expires, never later.
pub proof fn lemma_sweep_precision(sessions: Seq<(u64, u64)>, now: u64, max_ttl: u64)
    ensures
        forall|u: u64|
            evictions(sessions, now, max_ttl).contains(u) <==> exists|i: int|
                0 <= i < sessions.len() && sessions[i].0 == u && expired(now, #[trigger] sessions[i].1, max_ttl),
        forall|i: int|
            0 <= i < sessions.len() && !expired(now, #[trigger] sessions[i].1, max_ttl)
                ==> next_sleep(sessions, now, max_ttl) <= max_ttl - elapsed(now, sessions[i].1),
        next_sleep(sessions, now, max_ttl) == max_ttl || exists|i: int|
            0 <= i < sessions.len() && !expired(now, #[trigger] sessions[i].1, max_ttl)
                && next_sleep(sessions, now, max_ttl) == max_ttl - elapsed(now, sessions[i].1),
    decreases sessions.len(),
{
    if sessions.len() > 0 {
        let rest = sessions.drop_last();
        lemma_sweep_precision(rest, now, max_ttl);
        let n = sessions.len() - 1;
        assert forall|i: int| 0 <= i < n implies sessions[i] == #[trigger] rest[i] by {}
        assert forall|u: u64|
            evictions(sessions, now, max_ttl).contains(u) <==> exists|i: int|
                0 <= i < sessions.len() && sessions[i].0 == u && expired(now, #[trigger] sessions[i].1, max_ttl) by {
            let ev = evictions(sessions, now, max_ttl);
            let er = evictions(rest, now, max_ttl);
            if expired(now, sessions[n].1, max_ttl) {
                assert(ev == er.push(sessions[n].0));
            } else {
                assert(ev == er);
            }
            if ev.contains(u) {
                let k = choose|k: int| 0 <= k < ev.len() && ev[k] == u;
                if k < er.len() {
                    assert(er[k] == u);
                    assert(er.contains(u));
                    let i = choose|i: int| 0 <= i < rest.len() && rest[i].0 == u && expired(now, #[trigger] rest[i].1, max_ttl);
                    assert(sessions[i] == rest[i]);
                } else {
                    assert(sessions[n].0 == u && expired(now, sessions[n].1, max_ttl));
                }
            }
            if exists|i: int| 0 <= i < sessions.len() && sessions[i].0 == u && expired(now, #[trigger] sessions[i].1, max_ttl) {
                let i = choose|i: int| 0 <= i < sessions.len() && sessions[i].0 == u && expired(now, #[trigger] sessions[i].1, max_ttl);
                if i < n {
                    assert(rest[i] == sessions[i]);
                    assert(er.contains(u));
                    let k = choose|k: int| 0 <= k < er.len() && er[k] == u;
                    assert(ev[k] == u);
                } else {
                    assert(ev[er.len() as int] == u);
                }
            }
        }
        if next_sleep(rest, now, max_ttl) != max_ttl {
            let j = choose|i: int| 0 <= i < rest.len() && !expired(now, #[trigger] rest[i].1, max_ttl)
                && next_sleep(rest, now, max_ttl) == max_ttl - elapsed(now, rest[i].1);
            assert(sessions[j] == rest[j]);
        }
        assert forall|i: int|
            0 <= i < sessions.len() && !expired(now, #[trigger] sessions[i].1, max_ttl)
            implies next_sleep(sessions, now, max_ttl) <= max_ttl - elapsed(now, sessions[i].1) by {
            if i < n {
                assert(rest[i] == sessions[i]);
            }
        }
    }
}

} // verus!
