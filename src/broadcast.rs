//! The state of the broadcast server: the last payload sent to clients, used
//! to drop unchanged payloads and to catch late joiners up, and the set of
//! connected sessions that a change wakes.

use vstd::prelude::*;
use crate::snapshot::I3Block;
use crate::json::{push_snapshot, snapshot_text};

verus! {

/// One step of the cache: the payload it holds after a tick, and whether the
/// tick changed it (and so must wake the sessions).
pub open spec fn publish_step(cached: Seq<char>, payload: Seq<char>) -> (Seq<char>, bool) {
    (payload, payload != cached)
}

/// The cache after a run of ticks.
pub open spec fn cache_after(cached: Seq<char>, payloads: Seq<Seq<char>>) -> Seq<char>
    decreases payloads.len(),
{
    if payloads.len() == 0 {
        cached
    } else {
        publish_step(cache_after(cached, payloads.drop_last()), payloads.last()).0
    }
}

/// The last payload broadcast to the sessions.
pub struct ContentCache {
    payload: String,
}

impl View for ContentCache {
    type V = Seq<char>;

    closed spec fn view(&self) -> Seq<char> {
        self.payload@
    }
}

impl ContentCache {
    /// An empty cache: nothing has been broadcast yet.
    pub fn new() -> (r: ContentCache)
        ensures
            r@ == Seq::<char>::empty(),
    {
        ContentCache { payload: String::new() }
    }

    /// The payload a session writes when it connects and on each wake.
    pub fn current(&self) -> (r: String)
        ensures
            r@ == self@,
    {
        self.payload.clone()
    }

    /// Offers the payload of a tick. An equal payload leaves everything as it
    /// is and returns `false`: nobody is woken. Another one replaces the cache
    /// and returns `true`: every session is to be woken.
    pub fn publish(&mut self, payload: String) -> (changed: bool)
        ensures
            (final(self)@, changed) == publish_step(old(self)@, payload@),
    {
        if payload == self.payload {
            false
        } else {
            self.payload = payload;
            true
        }
    }
}

/// The payload of the single-producer server: the snapshot's JSON line, or,
/// when the producer rendered nothing, an empty entry.
pub open spec fn payload_text(output: Option<I3Block>) -> Seq<char> {
    match output {
        Some(b) => snapshot_text(b) + "\n"@,
        None => "{\"full_text\":\"\", \"name\":\"\"}\n"@,
    }
}

/// The payload line of a rendered output.
pub fn server_payload(output: &Option<I3Block>) -> (r: String)
    ensures
        r@ == payload_text(*output),
{
    let mut s = String::new();
    match output {
        Some(b) => {
            push_snapshot(&mut s, b);
            s.append("\n");
            assert(s@ =~= payload_text(*output));
        },
        None => {
            s.append("{\"full_text\":\"\", \"name\":\"\"}\n");
            assert(s@ =~= payload_text(*output));
        },
    }
    s
}

/// One tick of the server: the output's payload is offered to the cache;
/// `true` when it changed and the sessions are to be woken.
pub fn server_tick(cache: &mut ContentCache, output: &Option<I3Block>) -> (changed: bool)
    ensures
        (final(cache)@, changed) == publish_step(old(cache)@, payload_text(*output)),
{
    cache.publish(server_payload(output))
}

/// When a producer's output is the same on two ticks, the second tick leaves
/// the cache as it is and reports no change, so no session is woken and no
/// client is written to.
pub proof fn lemma_repeat_output_is_silent(cached: Seq<char>, first: Option<I3Block>, second: Option<I3Block>)
    requires
        first == second,
    ensures
        ({
            let (after_first, _) = publish_step(cached, payload_text(first));
            publish_step(after_first, payload_text(second)) == (after_first, false)
        }),
{
}

/// Whatever came before, after a run of ticks the cache holds the payload of
/// the last one, and so that is what a client that connects then is sent
/// first.
pub proof fn lemma_late_join_sees_last(cached: Seq<char>, payloads: Seq<Seq<char>>)
    requires
        payloads.len() > 0,
    ensures
        cache_after(cached, payloads) == payloads.last(),
{
}

/// The sessions that survive a fan-out: those at the indices that `alive`
/// marks, and all past the end of `alive` (they joined after the fan-out).
pub open spec fn survivors<S>(sessions: Seq<S>, alive: Seq<bool>) -> Seq<S>
    decreases sessions.len(),
{
    if sessions.len() == 0 {
        Seq::empty()
    } else {
        let rest = survivors(sessions.drop_last(), alive);
        let i = sessions.len() - 1;
        if i >= alive.len() || alive[i] {
            rest.push(sessions.last())
        } else {
            rest
        }
    }
}

/// The connected sessions, each with the handle that wakes it, in the order
/// in which they connected.
pub struct SessionSet<S> {
    sessions: Vec<S>,
}

impl<S> View for SessionSet<S> {
    type V = Seq<S>;

    closed spec fn view(&self) -> Seq<S> {
        self.sessions@
    }
}

impl<S> SessionSet<S> {
    /// No session.
    pub fn new() -> (r: SessionSet<S>)
        ensures
            r@ == Seq::<S>::empty(),
    {
        SessionSet { sessions: Vec::new() }
    }

    /// The number of sessions.
    pub fn len(&self) -> (r: usize)
        ensures
            r == self@.len(),
    {
        self.sessions.len()
    }

    /// The wake handle of the session at `i`.
    pub fn get(&self, i: usize) -> (r: &S)
        requires
            i < self@.len(),
        ensures
            *r == self@[i as int],
    {
        &self.sessions[i]
    }

    /// Registers a new session after the others.
    pub fn insert(&mut self, session: S)
        ensures
            final(self)@ == old(self)@.push(session),
    {
        self.sessions.push(session);
    }

    /// Drops the sessions that a fan-out found gone: `alive[i]` tells whether
    /// waking session `i` succeeded. Sessions past the end of `alive` joined
    /// after the fan-out and stay. Returns how many were dropped.
    pub fn retain_live(&mut self, alive: &Vec<bool>) -> (dropped: usize)
        requires
            alive@.len() <= old(self)@.len(),
        ensures
            final(self)@ == survivors(old(self)@, alive@),
            dropped == old(self)@.len() - final(self)@.len(),
    {
        let ghost all = self.sessions@;
        let mut rest: Vec<S> = Vec::new();
        std::mem::swap(&mut rest, &mut self.sessions);
        let total = rest.len();
        let mut k: usize = 0;
        while k < total
            invariant
                k <= total,
                total == all.len(),
                rest@ == all.subrange(k as int, total as int),
                self.sessions@ == survivors(all.subrange(0, k as int), alive@),
                self.sessions@.len() <= k,
            decreases total - k,
        {
            let s = rest.remove(0);
            let ghost p = all.subrange(0, k + 1);
            proof {
                assert(p.drop_last() =~= all.subrange(0, k as int));
                assert(p.last() == s);
            }
            if k >= alive.len() || alive[k] {
                self.sessions.push(s);
            }
            proof {
                assert(rest@ =~= all.subrange(k + 1, total as int));
            }
            k = k + 1;
        }
        assert(all.subrange(0, total as int) =~= all);
        total - self.sessions.len()
    }
}

/// When one client is gone, the fan-out drops it alone: every other session
/// stays, in order, and is woken again on the next change.
pub proof fn lemma_disconnect_keeps_others<S>(sessions: Seq<S>, alive: Seq<bool>, gone: int)
    requires
        alive.len() == sessions.len(),
        0 <= gone < sessions.len(),
        !alive[gone],
        forall|i: int| 0 <= i < alive.len() && i != gone ==> alive[i],
    ensures
        survivors(sessions, alive) == sessions.remove(gone),
{
    lemma_survivors_all_alive(sessions, alive, gone);
}

proof fn lemma_survivors_all_alive<S>(sessions: Seq<S>, alive: Seq<bool>, gone: int)
    requires
        alive.len() >= sessions.len(),
        forall|i: int| 0 <= i < sessions.len() && i != gone ==> alive[i],
        0 <= gone < sessions.len() ==> !alive[gone],
    ensures
        0 <= gone < sessions.len() ==> survivors(sessions, alive) == sessions.remove(gone),
        !(0 <= gone < sessions.len()) ==> survivors(sessions, alive) == sessions,
    decreases sessions.len(),
{
    if sessions.len() > 0 {
        let prev = sessions.drop_last();
        lemma_survivors_all_alive(prev, alive, gone);
        if gone == sessions.len() - 1 {
            assert(prev =~= sessions.remove(gone));
        } else if 0 <= gone < sessions.len() {
            assert(prev.remove(gone).push(sessions.last()) =~= sessions.remove(gone));
        } else {
            assert(prev.push(sessions.last()) =~= sessions);
        }
    }
}

} // verus!
