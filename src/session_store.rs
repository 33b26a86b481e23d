//! The in-memory store of chat sessions, keyed by a 128-bit identifier, with
//! eviction of sessions that have been idle for too long.

use vstd::prelude::*;

use crate::bot_logic::{keep_last, ChatSession, Message, Role};

verus! {

/// Messages retained per session are twice this many.
pub const DEFAULT_MAX_HISTORY: usize = 10;

/// A session idle for longer than this (in milliseconds) is evicted.
pub const SESSION_TTL_MILLIS: i64 = 1_800_000;

/// Seconds between two eviction passes.
pub const EVICTION_INTERVAL_SECS: u64 = 600;

/// No two sessions share an identifier.
pub open spec fn ids_unique(s: Seq<ChatSession>) -> bool {
    forall|i: int, j: int| 0 <= i < s.len() && 0 <= j < s.len() && s[i].id == s[j].id ==> i == j
}

/// Whether a session with identifier `id` is in `s`.
pub open spec fn has_id(s: Seq<ChatSession>, id: u128) -> bool {
    exists|i: int| 0 <= i < s.len() && s[i].id == id
}

/// The sessions of `s` last active after `cutoff`, in their order.
pub open spec fn active_after(s: Seq<ChatSession>, cutoff: int) -> Seq<ChatSession>
    decreases s.len(),
{
    if s.len() == 0 {
        s
    } else {
        let rest = active_after(s.drop_last(), cutoff);
        if s.last().last_active > cutoff {
            rest.push(s.last())
        } else {
            rest
        }
    }
}

/// The moment before which a session counts as idle.
pub open spec fn idle_cutoff(now: i64, ttl_millis: i64) -> int {
    now - ttl_millis
}

/// A session survives an eviction pass exactly when it was active after the cutoff.
pub proof fn lemma_active_after(s: Seq<ChatSession>, cutoff: int)
    ensures
        forall|x: ChatSession|
            active_after(s, cutoff).contains(x) <==> (s.contains(x) && x.last_active > cutoff),
        ids_unique(s) ==> ids_unique(active_after(s, cutoff)),
    decreases s.len(),
{
    if s.len() > 0 {
        let p = s.drop_last();
        lemma_active_after(p, cutoff);
        assert forall|x: ChatSession| s.contains(x) <==> (p.contains(x) || x == s.last()) by {
            if s.contains(x) {
                let k = choose|k: int| 0 <= k < s.len() && s[k] == x;
                if k < s.len() - 1 {
                    assert(p[k] == x);
                }
            }
            if p.contains(x) {
                let k = choose|k: int| 0 <= k < p.len() && p[k] == x;
                assert(s[k] == x);
            }
        };
        let r = active_after(p, cutoff);
        assert forall|x: ChatSession|
            active_after(s, cutoff).contains(x) <==> (s.contains(x) && x.last_active > cutoff) by {
            if s.last().last_active > cutoff {
                let rr = r.push(s.last());
                if rr.contains(x) {
                    let k = choose|k: int| 0 <= k < rr.len() && rr[k] == x;
                    if k < r.len() {
                        assert(r[k] == x);
                        assert(r.contains(x));
                    }
                }
                if r.contains(x) {
                    let k = choose|k: int| 0 <= k < r.len() && r[k] == x;
                    assert(rr[k] == x);
                }
                if x == s.last() {
                    assert(rr[r.len() as int] == x);
                }
            }
        };
        if ids_unique(s) {
            assert(ids_unique(p));
            if s.last().last_active > cutoff {
                let rr = r.push(s.last());
                assert forall|i: int, j: int|
                    0 <= i < rr.len() && 0 <= j < rr.len() && rr[i].id == rr[j].id implies i
                    == j by {
                    if i < r.len() && j == r.len() {
                        assert(r.contains(r[i]));
                        assert(p.contains(r[i]));
                        let k = choose|k: int| 0 <= k < p.len() && p[k] == r[i];
                        assert(s[k].id == s[s.len() - 1].id);
                    } else if j < r.len() && i == r.len() {
                        assert(r.contains(r[j]));
                        assert(p.contains(r[j]));
                        let k = choose|k: int| 0 <= k < p.len() && p[k] == r[j];
                        assert(s[k].id == s[s.len() - 1].id);
                    }
                };
            }
        }
    }
}

/// An idle session is gone after an eviction pass; a session active within
/// the time-to-live survives it.
pub proof fn lemma_idle_eviction(s: Seq<ChatSession>, now: i64, ttl_millis: i64, x: ChatSession)
    requires
        s.contains(x),
    ensures
        now - x.last_active > ttl_millis ==> !active_after(s, idle_cutoff(now, ttl_millis)).contains(x),
        now - x.last_active < ttl_millis ==> active_after(s, idle_cutoff(now, ttl_millis)).contains(x),
{
    lemma_active_after(s, idle_cutoff(now, ttl_millis));
}

/// `after` is `before` with one more session at the end: the empty session
/// `id` with the default history window, created at `now`.
pub open spec fn adds_empty_session(
    before: Seq<ChatSession>,
    after: Seq<ChatSession>,
    id: u128,
    now: i64,
) -> bool {
    let n = before.len() as int;
    &&& after.len() == n + 1
    &&& after.subrange(0, n) == before
    &&& after[n].id == id
    &&& after[n].messages@.len() == 0
    &&& after[n].max_history == DEFAULT_MAX_HISTORY
    &&& after[n].created_at == now
    &&& after[n].last_active == now
}

/// `after` is `before` where the session `id`, if held, had a user message
/// and a reply appended at `now`; all other sessions are unchanged.
pub open spec fn exchanged(
    before: Seq<ChatSession>,
    after: Seq<ChatSession>,
    id: u128,
    user: Seq<char>,
    reply: Seq<char>,
    now: i64,
) -> bool {
    if has_id(before, id) {
        exists|i: int|
            0 <= i < before.len() && before[i].id == id && #[trigger] is_exchange(
                before[i],
                after[i],
                user,
                reply,
                now,
            ) && after.len() == before.len() && forall|k: int|
                0 <= k < before.len() && k != i ==> after[k] == before[k]
    } else {
        after == before
    }
}

/// The sessions of the gateway.
pub struct SessionStore {
    sessions: Vec<ChatSession>,
}

impl SessionStore {
    /// The sessions held, in the order they were added.
    pub closed spec fn sessions(&self) -> Seq<ChatSession> {
        self.sessions@
    }

    /// Identifiers are unique and every session keeps its history window.
    pub open spec fn wf(&self) -> bool {
        &&& ids_unique(self.sessions())
        &&& forall|i: int| 0 <= i < self.sessions().len() ==> #[trigger] self.sessions()[i].wf()
    }

    pub fn new() -> (r: SessionStore)
        ensures
            r.wf(),
            r.sessions().len() == 0,
    {
        SessionStore { sessions: Vec::new() }
    }

    pub fn len(&self) -> (r: usize)
        ensures
            r == self.sessions().len(),
    {
        self.sessions.len()
    }

    fn position(&self, id: u128) -> (r: Option<usize>)
        ensures
            r matches Some(i) ==> i < self.sessions().len() && self.sessions()[i as int].id == id,
            r is None ==> !has_id(self.sessions(), id),
    {
        let mut i: usize = 0;
        while i < self.sessions.len()
            invariant
                i <= self.sessions@.len(),
                forall|k: int| 0 <= k < i ==> self.sessions@[k].id != id,
            decreases self.sessions@.len() - i,
        {
            if self.sessions[i].id == id {
                return Some(i);
            }
            i = i + 1;
        }
        None
    }

    /// Whether a session with this identifier is held.
    pub fn contains(&self, id: u128) -> (r: bool)
        ensures
            r == has_id(self.sessions(), id),
    {
        self.position(id).is_some()
    }

    /// The session with this identifier, if it is held.
    pub fn get(&self, id: u128) -> (r: Option<&ChatSession>)
        ensures
            r is None <==> !has_id(self.sessions(), id),
            r matches Some(s) ==> s.id == id && self.sessions().contains(*s),
    {
        match self.position(id) {
            Some(i) => Some(&self.sessions[i]),
            None => None,
        }
    }

    /// Adds a session, replacing the one with the same identifier if any.
    pub fn insert(&mut self, session: ChatSession)
        requires
            old(self).wf(),
            session.wf(),
        ensures
            final(self).wf(),
            final(self).sessions().contains(session),
            forall|x: ChatSession|
                #![trigger final(self).sessions().contains(x)]
                old(self).sessions().contains(x) && x.id != session.id
                    ==> final(self).sessions().contains(x),
            forall|id: u128| #[trigger]
                has_id(final(self).sessions(), id) <==> (has_id(old(self).sessions(), id) || id
                    == session.id),
    {
        let ghost id = session.id;
        match self.position(session.id) {
            Some(i) => {
                self.sessions.set(i, session);
                assert(self.sessions@[i as int] == session);
                assert forall|x: ChatSession|
                    old(self).sessions@.contains(x) && x.id != id implies self.sessions@.contains(
                    x,
                ) by {
                    let j = choose|j: int| 0 <= j < old(self).sessions@.len() && old(self).sessions@[j] == x;
                    assert(self.sessions@[j] == x);
                };
                assert forall|k: u128| #[trigger]
                    has_id(self.sessions@, k) <==> (has_id(old(self).sessions@, k) || k == id) by {
                    if has_id(old(self).sessions@, k) {
                        let j = choose|j: int|
                            0 <= j < old(self).sessions@.len() && old(self).sessions@[j].id == k;
                        assert(self.sessions@[j].id == k);
                    }
                    if has_id(self.sessions@, k) {
                        let j = choose|j: int| 0 <= j < self.sessions@.len() && self.sessions@[j].id == k;
                        if j != i {
                            assert(old(self).sessions@[j].id == k);
                        }
                    }
                };
            },
            None => {
                self.sessions.push(session);
                let ghost n: int = self.sessions@.len() - 1;
                assert(self.sessions@[n] == session);
                assert forall|x: ChatSession| old(self).sessions@.contains(x) implies self.sessions@.contains(x) by {
                    let j = choose|j: int| 0 <= j < old(self).sessions@.len() && old(self).sessions@[j] == x;
                    assert(self.sessions@[j] == x);
                };
                assert forall|k: u128| #[trigger]
                    has_id(self.sessions@, k) <==> (has_id(old(self).sessions@, k) || k == id) by {
                    if has_id(old(self).sessions@, k) {
                        let j = choose|j: int|
                            0 <= j < old(self).sessions@.len() && old(self).sessions@[j].id == k;
                        assert(self.sessions@[j].id == k);
                    }
                    if has_id(self.sessions@, k) {
                        let j = choose|j: int| 0 <= j < self.sessions@.len() && self.sessions@[j].id == k;
                        if j != n {
                            assert(old(self).sessions@[j].id == k);
                        }
                    }
                };
            },
        }
    }

    /// Makes sure a session with this identifier exists; an absent one is
    /// created empty at `now` with the default history window.
    pub fn get_or_create(&mut self, id: u128, now: i64)
        requires
            old(self).wf(),
        ensures
            final(self).wf(),
            has_id(final(self).sessions(), id),
            has_id(old(self).sessions(), id) ==> final(self).sessions() == old(self).sessions(),
            !has_id(old(self).sessions(), id) ==> adds_empty_session(
                old(self).sessions(),
                final(self).sessions(),
                id,
                now,
            ),
    {
        if self.position(id).is_none() {
            let s = ChatSession::with_id(id, DEFAULT_MAX_HISTORY, now);
            self.sessions.push(s);
            assert(self.sessions@.subrange(0, old(self).sessions@.len() as int) =~= old(self).sessions@);
            assert(self.sessions@[old(self).sessions@.len() as int].id == id);
            assert forall|i: int, j: int|
                0 <= i < self.sessions@.len() && 0 <= j < self.sessions@.len()
                    && self.sessions@[i].id == self.sessions@[j].id implies i == j by {
                if i < old(self).sessions@.len() && j == old(self).sessions@.len() {
                    assert(has_id(old(self).sessions@, id));
                }
                if j < old(self).sessions@.len() && i == old(self).sessions@.len() {
                    assert(has_id(old(self).sessions@, id));
                }
            };
        }
    }

    /// Appends a user message and the assistant's reply, both stamped `now`,
    /// to the session with this identifier. Returns whether it was held.
    pub fn record_exchange(&mut self, id: u128, user: &str, reply: &str, now: i64) -> (r: bool)
        requires
            old(self).wf(),
        ensures
            final(self).wf(),
            r == has_id(old(self).sessions(), id),
            exchanged(old(self).sessions(), final(self).sessions(), id, user@, reply@, now),
    {
        match self.position(id) {
            None => {
                assert(!has_id(old(self).sessions@, id));
                false
            },
            Some(i) => {
                let mut s = self.sessions.remove(i);
                let ghost old_s = s;
                let u = Message::user_at(user, now);
                let a = Message::assistant_at(reply, now);
                let ghost mid = keep_last(old_s.messages@.push(u), old_s.window());
                s.add_message_at(u, now);
                s.add_message_at(a, now);
                proof {
                    lemma_turns_keep_last(old_s.messages@, u, old_s.window());
                    lemma_turns_keep_last(mid, a, old_s.window());
                }
                self.sessions.insert(i, s);
                let ghost o = old(self).sessions@;
                let ghost n = self.sessions@;
                assert(n =~= o.update(i as int, s));
                assert(is_exchange(o[i as int], n[i as int], user@, reply@, now));

                assert forall|a: int, b: int|
                    0 <= a < n.len() && 0 <= b < n.len() && n[a].id == n[b].id implies a == b by {
                    assert(o[a].id == n[a].id);
                    assert(o[b].id == n[b].id);
                };
                true
            },
        }
    }

    /// Removes the session with this identifier. Returns whether it was held.
    pub fn remove(&mut self, id: u128) -> (r: bool)
        requires
            old(self).wf(),
        ensures
            final(self).wf(),
            r == has_id(old(self).sessions(), id),
            !has_id(final(self).sessions(), id),
            forall|x: ChatSession|
                #![trigger final(self).sessions().contains(x)]
                final(self).sessions().contains(x) <==> (old(self).sessions().contains(x) && x.id
                    != id),
            forall|k: u128|
                k != id ==> (#[trigger] has_id(final(self).sessions(), k) <==> has_id(
                    old(self).sessions(),
                    k,
                )),
    {
        match self.position(id) {
            None => false,
            Some(i) => {
                self.sessions.remove(i);
                let ghost o = old(self).sessions@;
                let ghost n = self.sessions@;
                assert forall|a: int| 0 <= a < n.len() implies n[a] == o[if a < i {
                    a
                } else {
                    a + 1
                }] by {};
                assert forall|x: ChatSession| n.contains(x) <==> (o.contains(x) && x.id != id) by {
                    if o.contains(x) && x.id != id {
                        let j = choose|j: int| 0 <= j < o.len() && o[j] == x;
                        if j < i {
                            assert(n[j] == x);
                        } else {
                            assert(j != i);
                            assert(n[j - 1] == x);
                        }
                    }
                    if n.contains(x) {
                        let j = choose|j: int| 0 <= j < n.len() && n[j] == x;
                        if j < i {
                            assert(o[j] == x);
                        } else {
                            assert(o[j + 1] == x);
                        }
                        assert(x.id != id);
                    }
                };
                assert forall|k: u128| #[trigger] has_id(n, k) <==> (has_id(o, k) && k != id) by {
                    if has_id(o, k) && k != id {
                        let j = choose|j: int| 0 <= j < o.len() && o[j].id == k;
                        if j < i {
                            assert(n[j].id == k);
                        } else {
                            assert(n[j - 1].id == k);
                        }
                    }
                    if has_id(n, k) {
                        let j = choose|j: int| 0 <= j < n.len() && n[j].id == k;
                        if j < i {
                            assert(o[j].id == k);
                        } else {
                            assert(o[j + 1].id == k);
                        }
                    }
                };
                true
            },
        }
    }

    /// Removes every session last active `ttl_millis` or longer before `now`.
    /// Returns how many were removed.
    pub fn evict_idle(&mut self, now: i64, ttl_millis: i64) -> (r: usize)
        requires
            old(self).wf(),
            ttl_millis >= 0,
        ensures
            final(self).wf(),
            final(self).sessions() == active_after(
                old(self).sessions(),
                idle_cutoff(now, ttl_millis),
            ),
            r == old(self).sessions().len() - final(self).sessions().len(),
    {
        let ghost o = self.sessions@;
        let ghost cutoff = idle_cutoff(now, ttl_millis);
        let far = (now as i128) - (ttl_millis as i128);
        let mut i: usize = 0;
        let ghost mut j: int = 0;
        let mut removed: usize = 0;
        let total = self.sessions.len();
        assert(o.subrange(0, 0) =~= Seq::<ChatSession>::empty());
        assert(self.sessions@.subrange(0, 0) =~= Seq::<ChatSession>::empty());
        assert(self.sessions@.subrange(0, self.sessions@.len() as int) =~= o.subrange(0, o.len() as int));
        while i < self.sessions.len()
            invariant
                0 <= j <= o.len(),
                i <= self.sessions@.len(),
                far == cutoff,
                self.sessions@.subrange(0, i as int) == active_after(o.subrange(0, j), cutoff),
                self.sessions@.subrange(i as int, self.sessions@.len() as int) == o.subrange(
                    j,
                    o.len() as int,
                ),
                self.sessions@.len() - i == o.len() - j,
                removed == j - i,
                total == o.len(),
            decreases self.sessions@.len() - i,
        {
            let ghost before = self.sessions@;
            proof {
                assert(o.subrange(0, j + 1).drop_last() =~= o.subrange(0, j));
                assert(o[j] == before.subrange(i as int, before.len() as int)[0]);
                assert(o.subrange(0, j + 1).last() == o[j]);
            }
            if (self.sessions[i].last_active as i128) > far {
                i = i + 1;
                proof {
                    assert(self.sessions@.subrange(0, i as int) =~= before.subrange(
                        0,
                        i - 1,
                    ).push(o[j]));
                    let tail = before.subrange(i - 1, before.len() as int);
                    assert(tail == o.subrange(j, o.len() as int));
                    assert forall|k: int| 0 <= k < self.sessions@.len() - i implies
                        #[trigger] self.sessions@.subrange(i as int, self.sessions@.len() as int)[k]
                        == o.subrange(j + 1, o.len() as int)[k] by {
                        assert(tail[k + 1] == before[i + k]);
                    };
                    assert(self.sessions@.len() - i == o.len() - (j + 1));
                    assert(self.sessions@.subrange(i as int, self.sessions@.len() as int)
                        =~= o.subrange(j + 1, o.len() as int));
                }
            } else {
                self.sessions.remove(i);
                removed = removed + 1;
                proof {
                    assert(self.sessions@.subrange(0, i as int) =~= before.subrange(0, i as int));
                    let tail = before.subrange(i as int, before.len() as int);
                    assert(tail == o.subrange(j, o.len() as int));
                    assert forall|k: int| 0 <= k < self.sessions@.len() - i implies
                        #[trigger] self.sessions@.subrange(i as int, self.sessions@.len() as int)[k]
                        == o.subrange(j + 1, o.len() as int)[k] by {
                        assert(self.sessions@[i + k] == before[i + k + 1]);
                        assert(tail[k + 1] == before[i + k + 1]);
                    };
                    assert(self.sessions@.len() - i == o.len() - (j + 1));
                    assert(self.sessions@.subrange(i as int, self.sessions@.len() as int)
                        =~= o.subrange(j + 1, o.len() as int));
                }
            }
            proof {
                j = j + 1;
            }
        }
        proof {
            assert(o.subrange(0, o.len() as int) =~= o);
            assert(self.sessions@.subrange(0, i as int) =~= self.sessions@);
            lemma_active_after(o, cutoff);
            assert(j == o.len());
            assert(self.sessions@ == active_after(o, cutoff));
            assert forall|k: int| 0 <= k < self.sessions@.len() implies #[trigger] self.sessions@[k].wf() by {
                assert(self.sessions@.contains(self.sessions@[k]));
                assert(o.contains(self.sessions@[k]));
                let m = choose|m: int| 0 <= m < o.len() && o[m] == self.sessions@[k];
                assert(o[m].wf());
            };
        }
        removed
    }
}

/// What the store keeps of a message: speaker, text and time.
pub open spec fn turn(m: Message) -> (Role, Seq<char>, i64) {
    (m.role, m.content@, m.timestamp)
}

/// The turns of a history.
pub open spec fn turns(s: Seq<Message>) -> Seq<(Role, Seq<char>, i64)> {
    s.map_values(|m: Message| turn(m))
}

/// The turns after a user message and a reply, both at `now`, were appended
/// to `before` under a window of `window` messages.
pub open spec fn exchange_turns(
    before: Seq<(Role, Seq<char>, i64)>,
    user: Seq<char>,
    reply: Seq<char>,
    now: i64,
    window: nat,
) -> Seq<(Role, Seq<char>, i64)> {
    keep_last(
        keep_last(before.push((Role::User, user, now)), window).push((Role::Assistant, reply, now)),
        window,
    )
}

/// `after` is `before` with a user message and a reply appended at `now`.
pub open spec fn is_exchange(
    before: ChatSession,
    after: ChatSession,
    user: Seq<char>,
    reply: Seq<char>,
    now: i64,
) -> bool {
    &&& after.id == before.id
    &&& after.created_at == before.created_at
    &&& after.max_history == before.max_history
    &&& after.last_active == now
    &&& after.wf()
    &&& turns(after.messages@) == exchange_turns(
        turns(before.messages@),
        user,
        reply,
        now,
        before.window(),
    )
}

pub proof fn lemma_turns_keep_last(s: Seq<Message>, m: Message, window: nat)
    ensures
        turns(keep_last(s.push(m), window)) == keep_last(turns(s).push(turn(m)), window),
{
    assert(turns(s.push(m)) =~= turns(s).push(turn(m)));
    if s.len() + 1 > window {
        assert(turns(keep_last(s.push(m), window)) =~= keep_last(turns(s).push(turn(m)), window));
    }
}

} // verus!
