//! Bookkeeping of PTY sessions: identifiers, the table of live sessions,
//! and the events and errors sessions report. The sessions themselves
//! (processes and pseudo-terminals) are held by the caller as `S`.
use vstd::prelude::*;
use std::collections::HashMap;

verus! {

/// `std::io::Error`, carried through as an opaque value.
#[verifier::external_type_specification]
#[verifier::external_body]
pub struct ExIoError(std::io::Error);

/// Why a PTY operation failed.
#[derive(Debug)]
pub enum PtyError {
    OpenFailed(String),
    SpawnFailed(String),
    Io(std::io::Error),
    NotFound(u64),
}

/// Event sent from PTY sessions to the app.
#[derive(Debug, Clone)]
pub enum PtyEvent {
    Output { session_id: u64, data: Vec<u8> },
    Exited { session_id: u64, code: i32 },
}

/// The exit code reported for a finished session: the process's exit
/// status as an `i32` (bit pattern kept), or -1 when none is known.
pub open spec fn exit_code_spec(status: Option<u32>) -> i32 {
    match status {
        Some(c) => c as i32,
        None => -1i32,
    }
}

/// The exit code reported for a finished session.
pub fn exit_code(status: Option<u32>) -> (code: i32)
    ensures
        code == exit_code_spec(status),
{
    match status {
        Some(c) => c as i32,
        None => -1,
    }
}

/// The event that reports the end of session `session_id`.
pub fn exited_event(session_id: u64, status: Option<u32>) -> (e: PtyEvent)
    ensures
        e matches PtyEvent::Exited { session_id: s, code } && s == session_id && code
            == exit_code_spec(status),
{
    PtyEvent::Exited { session_id, code: exit_code(status) }
}

/// `HashMap::get_mut`: a mutable reference to the value at `k`, if any;
/// what is written through it is the map's new value at `k`.
#[verifier::external_body]
fn map_get_mut<'a, S>(m: &'a mut HashMap<u64, S>, k: u64) -> (r: Option<&'a mut S>)
    ensures
        match r {
            Some(v) => old(m)@.contains_key(k) && *v == old(m)@[k] && final(m)@ == old(m)@.insert(
                k,
                *final(v),
            ),
            None => !old(m)@.contains_key(k) && final(m)@ == old(m)@,
        },
{
    m.get_mut(&k)
}

/// The identifier handed out after `n`: one more, wrapping at the top of
/// the `u64` range as an atomic `fetch_add` does.
pub open spec fn next_after(n: u64) -> u64 {
    if n == u64::MAX {
        0
    } else {
        (n + 1) as u64
    }
}

/// The identifier handed out `k` allocations after one starting at `start`.
pub open spec fn id_after(start: u64, k: nat) -> u64
    decreases k,
{
    if k == 0 {
        start
    } else {
        next_after(id_after(start, (k - 1) as nat))
    }
}

/// `t1` is `t0` after handing out the identifier `id`: the next one, with
/// the counter moved on and the sessions unchanged.
pub open spec fn allocated<S>(t0: SessionTable<S>, t1: SessionTable<S>, id: u64) -> bool {
    &&& id == t0.next()
    &&& t1.next() == next_after(t0.next())
    &&& t1.sessions() == t0.sessions()
}

/// `t1` is `t0` with `session` registered under `id`.
pub open spec fn inserted<S>(t0: SessionTable<S>, t1: SessionTable<S>, id: u64, session: S) -> bool {
    &&& t1.sessions() == t0.sessions().insert(id, session)
    &&& t1.next() == t0.next()
}

/// The live sessions, by identifier, and the identifier the next one gets.
pub struct SessionTable<S> {
    sessions: HashMap<u64, S>,
    next_id: u64,
}

impl<S> SessionTable<S> {
    /// The live sessions, by identifier.
    pub closed spec fn sessions(&self) -> Map<u64, S> {
        self.sessions@
    }

    /// The identifier the next session gets.
    pub closed spec fn next(&self) -> u64 {
        self.next_id
    }

    /// Identifiers count from 1, and every live session's identifier was
    /// handed out before the next one: it lies between 1 and the next.
    pub open spec fn wf(&self) -> bool {
        &&& 1 <= self.next()
        &&& forall|k: u64| #[trigger] self.sessions().dom().contains(k) ==> 1 <= k < self.next()
    }

    /// An empty table; identifiers start at 1.
    pub fn new() -> (t: Self)
        ensures
            t.sessions() == Map::<u64, S>::empty(),
            t.next() == 1,
            t.wf(),
    {
        SessionTable { sessions: HashMap::new(), next_id: 1 }
    }

    /// Hands out the next identifier (counting up, wrapping like `fetch_add`).
    pub fn allocate_id(&mut self) -> (id: u64)
        ensures
            allocated(*old(self), *final(self), id),
            old(self).wf() && old(self).next() < u64::MAX ==> final(self).wf(),
    {
        let id = self.next_id;
        self.next_id = self.next_id.wrapping_add(1);
        proof {
            if old(self).wf() && old(self).next() < u64::MAX {
                assert forall|k: u64| #[trigger] self.sessions().dom().contains(k) implies 1 <= k
                    < self.next() by {
                    assert(old(self).sessions().dom().contains(k));
                }
            }
        }
        id
    }

    /// Registers a session under `id`.
    pub fn insert(&mut self, id: u64, session: S)
        ensures
            inserted(*old(self), *final(self), id, session),
            old(self).wf() && 1 <= id < old(self).next() ==> final(self).wf(),
    {
        self.sessions.insert(id, session);
        proof {
            if old(self).wf() && 1 <= id < old(self).next() {
                assert forall|k: u64| #[trigger] self.sessions().dom().contains(k) implies 1 <= k
                    < self.next() by {
                    if k != id {
                        assert(old(self).sessions().dom().contains(k));
                    }
                }
            }
        }
    }

    /// The session `id`, or `NotFound(id)`.
    pub fn get(&self, id: u64) -> (r: Result<&S, PtyError>)
        ensures
            match r {
                Ok(s) => self.sessions().contains_key(id) && *s == self.sessions()[id],
                Err(e) => !self.sessions().contains_key(id) && e == PtyError::NotFound(id),
            },
    {
        match self.sessions.get(&id) {
            Some(s) => Ok(s),
            None => Err(PtyError::NotFound(id)),
        }
    }

    /// The session `id` for update, or `NotFound(id)`.
    pub fn get_mut(&mut self, id: u64) -> (r: Result<&mut S, PtyError>)
        ensures
            final(self).next() == old(self).next(),
            final(self).sessions().dom() == old(self).sessions().dom(),
            old(self).wf() ==> final(self).wf(),
            match r {
                Ok(s) => old(self).sessions().contains_key(id) && *s == old(self).sessions()[id]
                    && final(self).sessions() == old(self).sessions().insert(id, *final(s)),
                Err(e) => !old(self).sessions().contains_key(id) && final(self).sessions()
                    == old(self).sessions() && e == PtyError::NotFound(id),
            },
    {
        match map_get_mut(&mut self.sessions, id) {
            Some(s) => Ok(s),
            None => Err(PtyError::NotFound(id)),
        }
    }

    /// Removes the session `id` and hands it back, or `NotFound(id)`.
    pub fn remove(&mut self, id: u64) -> (r: Result<S, PtyError>)
        ensures
            final(self).next() == old(self).next(),
            final(self).sessions() == old(self).sessions().remove(id),
            old(self).wf() ==> final(self).wf(),
            match r {
                Ok(s) => old(self).sessions().contains_key(id) && s == old(self).sessions()[id],
                Err(e) => !old(self).sessions().contains_key(id) && e == PtyError::NotFound(id),
            },
    {
        match self.sessions.remove(&id) {
            Some(s) => Ok(s),
            None => {
                assert(self.sessions@ == old(self).sessions@.remove(id));
                Err(PtyError::NotFound(id))
            },
        }
    }

    /// Whether session `id` is live.
    pub fn contains(&self, id: u64) -> (b: bool)
        ensures
            b == self.sessions().contains_key(id),
    {
        self.sessions.contains_key(&id)
    }

    /// The number of live sessions.
    pub fn session_count(&self) -> (n: usize)
        ensures
            n == self.sessions().len(),
    {
        self.sessions.len()
    }

    /// Removes every session and hands them all back.
    pub fn take_all(&mut self) -> (all: HashMap<u64, S>)
        ensures
            all@ == old(self).sessions(),
            final(self).sessions() == Map::<u64, S>::empty(),
            final(self).next() == old(self).next(),
            old(self).wf() ==> final(self).wf(),
    {
        let mut all = HashMap::new();
        std::mem::swap(&mut all, &mut self.sessions);
        all
    }
}

/// `id_after` counts up modulo 2^64.
proof fn lemma_id_after_mod(start: u64, k: nat)
    ensures
        id_after(start, k) as int == (start + k) % 0x1_0000_0000_0000_0000,
    decreases k,
{
    if k > 0 {
        lemma_id_after_mod(start, (k - 1) as nat);
        let m: int = 0x1_0000_0000_0000_0000;
        let prev: int = (start + k - 1) % m;
        vstd::arithmetic::div_mod::lemma_add_mod_noop(start + k - 1, 1, m);
        assert((1int) % m == 1);
        if prev == m - 1 {
            assert((prev + 1) % m == 0) by {
                vstd::arithmetic::div_mod::lemma_mod_self_0(m);
            }
        } else {
            assert((prev + 1) % m == prev + 1) by {
                vstd::arithmetic::div_mod::lemma_small_mod((prev + 1) as nat, m as nat);
            }
        }
    }
}

/// Identifiers handed out by one counter are distinct until it has handed
/// out 2^64 of them.
pub proof fn law_ids_distinct(start: u64, i: nat, j: nat)
    requires
        i < j < 0x1_0000_0000_0000_0000,
    ensures
        id_after(start, i) != id_after(start, j),
{
    lemma_id_after_mod(start, i);
    lemma_id_after_mod(start, j);
    let m: int = 0x1_0000_0000_0000_0000;
    if (start + i) % m == (start + j) % m {
        vstd::arithmetic::div_mod::lemma_mod_equivalence(start + j, start + i, m);
        assert(((start + j) - (start + i)) % m == 0);
        assert(((j - i) as int) % m == (j - i)) by {
            vstd::arithmetic::div_mod::lemma_small_mod((j - i) as nat, m as nat);
        }
    }
}

/// A session registered under `id` is the one found under `id`; the others
/// are as they were.
pub proof fn law_insert_then_get<S>(t0: SessionTable<S>, t1: SessionTable<S>, id: u64, session: S)
    requires
        t1.sessions() == t0.sessions().insert(id, session),
    ensures
        t1.sessions().contains_key(id),
        t1.sessions()[id] == session,
        forall|k: u64| k != id ==> (t1.sessions().contains_key(k) == t0.sessions().contains_key(k)),
        forall|k: u64| k != id && t0.sessions().contains_key(k) ==> t1.sessions()[k] == t0.sessions()[k],
{
}

/// A removed session is no longer found; the others are as they were.
pub proof fn law_remove_then_not_found<S>(t0: SessionTable<S>, t1: SessionTable<S>, id: u64)
    requires
        t1.sessions() == t0.sessions().remove(id),
    ensures
        !t1.sessions().contains_key(id),
        forall|k: u64| k != id ==> (t1.sessions().contains_key(k) == t0.sessions().contains_key(k)),
        forall|k: u64| k != id && t0.sessions().contains_key(k) ==> t1.sessions()[k] == t0.sessions()[k],
{
}

/// The identifier a well-formed table hands out next is not in use.
pub proof fn law_next_id_fresh<S>(t: SessionTable<S>)
    requires
        t.wf(),
    ensures
        !t.sessions().contains_key(t.next()),
{
}

/// Spawning a session (handing out the next identifier, then registering
/// the session under it) adds exactly one session, found under that
/// identifier, and keeps the table well formed.
pub proof fn law_spawn_adds_one<S>(
    t0: SessionTable<S>,
    t1: SessionTable<S>,
    t2: SessionTable<S>,
    id: u64,
    session: S,
)
    requires
        t0.wf(),
        t0.next() < u64::MAX,
        allocated(t0, t1, id),
        inserted(t1, t2, id, session),
    ensures
        t2.wf(),
        t2.sessions().len() == t0.sessions().len() + 1,
        t2.sessions().contains_key(id),
        t2.sessions()[id] == session,
{
    broadcast use vstd::std_specs::hash::axiom_hashmap_view_finite_dom;
    assert(t0.sessions() == t0.sessions@);
    assert(t0.sessions().dom().finite());
    assert(!t0.sessions().contains_key(id));
    assert(t2.sessions().dom() == t0.sessions().dom().insert(id));
    assert forall|k: u64| #[trigger] t2.sessions().dom().contains(k) implies 1 <= k < t2.next() by {
        if k != id {
            assert(t0.sessions().dom().contains(k));
        }
    }
}

/// Counting from a new table (whose first identifier is 1), the `k`-th
/// identifier handed out after the first is `k + 1`, until the counter
/// reaches the top of the `u64` range.
pub proof fn law_kth_id(k: nat)
    requires
        k < u64::MAX,
    ensures
        id_after(1, k) == k + 1,
{
    lemma_id_after_mod(1, k);
    vstd::arithmetic::div_mod::lemma_small_mod((1 + k) as nat, 0x1_0000_0000_0000_0000nat);
}

} // verus!
