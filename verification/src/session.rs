//! The session table: the mutable state shared by the chat operations, and
//! the primitive lookups and updates on the stored sessions.

use vstd::prelude::*;

use crate::types::{ChatSession, ChatStatus, Office, Salesperson};

verus! {

/// The mutable chat state guarded by one lock in a running process: the
/// session table together with the office and salesperson directory.
pub struct ChatState {
    pub sessions: Vec<ChatSession>,
    pub offices: Vec<Office>,
    pub salespeople: Vec<Salesperson>,
}

/// Some stored session carries the identifier `id`.
pub open spec fn has_session(sessions: Seq<ChatSession>, id: u128) -> bool {
    exists|i: int| 0 <= i < sessions.len() && sessions[i].id == id
}

/// `k` is the first position of a session with identifier `id`.
pub open spec fn is_first_session_index(sessions: Seq<ChatSession>, id: u128, k: int) -> bool {
    &&& 0 <= k < sessions.len()
    &&& sessions[k].id == id
    &&& forall|j: int| 0 <= j < k ==> sessions[j].id != id
}

impl ChatState {
    /// Well-formedness: stored session identifiers are pairwise distinct.
    pub open spec fn wf(self) -> bool {
        forall|i: int, j: int|
            0 <= i < j < self.sessions@.len() ==> self.sessions@[i].id != self.sessions@[j].id
    }
}

/// Every stored session carries a status a stored session can have: a
/// session is created `Connected` or `Waiting` and can only move to `Ended`;
/// `Pending` and `Failed` are never stored.
pub open spec fn stored_statuses_ok(sessions: Seq<ChatSession>) -> bool {
    forall|i: int|
        0 <= i < sessions.len() ==> (sessions[i].status == ChatStatus::Connected
            || sessions[i].status == ChatStatus::Waiting || sessions[i].status
            == ChatStatus::Ended)
}

impl Default for ChatState {
    /// An empty state: no sessions, no offices, no salespeople.
    fn default() -> (r: Self)
        ensures
            r.sessions@.len() == 0,
            r.offices@.len() == 0,
            r.salespeople@.len() == 0,
            r.wf(),
            stored_statuses_ok(r.sessions@),
    {
        ChatState { sessions: Vec::new(), offices: Vec::new(), salespeople: Vec::new() }
    }
}

/// Find the first stored session with the given identifier.
pub fn find_session(sessions: &Vec<ChatSession>, id: u128) -> (r: Option<usize>)
    ensures
        match r {
            Some(k) => is_first_session_index(sessions@, id, k as int),
            None => !has_session(sessions@, id),
        },
{
    let mut i: usize = 0;
    while i < sessions.len()
        invariant
            i <= sessions@.len(),
            forall|j: int| 0 <= j < i ==> sessions@[j].id != id,
        decreases sessions@.len() - i,
    {
        if sessions[i].id == id {
            return Some(i);
        }
        i += 1;
    }
    None
}

/// How `put_session` changes the stored sequence: the first session with the
/// same identifier is replaced, or the new session is appended when the
/// identifier is absent.
pub open spec fn sessions_put(
    pre: Seq<ChatSession>,
    post: Seq<ChatSession>,
    session: ChatSession,
) -> bool {
    if has_session(pre, session.id) {
        exists|k: int| is_first_session_index(pre, session.id, k) && post == pre.update(k, session)
    } else {
        post == pre.push(session)
    }
}

/// Store a session under its identifier, replacing any session already
/// stored under it, as a map insertion would.
pub fn put_session(state: &mut ChatState, session: ChatSession)
    ensures
        final(state).offices == old(state).offices,
        final(state).salespeople == old(state).salespeople,
        sessions_put(old(state).sessions@, final(state).sessions@, session),
        old(state).wf() ==> final(state).wf(),
{
    let ghost pre = state.sessions@;
    match find_session(&state.sessions, session.id) {
        Some(k) => {
            let ghost sid = session.id;
            state.sessions[k] = session;
            proof {
                assert(sessions_put(pre, state.sessions@, session));
                if old(state).wf() {
                    assert forall|i: int, j: int|
                        0 <= i < j < state.sessions@.len() implies state.sessions@[i].id
                        != state.sessions@[j].id by {
                        assert(pre[i].id == state.sessions@[i].id || i == k);
                        assert(pre[j].id == state.sessions@[j].id || j == k);
                        assert(pre[k as int].id == sid);
                    }
                }
            }
        },
        None => {
            state.sessions.push(session);
            proof {
                if old(state).wf() {
                    assert forall|i: int, j: int|
                        0 <= i < j < state.sessions@.len() implies state.sessions@[i].id
                        != state.sessions@[j].id by {
                        if j == pre.len() {
                            assert(!has_session(pre, session.id));
                            assert(pre[i].id != session.id);
                        }
                    }
                }
            }
        },
    }
}

} // verus!
