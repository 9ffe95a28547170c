//! Laws of the upload protocol, proved over the controller's
//! specifications.

use vstd::prelude::*;

use crate::store::preserves_session;
use crate::store::SessionStore;

verus! {

/// Law: a session accepted by `start` stays resolvable. Once a handle has
/// its persistent row and its volatile credential, any sequence of later
/// controller calls - each of which changes the store only as
/// `preserves_session` allows - leaves the row in place, unchanged, and
/// keeps a credential bound to the handle.
pub proof fn lemma_accepted_session_persists(states: Seq<SessionStore>, h: Seq<char>)
    requires
        states.len() >= 1,
        forall|i: int|
            0 <= i < states.len() - 1 ==> preserves_session(#[trigger] states[i], states[i + 1]),
        states[0].has_row(h),
        states[0].has_cred(h),
    ensures
        states.last().has_row(h),
        states.last().has_cred(h),
        states.last().row(h) == states[0].row(h),
    decreases states.len(),
{
    if states.len() > 1 {
        let rest = states.subrange(1, states.len() as int);
        assert(preserves_session(states[0], states[1]));
        assert(rest[0] == states[1]);
        assert forall|i: int| 0 <= i < rest.len() - 1 implies preserves_session(
            #[trigger] rest[i],
            rest[i + 1],
        ) by {
            assert(rest[i] == states[i + 1]);
            assert(rest[i + 1] == states[i + 2]);
            assert(preserves_session(states[i + 1], states[i + 2]));
        }
        lemma_accepted_session_persists(rest, h);
        assert(rest.last() == states.last());
    }
}

/// Law: the handles of two accepted `start`s are distinct, over any
/// history of controller calls. An accepted `start` finds its handle
/// absent and leaves it present with its credential; rows persist under
/// every later controller step; so a later accepted `start`, which also
/// finds its own handle absent, cannot have been given the same one.
pub proof fn lemma_accepted_handles_distinct(
    states: Seq<SessionStore>,
    i: int,
    j: int,
    h1: Seq<char>,
    h2: Seq<char>,
)
    requires
        forall|k: int|
            0 <= k < states.len() - 1 ==> preserves_session(#[trigger] states[k], states[k + 1]),
        0 <= i < j < states.len(),
        !states[i].has_row(h1),
        states[i + 1].has_row(h1),
        states[i + 1].has_cred(h1),
        !states[j].has_row(h2),
    ensures
        h1 != h2,
{
    let span = states.subrange(i + 1, j + 1);
    assert(span[0] == states[i + 1]);
    assert forall|k: int| 0 <= k < span.len() - 1 implies preserves_session(
        #[trigger] span[k],
        span[k + 1],
    ) by {
        assert(span[k] == states[i + 1 + k]);
        assert(span[k + 1] == states[i + 1 + k + 1]);
        assert(preserves_session(states[i + 1 + k], states[i + 1 + k + 1]));
    }
    lemma_accepted_session_persists(span, h1);
    assert(span.last() == states[j]);
    assert(states[j].has_row(h1));
}

/// The chunks one session appended, in issuance order: the data parts of
/// the entries of the controller's append log that carry this session's
/// handle.
pub open spec fn session_appends(log: Seq<(Seq<char>, Seq<u8>)>, sid: Seq<char>) -> Seq<Seq<u8>>
    decreases log.len(),
{
    if log.len() == 0 {
        Seq::empty()
    } else {
        let rest = session_appends(log.drop_last(), sid);
        if log.last().0 == sid {
            rest.push(log.last().1)
        } else {
            rest
        }
    }
}

/// Law: per session, blocks are appended in the order the successful
/// `continue` calls issued them. A successful `continue` pushes its one
/// block at the end of the controller's append log; that puts it at the
/// end of its own session's chunk sequence and leaves the chunk sequence
/// of every other session as it was.
pub proof fn lemma_session_append_order(
    log: Seq<(Seq<char>, Seq<u8>)>,
    entry: (Seq<char>, Seq<u8>),
    sid: Seq<char>,
)
    ensures
        session_appends(log.push(entry), sid) == (if entry.0 == sid {
            session_appends(log, sid).push(entry.1)
        } else {
            session_appends(log, sid)
        }),
{
    assert(log.push(entry).drop_last() =~= log);
    assert(log.push(entry).last() == entry);
}

} // verus!
