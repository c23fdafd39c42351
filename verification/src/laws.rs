//! The ordering laws of the event log: idempotent replay, gap failure, and
//! convergence of independently maintained copies.

use vstd::prelude::*;

use crate::event::EventDataV;
use crate::state::StateV;

verus! {

/// Fold a whole event sequence over a state, front first.
pub open spec fn spec_apply_all(s: StateV, events: Seq<EventDataV>) -> StateV
    decreases events.len(),
{
    if events.len() == 0 {
        s
    } else {
        spec_apply_all(s.spec_update(events.first()).0, events.drop_first())
    }
}

/// The trade protocol only redistributes resources between players: the time
/// and the event sequence counter are untouched.
pub proof fn lemma_trade_preserves_counters(
    s: StateV,
    visitor: i64,
    visited: i64,
    visitor_truck: int,
    visited_truck: int,
)
    ensures
        s.spec_trade(visitor, visited, visitor_truck, visited_truck).time == s.time,
        s.spec_trade(visitor, visited, visitor_truck, visited_truck).next_event_idx
            == s.next_event_idx,
{
}

/// Applying one event consumes exactly its own index slot: a stale event
/// succeeds without mutation, a gap fails without mutation, and the expected
/// index advances the sequence counter by exactly one.
pub proof fn lemma_update_consumes_index(s: StateV, ed: EventDataV)
    ensures
        ed.event_idx < s.next_event_idx ==> s.spec_update(ed) == (s, true),
        ed.event_idx > s.next_event_idx ==> s.spec_update(ed) == (s, false),
        ed.event_idx == s.next_event_idx ==> s.spec_update(ed).0.next_event_idx
            == s.next_event_idx + 1,
{
    if ed.event_idx == s.next_event_idx {
        match ed.event {
            crate::event::EventV::Trade(vt, visited, dt) => {
                match ed.user_id {
                    Some(visitor) => {
                        lemma_trade_preserves_counters(
                            StateV { next_event_idx: s.next_event_idx + 1, ..s },
                            visitor,
                            visited,
                            vt as int,
                            dt as int,
                        );
                    },
                    None => {},
                }
            },
            _ => {},
        }
    }
}

/// Idempotence law: applying the same event envelope twice never changes the
/// state the second time — after any first application, the index is either
/// consumed or still out of order, and the replay is inert.
pub proof fn lemma_update_idempotent(s: StateV, ed: EventDataV)
    ensures
        s.spec_update(ed).0.spec_update(ed).0 == s.spec_update(ed).0,
{
    lemma_update_consumes_index(s, ed);
    lemma_update_consumes_index(s.spec_update(ed).0, ed);
}

/// Ordering law: with three consecutively indexed events, delivering them as
/// `[e0, e2, ...]` makes `e2` fail as a gap without mutation; delivering
/// `e1`, then `e2`, then the stale `e0` afterwards reproduces exactly the
/// state of the in-order delivery `[e0, e1, e2]`.
pub proof fn lemma_update_ordering(s: StateV, e0: EventDataV, e1: EventDataV, e2: EventDataV)
    requires
        e0.event_idx == s.next_event_idx,
        e1.event_idx == e0.event_idx + 1,
        e2.event_idx == e0.event_idx + 2,
    ensures
        s.spec_update(e0).0.spec_update(e2) == (s.spec_update(e0).0, false),
        s.spec_update(e0).0.spec_update(e1).0.spec_update(e2).0.spec_update(e0).0
            == spec_apply_all(s, seq![e0, e1, e2]),
{
    let s1 = s.spec_update(e0).0;
    lemma_update_consumes_index(s, e0);
    let s2 = s1.spec_update(e1).0;
    lemma_update_consumes_index(s1, e1);
    let s3 = s2.spec_update(e2).0;
    lemma_update_consumes_index(s2, e2);
    lemma_update_consumes_index(s3, e0);
    assert(seq![e0, e1, e2].drop_first() =~= seq![e1, e2]);
    assert(seq![e1, e2].drop_first() =~= seq![e2]);
    assert(seq![e2].drop_first() =~= Seq::<EventDataV>::empty());
    assert(spec_apply_all(s, seq![e0, e1, e2]) == spec_apply_all(s1, seq![e1, e2]));
    assert(spec_apply_all(s1, seq![e1, e2]) == spec_apply_all(s2, seq![e2]));
    assert(spec_apply_all(s2, seq![e2]) == spec_apply_all(s3, Seq::<EventDataV>::empty()));
    assert(spec_apply_all(s3, Seq::<EventDataV>::empty()) == s3);
    assert(s3.spec_update(e0).0 == s3);
}

/// Convergence law: two independently maintained copies that start equal and
/// apply the identical ordered event sequence remain equal — every step of
/// `spec_update` is a function of the state and the event alone.
pub proof fn lemma_convergence(s1: StateV, s2: StateV, events: Seq<EventDataV>)
    requires
        s1 == s2,
    ensures
        spec_apply_all(s1, events) == spec_apply_all(s2, events),
{
}

} // verus!
