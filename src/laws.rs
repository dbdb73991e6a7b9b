use vstd::prelude::*;
use crate::hub::{Delivery, HubView};
use crate::message::Message;
use crate::session::{session_step, Action, SessionState};

verus! {

/// The actions of `n` steps of a session in state `s` reading cursor `id`, with no
/// shutdown signalled and no publish in between.
pub open spec fn run(s: SessionState, id: u64, h: HubView, n: nat) -> Seq<Action>
    decreases n,
{
    if n == 0 {
        Seq::empty()
    } else {
        let (s2, h2, a) = session_step(s, id, h, false);
        seq![a] + run(s2, id, h2, (n - 1) as nat)
    }
}

pub open spec fn emits(ms: Seq<Message>) -> Seq<Action> {
    ms.map_values(|m: Message| Action::Emit(m))
}

/// Two hubs that look the same to cursor `id`.
pub open spec fn same_for(h: HubView, g: HubView, id: u64) -> bool {
    &&& h.log == g.log
    &&& h.capacity == g.capacity
    &&& h.closed == g.closed
    &&& h.cursors.contains_key(id) == g.cursors.contains_key(id)
    &&& h.cursors.contains_key(id) ==> h.cursors[id] == g.cursors[id]
}

/// A live session whose cursor has not fallen out of the retained window
/// emits the messages after its cursor, one per step, in the order they were published.
pub proof fn lemma_ordering(s: SessionState, id: u64, h: HubView, n: nat)
    requires
        s != SessionState::Closed,
        h.log.len() <= u64::MAX,
        h.cursors.contains_key(id),
        h.oldest() <= h.cursors[id],
        h.cursors[id] + n <= h.log.len(),
    ensures
        run(s, id, h, n) == emits(
            h.log.subrange(h.cursors[id] as int, h.cursors[id] + n),
        ),
    decreases n,
{
    let p = h.cursors[id];
    if n == 0 {
        assert(emits(h.log.subrange(p as int, p as int)) =~= Seq::<Action>::empty());
    } else {
        let (s2, h2, a) = session_step(s, id, h, false);
        assert(a == Action::Emit(h.log[p as int]));
        assert(h2.cursors[id] == p + 1);
        lemma_ordering(s2, id, h2, (n - 1) as nat);
        assert(run(s, id, h, n) =~= emits(h.log.subrange(p as int, p + n)));
    }
}

/// The hub after publishing `ms` in order.
pub open spec fn publish_all(h: HubView, ms: Seq<Message>) -> HubView
    decreases ms.len(),
{
    if ms.len() == 0 {
        h
    } else {
        publish_all(h, ms.drop_last()).publish(ms.last())
    }
}

proof fn lemma_publish_all(h: HubView, ms: Seq<Message>)
    ensures
        publish_all(h, ms).log == h.log + ms,
        publish_all(h, ms).cursors == h.cursors,
        publish_all(h, ms).capacity == h.capacity,
        publish_all(h, ms).closed == h.closed,
    decreases ms.len(),
{
    if ms.len() > 0 {
        lemma_publish_all(h, ms.drop_last());
        assert(h.log + ms.drop_last().push(ms.last()) =~= h.log + ms);
        assert(ms.drop_last().push(ms.last()) =~= ms);
    }
}

/// A session opened on `h` and then handed the publishes `ms`, no more of them than the
/// ring holds, emits exactly `ms`, in publication order, one per step.
pub proof fn lemma_subscriber_sees_all_in_order(h: HubView, ms: Seq<Message>)
    requires
        h.valid(),
        h.next_id < u64::MAX,
        ms.len() <= h.capacity,
        h.log.len() + ms.len() <= u64::MAX,
    ensures
        run(
            SessionState::Open,
            h.next_id,
            publish_all(h.subscribe(), ms),
            ms.len(),
        ) == emits(ms),
{
    let h1 = h.subscribe();
    let h2 = publish_all(h1, ms);
    lemma_publish_all(h1, ms);
    assert(h2.cursors[h.next_id] == h.log.len());
    assert(h2.log.subrange(h.log.len() as int, (h.log.len() + ms.len()) as int) =~= ms);
    lemma_ordering(SessionState::Open, h.next_id, h2, ms.len());
}

proof fn lemma_step_same_for(s: SessionState, id: u64, h: HubView, g: HubView, sd: bool)
    requires
        same_for(h, g, id),
    ensures
        session_step(s, id, h, sd).0 == session_step(s, id, g, sd).0,
        session_step(s, id, h, sd).2 == session_step(s, id, g, sd).2,
        same_for(session_step(s, id, h, sd).1, session_step(s, id, g, sd).1, id),
{
    assert(h.oldest() == g.oldest());
    assert(h.delivery(id) == g.delivery(id));
}

proof fn lemma_run_same_for(s: SessionState, id: u64, h: HubView, g: HubView, n: nat)
    requires
        same_for(h, g, id),
    ensures
        run(s, id, h, n) == run(s, id, g, n),
    decreases n,
{
    if n > 0 {
        lemma_step_same_for(s, id, h, g, false);
        let (s2, h2, _) = session_step(s, id, h, false);
        let (t2, g2, _) = session_step(s, id, g, false);
        lemma_run_same_for(s2, id, h2, g2, (n - 1) as nat);
    }
}

/// Whatever one session's step does to its own cursor (a lag skipped, a
/// message read, a shutdown), what any other session reads afterwards is unchanged.
pub proof fn lemma_isolation(
    sa: SessionState,
    a: u64,
    sb: SessionState,
    b: u64,
    h: HubView,
    shutdown: bool,
    n: nat,
)
    requires
        a != b,
    ensures
        session_step(sa, a, h, shutdown).1.log == h.log,
        session_step(sa, a, h, shutdown).1.delivery(b) == h.delivery(b),
        run(sb, b, session_step(sa, a, h, shutdown).1, n) == run(sb, b, h, n),
{
    let h2 = session_step(sa, a, h, shutdown).1;
    assert(same_for(h2, h, b));
    assert(h2.oldest() == h.oldest());
    lemma_run_same_for(sb, b, h2, h, n);
}

/// A new subscription starts at the end of the log, and a cursor at or past
/// index `k` stays there through every publish, subscription and session step, and is
/// handed only messages at index `k` or later.
pub proof fn lemma_no_replay(
    h: HubView,
    id: u64,
    k: nat,
    m: Message,
    s: SessionState,
    other: u64,
    shutdown: bool,
)
    requires
        h.valid(),
        h.cursors.contains_key(id) ==> k <= h.cursors[id],
    ensures
        h.subscribe().cursors[h.next_id] == h.log.len(),
        h.publish(m).cursors.contains_key(id) ==> k <= h.publish(m).cursors[id],
        id < h.next_id ==> (h.subscribe().cursors.contains_key(id) ==> k
            <= h.subscribe().cursors[id]),
        other != id ==> (session_step(s, other, h, shutdown).1.cursors.contains_key(id) ==> k
            <= session_step(s, other, h, shutdown).1.cursors[id]),
        session_step(s, id, h, shutdown).1.cursors.contains_key(id) ==> k <= session_step(
            s,
            id,
            h,
            shutdown,
        ).1.cursors[id],
        session_step(s, id, h, shutdown).2 is Emit ==> {
            &&& h.cursors.contains_key(id)
            &&& k <= h.cursors[id] < h.log.len()
            &&& session_step(s, id, h, shutdown).2 == Action::Emit(h.log[h.cursors[id] as int])
        },
{
    if h.cursors.contains_key(id) {
        assert(h.cursors[id] <= h.log.len());
    }
}

/// Once shutdown is signalled, a session that is not closed ends in
/// that very step, even with a message ready, and unregisters its cursor; a closed session
/// never emits again.
pub proof fn lemma_shutdown_priority(
    s: SessionState,
    id: u64,
    h: HubView,
    later: HubView,
    shutdown_later: bool,
)
    ensures
        session_step(s, id, h, true).0 == SessionState::Closed,
        session_step(s, id, h, true).2 == Action::End,
        session_step(s, id, h, true).1.log == h.log,
        s != SessionState::Closed ==> !session_step(s, id, h, true).1.cursors.contains_key(id),
        session_step(SessionState::Closed, id, later, shutdown_later) == (
            SessionState::Closed,
            later,
            Action::End,
        ),
{
}

/// Publishing with no subscriber reaches no one, and a subscriber that
/// comes afterwards finds nothing to read.
pub proof fn lemma_fire_and_forget(h: HubView, m: Message)
    requires
        h.valid(),
        h.cursors.len() == 0,
        !h.closed,
        h.log.len() < u64::MAX,
    ensures
        h.publish(m).cursors.len() == 0,
        h.publish(m).subscribe().delivery(h.next_id) == Delivery::Empty,
{
}

} // verus!
