use vstd::prelude::*;
use std::collections::HashMap;
use std::collections::VecDeque;
use crate::message::Message;

verus! {

broadcast use vstd::std_specs::hash::group_hash_axioms;

/// Capacity of the hub that the relay runs with.
pub const CAPACITY: usize = 1024;

/// Handle to one cursor registered in a hub, owned by one stream session.
pub struct Subscription {
    id: u64,
}

impl Subscription {
    pub closed spec fn key(self) -> u64 {
        self.id
    }
}

/// What a cursor yields when it is read.
#[derive(Debug)]
pub enum Delivery {
    /// The next message in publication order.
    Message(Message),
    /// The cursor fell behind the retained window; this many messages were lost to it.
    Lagged(u64),
    /// No message will ever come: the hub is closed, or the cursor is not registered.
    Closed,
    /// Nothing to read yet.
    Empty,
}

/// Publishing was refused because the hub is closed.
#[derive(PartialEq, Eq, Structural, Debug, Clone, Copy)]
pub struct HubClosed;

/// The abstract state of a hub.
pub struct HubView {
    /// Every message ever published, oldest first.
    pub log: Seq<Message>,
    /// How many of the latest messages stay readable.
    pub capacity: nat,
    pub closed: bool,
    /// For each registered subscription, the log index that it reads next.
    pub cursors: Map<u64, u64>,
    /// The id that the next subscription gets.
    pub next_id: u64,
}

impl HubView {
    /// Index of the oldest message still retained.
    pub open spec fn oldest(self) -> nat {
        if self.log.len() > self.capacity {
            (self.log.len() - self.capacity) as nat
        } else {
            0
        }
    }

    pub open spec fn publish(self, m: Message) -> HubView {
        HubView { log: self.log.push(m), ..self }
    }

    /// A new cursor positioned at "now": after every message published so far.
    pub open spec fn subscribe(self) -> HubView {
        HubView {
            cursors: self.cursors.insert(self.next_id, self.log.len() as u64),
            next_id: (self.next_id + 1) as u64,
            ..self
        }
    }

    pub open spec fn unsubscribe(self, id: u64) -> HubView {
        HubView { cursors: self.cursors.remove(id), ..self }
    }

    pub open spec fn close(self) -> HubView {
        HubView { closed: true, ..self }
    }

    /// What reading the cursor `id` yields.
    pub open spec fn delivery(self, id: u64) -> Delivery {
        if !self.cursors.contains_key(id) {
            Delivery::Closed
        } else if self.cursors[id] < self.oldest() {
            Delivery::Lagged((self.oldest() - self.cursors[id]) as u64)
        } else if self.cursors[id] < self.log.len() {
            Delivery::Message(self.log[self.cursors[id] as int])
        } else if self.closed {
            Delivery::Closed
        } else {
            Delivery::Empty
        }
    }

    /// The state after reading the cursor `id`: a lagging cursor jumps to the oldest
    /// retained message, a cursor with a message to read moves past it.
    pub open spec fn after_recv(self, id: u64) -> HubView {
        if !self.cursors.contains_key(id) {
            self
        } else if self.cursors[id] < self.oldest() {
            HubView { cursors: self.cursors.insert(id, self.oldest() as u64), ..self }
        } else if self.cursors[id] < self.log.len() {
            HubView { cursors: self.cursors.insert(id, (self.cursors[id] + 1) as u64), ..self }
        } else {
            self
        }
    }

    /// The properties every hub keeps.
    pub open spec fn valid(self) -> bool {
        &&& self.capacity > 0
        &&& self.log.len() <= u64::MAX
        &&& forall|id: u64| #[trigger]
            self.cursors.contains_key(id) ==> id < self.next_id && self.cursors[id]
                <= self.log.len()
    }
}

/// An in-memory broadcast ring: every registered cursor reads every message published
/// after it was registered, unless it falls more than `capacity` messages behind.
pub struct Hub {
    ring: VecDeque<Message>,
    capacity: usize,
    sent: u64,
    cursors: HashMap<u64, u64>,
    next_id: u64,
    closed: bool,
    log: Ghost<Seq<Message>>,
}

impl View for Hub {
    type V = HubView;

    closed spec fn view(&self) -> HubView {
        HubView {
            log: self.log@,
            capacity: self.capacity as nat,
            closed: self.closed,
            cursors: self.cursors@,
            next_id: self.next_id,
        }
    }
}

impl Hub {
    pub closed spec fn wf(&self) -> bool {
        &&& self@.valid()
        &&& self.sent as int == self.log@.len()
        &&& self.ring@ == self.log@.subrange(self@.oldest() as int, self.log@.len() as int)
    }

    pub fn new(capacity: usize) -> (h: Hub)
        requires
            capacity > 0,
        ensures
            h.wf(),
            h@.log == Seq::<Message>::empty(),
            h@.capacity == capacity,
            !h@.closed,
            h@.cursors == Map::<u64, u64>::empty(),
            h@.next_id == 0,
    {
        let h = Hub {
            ring: VecDeque::new(),
            capacity,
            sent: 0,
            cursors: HashMap::new(),
            next_id: 0,
            closed: false,
            log: Ghost(Seq::empty()),
        };
        assert(h.ring@ =~= h.log@.subrange(0, 0));
        h
    }

    proof fn lemma_valid(&self)
        requires
            self.wf(),
        ensures
            self@.valid(),
            self.ring@.len() == self@.log.len() - self@.oldest(),
            self.ring@.len() <= self.capacity,
    {
    }

    /// Appends `m` for every registered cursor and says how many there are. Never waits:
    /// when the ring is full its oldest entry gives way.
    pub fn publish(&mut self, m: Message) -> (r: Result<usize, HubClosed>)
        requires
            old(self).wf(),
            old(self)@.log.len() < u64::MAX,
        ensures
            final(self).wf(),
            old(self)@.closed ==> r == Err::<usize, HubClosed>(HubClosed) && final(self)@
                == old(self)@,
            !old(self)@.closed ==> r == Ok::<usize, HubClosed>(old(self)@.cursors.len() as usize)
                && final(self)@ == old(self)@.publish(m),
    {
        proof {
            self.lemma_valid();
        }
        if self.closed {
            return Err(HubClosed);
        }
        let ghost old_ring = self.ring@;
        let ghost old_log = self.log@;
        if self.ring.len() == self.capacity {
            self.ring.pop_front();
        }
        let ghost gm = m;
        self.ring.push_back(m);
        self.sent = self.sent + 1;
        self.log = Ghost(self.log@.push(gm));
        assert(self.ring@ =~= self.log@.subrange(self@.oldest() as int, self.log@.len() as int));
        assert forall|id: u64| #[trigger] self@.cursors.contains_key(id) implies id
            < self@.next_id && self@.cursors[id] <= self@.log.len() by {
            assert(old(self)@.cursors.contains_key(id));
        }
        Ok(self.cursors.len())
    }

    /// Registers a cursor positioned after every message published so far.
    pub fn subscribe(&mut self) -> (s: Subscription)
        requires
            old(self).wf(),
            old(self)@.next_id < u64::MAX,
        ensures
            final(self).wf(),
            s.key() == old(self)@.next_id,
            final(self)@ == old(self)@.subscribe(),
    {
        proof {
            self.lemma_valid();
        }
        let id = self.next_id;
        self.cursors.insert(id, self.sent);
        self.next_id = id + 1;
        assert forall|k: u64| #[trigger] self@.cursors.contains_key(k) implies k
            < self@.next_id && self@.cursors[k] <= self@.log.len() by {
            if k != id {
                assert(old(self)@.cursors.contains_key(k));
            }
        }
        Subscription { id }
    }

    /// Removes the cursor of `sub`.
    pub fn unsubscribe(&mut self, sub: Subscription)
        requires
            old(self).wf(),
        ensures
            final(self).wf(),
            final(self)@ == old(self)@.unsubscribe(sub.key()),
    {
        proof {
            self.lemma_valid();
        }
        self.cursors.remove(&sub.id);
        assert forall|k: u64| #[trigger] self@.cursors.contains_key(k) implies k
            < self@.next_id && self@.cursors[k] <= self@.log.len() by {
            assert(old(self)@.cursors.contains_key(k));
        }
    }

    /// Marks the hub closed: no message will be published any more.
    pub fn close(&mut self)
        requires
            old(self).wf(),
        ensures
            final(self).wf(),
            final(self)@ == old(self)@.close(),
    {
        proof {
            self.lemma_valid();
        }
        self.closed = true;
        assert(self@.cursors == old(self)@.cursors);
        assert(self@.oldest() == old(self)@.oldest());
    }

    /// Reads the cursor of `sub`; other cursors and the log stay as they are.
    pub fn recv(&mut self, sub: &Subscription) -> (r: Delivery)
        requires
            old(self).wf(),
        ensures
            final(self).wf(),
            r == old(self)@.delivery(sub.key()),
            final(self)@ == old(self)@.after_recv(sub.key()),
    {
        proof {
            self.lemma_valid();
        }
        let pos: u64 = match self.cursors.get(&sub.id) {
            None => {
                return Delivery::Closed;
            },
            Some(p) => *p,
        };
        let oldest: u64 = self.sent - self.ring.len() as u64;
        if pos < oldest {
            self.cursors.insert(sub.id, oldest);
            assert forall|k: u64| #[trigger] self@.cursors.contains_key(k) implies k
                < self@.next_id && self@.cursors[k] <= self@.log.len() by {
                if k != sub.id {
                    assert(old(self)@.cursors.contains_key(k));
                }
            }
            return Delivery::Lagged(oldest - pos);
        }
        if pos < self.sent {
            let m = self.ring[(pos - oldest) as usize].duplicate();
            self.cursors.insert(sub.id, pos + 1);
            assert forall|k: u64| #[trigger] self@.cursors.contains_key(k) implies k
                < self@.next_id && self@.cursors[k] <= self@.log.len() by {
                if k != sub.id {
                    assert(old(self)@.cursors.contains_key(k));
                }
            }
            return Delivery::Message(m);
        }
        if self.closed {
            Delivery::Closed
        } else {
            Delivery::Empty
        }
    }

    /// How many messages have been published.
    pub fn published(&self) -> (r: u64)
        requires
            self.wf(),
        ensures
            r == self@.log.len(),
    {
        self.sent
    }

    /// The id that the next subscription gets.
    pub fn next_id(&self) -> (r: u64)
        ensures
            r == self@.next_id,
    {
        self.next_id
    }

    /// How many cursors are registered.
    pub fn subscriber_count(&self) -> (r: usize)
        ensures
            r == self@.cursors.len(),
    {
        self.cursors.len()
    }

    pub fn capacity(&self) -> (r: usize)
        ensures
            r == self@.capacity,
    {
        self.capacity
    }

    pub fn is_closed(&self) -> (r: bool)
        ensures
            r == self@.closed,
    {
        self.closed
    }
}

} // verus!
