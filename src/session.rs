use vstd::prelude::*;
use crate::hub::{Delivery, Hub, HubView, Subscription};
use crate::message::Message;

verus! {

/// Lifecycle of one streaming connection.
#[derive(PartialEq, Eq, Structural, Debug, Clone, Copy)]
pub enum SessionState {
    /// Subscribed, nothing read yet.
    Open,
    /// In the steady read loop.
    Streaming,
    /// Terminal: the cursor is unregistered and the stream has ended.
    Closed,
}

/// What the connection does after one step of its session.
#[derive(Debug)]
pub enum Action {
    /// Send this message as one server-push event, then step again.
    Emit(Message),
    /// A lag was absorbed silently: step again.
    Skip,
    /// Nothing to read: wait for a new message or for shutdown, then step again.
    Wait,
    /// End the stream.
    End,
}

/// The next state, hub and action of a session in state `s` that reads cursor `id`,
/// given whether shutdown has been signalled. Shutdown is looked at before the cursor.
pub open spec fn session_step(s: SessionState, id: u64, h: HubView, shutdown: bool) -> (
    SessionState,
    HubView,
    Action,
) {
    if s == SessionState::Closed {
        (SessionState::Closed, h, Action::End)
    } else if shutdown {
        (SessionState::Closed, h.unsubscribe(id), Action::End)
    } else {
        match h.delivery(id) {
            Delivery::Message(m) => (SessionState::Streaming, h.after_recv(id), Action::Emit(m)),
            Delivery::Lagged(_) => (SessionState::Streaming, h.after_recv(id), Action::Skip),
            Delivery::Empty => (SessionState::Streaming, h, Action::Wait),
            Delivery::Closed => (SessionState::Closed, h.unsubscribe(id), Action::End),
        }
    }
}

/// The per-connection state: a subscription to the hub and where the stream stands.
pub struct Session {
    state: SessionState,
    id: u64,
    sub: Option<Subscription>,
}

impl Session {
    pub closed spec fn state_spec(&self) -> SessionState {
        self.state
    }

    /// The id of the cursor this session reads.
    pub closed spec fn id(&self) -> u64 {
        self.id
    }

    pub closed spec fn wf(&self) -> bool {
        &&& (self.sub is Some <==> self.state != SessionState::Closed)
        &&& (self.sub matches Some(s) ==> s.key() == self.id)
    }

    /// Subscribes to `hub` and enters `Open`.
    pub fn open(hub: &mut Hub) -> (s: Session)
        requires
            old(hub).wf(),
            old(hub)@.next_id < u64::MAX,
        ensures
            final(hub).wf(),
            s.wf(),
            s.state_spec() == SessionState::Open,
            s.id() == old(hub)@.next_id,
            final(hub)@ == old(hub)@.subscribe(),
    {
        let sub = hub.subscribe();
        let id = hub.next_id() - 1;
        Session { state: SessionState::Open, id, sub: Some(sub) }
    }

    /// One turn of the stream loop; `shutdown` says whether shutdown has been signalled,
    /// and takes priority over a message that is ready.
    pub fn step(&mut self, hub: &mut Hub, shutdown: bool) -> (r: Action)
        requires
            old(hub).wf(),
            old(self).wf(),
        ensures
            final(hub).wf(),
            final(self).wf(),
            final(self).id() == old(self).id(),
            (final(self).state_spec(), final(hub)@, r) == session_step(
                old(self).state_spec(),
                old(self).id(),
                old(hub)@,
                shutdown,
            ),
    {
        if self.state == SessionState::Closed {
            return Action::End;
        }
        let sub = match self.sub.take() {
            Some(s) => s,
            None => {
                return Action::End;
            },
        };
        if shutdown {
            hub.unsubscribe(sub);
            self.state = SessionState::Closed;
            return Action::End;
        }
        let d = hub.recv(&sub);
        match d {
            Delivery::Message(m) => {
                self.sub = Some(sub);
                self.state = SessionState::Streaming;
                Action::Emit(m)
            },
            Delivery::Lagged(_) => {
                self.sub = Some(sub);
                self.state = SessionState::Streaming;
                Action::Skip
            },
            Delivery::Empty => {
                self.sub = Some(sub);
                self.state = SessionState::Streaming;
                Action::Wait
            },
            Delivery::Closed => {
                hub.unsubscribe(sub);
                self.state = SessionState::Closed;
                Action::End
            },
        }
    }

    pub fn state(&self) -> (r: SessionState)
        ensures
            r == self.state_spec(),
    {
        self.state
    }
}

} // verus!
