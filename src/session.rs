use vstd::prelude::*;

use crate::channel::{Received, StatusChannel};
use crate::message::StatusMessage;

verus! {

/// Where the presence session stands in its life.
#[derive(Clone, Copy, Debug, PartialEq, Eq, Structural)]
pub enum SessionState {
    /// The connection has not been brought up yet.
    Starting,
    /// The connection was started; waiting for its `Ready` event.
    AwaitingReady,
    /// Applying status messages as they arrive.
    Active,
    /// The producer is gone; waiting for the connection to wind down.
    Draining,
    /// Done.
    Terminated,
}

/// What the session's driver observed and hands to the session.
#[derive(Debug)]
pub enum SessionEvent {
    /// The driver is ready to bring the connection up.
    Begin,
    /// The connection reported that it is ready.
    Ready,
    /// A message arrived on the status channel.
    Message(StatusMessage),
    /// The status channel is closed and empty.
    Closed,
    /// The connection's background work has concluded.
    Joined,
    /// An informational notice (connected, disconnected, error) from the connection.
    Notice,
}

/// What the session asks its driver to do next.
#[derive(Debug)]
pub enum SessionAction {
    /// Start the connection, then wait for its `Ready` event.
    Connect,
    /// Wait for the next message on the status channel.
    Listen,
    /// Apply this message to the connection (set or clear the activity), then
    /// wait for the next message.
    Apply(StatusMessage),
    /// Block until the connection's background work concludes.
    Join,
    /// Stop: the session is over.
    Finish,
    /// Nothing to do; the state did not change.
    Idle,
}

/// The state after `e` arrives in state `s`.
pub open spec fn next_state(s: SessionState, e: SessionEvent) -> SessionState {
    match s {
        SessionState::Starting => if e is Begin {
            SessionState::AwaitingReady
        } else {
            s
        },
        SessionState::AwaitingReady => if e is Ready {
            SessionState::Active
        } else {
            s
        },
        SessionState::Active => if e is Closed {
            SessionState::Draining
        } else {
            s
        },
        SessionState::Draining => if e is Joined {
            SessionState::Terminated
        } else {
            s
        },
        SessionState::Terminated => s,
    }
}

/// The action asked for when `e` arrives in state `s`.
pub open spec fn action_of(s: SessionState, e: SessionEvent) -> SessionAction {
    match s {
        SessionState::Starting => if e is Begin {
            SessionAction::Connect
        } else {
            SessionAction::Idle
        },
        SessionState::AwaitingReady => if e is Ready {
            SessionAction::Listen
        } else {
            SessionAction::Idle
        },
        SessionState::Active => match e {
            SessionEvent::Message(m) => SessionAction::Apply(m),
            SessionEvent::Closed => SessionAction::Join,
            _ => SessionAction::Idle,
        },
        SessionState::Draining => if e is Joined {
            SessionAction::Finish
        } else {
            SessionAction::Idle
        },
        SessionState::Terminated => SessionAction::Idle,
    }
}

/// The state reached from `s` after the events in order.
pub open spec fn run_state(s: SessionState, events: Seq<SessionEvent>) -> SessionState
    decreases events.len(),
{
    if events.len() == 0 {
        s
    } else {
        run_state(next_state(s, events[0]), events.drop_first())
    }
}

/// The actions asked for from `s` over the events in order.
pub open spec fn run_actions(s: SessionState, events: Seq<SessionEvent>) -> Seq<SessionAction>
    decreases events.len(),
{
    if events.len() == 0 {
        Seq::empty()
    } else {
        seq![action_of(s, events[0])] + run_actions(next_state(s, events[0]), events.drop_first())
    }
}

/// The decisions of a presence session: which step comes next, given what its
/// driver observed. The driver owns the connection and the channel and
/// performs each action it is handed.
pub struct Session {
    state: SessionState,
}

impl View for Session {
    type V = SessionState;

    closed spec fn view(&self) -> SessionState {
        self.state
    }
}

impl Session {
    /// A session that has not started.
    pub fn new() -> (r: Session)
        ensures
            r@ == SessionState::Starting,
    {
        Session { state: SessionState::Starting }
    }

    /// The current state.
    pub fn state(&self) -> (r: SessionState)
        ensures
            r == self@,
    {
        self.state
    }

    /// Takes one event, moves to the next state and says what to do.
    pub fn handle(&mut self, e: SessionEvent) -> (r: SessionAction)
        ensures
            final(self)@ == next_state(old(self)@, e),
            r == action_of(old(self)@, e),
    {
        match self.state {
            SessionState::Starting => match e {
                SessionEvent::Begin => {
                    self.state = SessionState::AwaitingReady;
                    SessionAction::Connect
                },
                _ => SessionAction::Idle,
            },
            SessionState::AwaitingReady => match e {
                SessionEvent::Ready => {
                    self.state = SessionState::Active;
                    SessionAction::Listen
                },
                _ => SessionAction::Idle,
            },
            SessionState::Active => match e {
                SessionEvent::Message(m) => SessionAction::Apply(m),
                SessionEvent::Closed => {
                    self.state = SessionState::Draining;
                    SessionAction::Join
                },
                _ => SessionAction::Idle,
            },
            SessionState::Draining => match e {
                SessionEvent::Joined => {
                    self.state = SessionState::Terminated;
                    SessionAction::Finish
                },
                _ => SessionAction::Idle,
            },
            SessionState::Terminated => SessionAction::Idle,
        }
    }
}

impl Session {
    /// The step of an active session: takes the oldest waiting message off
    /// the channel and asks for it to be applied; on a closed, empty channel
    /// starts the drain and asks for the join; on an open, empty one returns
    /// `None`, and the driver waits for the producer before asking again.
    pub fn listen(&mut self, ch: &mut StatusChannel) -> (r: Option<SessionAction>)
        requires
            old(self)@ == SessionState::Active,
            old(ch).wf(),
        ensures
            final(ch).wf(),
            final(ch).sent() == old(ch).sent(),
            final(ch).is_closed() == old(ch).is_closed(),
            old(ch).pending().len() > 0 ==> {
                &&& final(self)@ == SessionState::Active
                &&& r is Some && r->Some_0 is Apply
                &&& r->Some_0->Apply_0@ == old(ch).pending()[0]
                &&& final(ch).pending() == old(ch).pending().drop_first()
                &&& final(ch).delivered() == old(ch).delivered().push(old(ch).pending()[0])
            },
            old(ch).pending().len() == 0 ==> {
                &&& final(ch).pending() == old(ch).pending()
                &&& final(ch).delivered() == old(ch).delivered()
                &&& old(ch).is_closed() ==> final(self)@ == SessionState::Draining && r == Some(
                    SessionAction::Join,
                )
                &&& !old(ch).is_closed() ==> final(self)@ == SessionState::Active && r is None
            },
    {
        match ch.try_recv() {
            Received::Message(m) => Some(self.handle(SessionEvent::Message(m))),
            Received::Closed => Some(self.handle(SessionEvent::Closed)),
            Received::Empty => None,
        }
    }
}

/// Running two runs of events one after the other is running their concatenation.
pub proof fn lemma_run_concat(s: SessionState, a: Seq<SessionEvent>, b: Seq<SessionEvent>)
    ensures
        run_state(s, a + b) == run_state(run_state(s, a), b),
        run_actions(s, a + b) == run_actions(s, a) + run_actions(run_state(s, a), b),
    decreases a.len(),
{
    if a.len() == 0 {
        assert(a + b =~= b);
        assert(run_actions(s, a) + run_actions(s, b) =~= run_actions(s, b));
    } else {
        assert((a + b).drop_first() =~= a.drop_first() + b);
        assert((a + b)[0] == a[0]);
        lemma_run_concat(next_state(s, a[0]), a.drop_first(), b);
        assert(run_actions(s, a + b) =~= run_actions(s, a) + run_actions(run_state(s, a), b));
    }
}

/// The events of a run of messages arriving on the channel.
pub open spec fn message_events(ms: Seq<StatusMessage>) -> Seq<SessionEvent> {
    ms.map_values(|m: StatusMessage| SessionEvent::Message(m))
}

/// The actions that apply a run of messages.
pub open spec fn apply_actions(ms: Seq<StatusMessage>) -> Seq<SessionAction> {
    ms.map_values(|m: StatusMessage| SessionAction::Apply(m))
}

/// While active, each message that arrives is applied, in order, one action
/// each, and the session stays active.
pub proof fn lemma_active_applies_each(ms: Seq<StatusMessage>)
    ensures
        run_state(SessionState::Active, message_events(ms)) == SessionState::Active,
        run_actions(SessionState::Active, message_events(ms)) == apply_actions(ms),
    decreases ms.len(),
{
    if ms.len() > 0 {
        assert(message_events(ms).drop_first() =~= message_events(ms.drop_first()));
        assert(apply_actions(ms) =~= seq![SessionAction::Apply(ms[0])] + apply_actions(
            ms.drop_first(),
        ));
        lemma_active_applies_each(ms.drop_first());
    } else {
        assert(apply_actions(ms) =~= Seq::<SessionAction>::empty());
    }
}

/// Closing the producer drains the session: from `Active`, every message
/// still to arrive is applied in order, the close moves the session to
/// `Draining` and asks for the join, and the join's end moves it to
/// `Terminated`.
pub proof fn lemma_close_drains(ms: Seq<StatusMessage>)
    ensures
        run_state(SessionState::Active, message_events(ms) + seq![SessionEvent::Closed])
            == SessionState::Draining,
        run_state(
            SessionState::Active,
            message_events(ms) + seq![SessionEvent::Closed, SessionEvent::Joined],
        ) == SessionState::Terminated,
        run_actions(
            SessionState::Active,
            message_events(ms) + seq![SessionEvent::Closed, SessionEvent::Joined],
        ) == apply_actions(ms) + seq![SessionAction::Join, SessionAction::Finish],
{
    let evs = message_events(ms);
    lemma_active_applies_each(ms);
    let tail1 = seq![SessionEvent::Closed];
    let tail2 = seq![SessionEvent::Closed, SessionEvent::Joined];
    lemma_run_concat(SessionState::Active, evs, tail1);
    lemma_run_concat(SessionState::Active, evs, tail2);
    let joined = seq![SessionEvent::Joined];
    let none = Seq::<SessionEvent>::empty();
    assert(tail1.drop_first() =~= none);
    assert(tail2.drop_first() =~= joined);
    assert(joined.drop_first() =~= none);
    assert(run_state(SessionState::Draining, none) == SessionState::Draining);
    assert(run_state(SessionState::Active, tail1) == SessionState::Draining);
    assert(run_state(SessionState::Terminated, none) == SessionState::Terminated);
    assert(run_state(SessionState::Draining, joined) == SessionState::Terminated);
    assert(run_state(SessionState::Active, tail2) == SessionState::Terminated);
    assert(run_actions(SessionState::Terminated, none) =~= Seq::<SessionAction>::empty());
    assert(run_actions(SessionState::Draining, joined) =~= seq![SessionAction::Finish]);
    assert(run_actions(SessionState::Active, tail2) =~= seq![
        SessionAction::Join,
        SessionAction::Finish,
    ]);
}

} // verus!
