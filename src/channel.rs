use std::collections::VecDeque;
use vstd::prelude::*;

use crate::message::StatusMessage;

verus! {

/// The views of a run of messages.
pub open spec fn views_of(ms: Seq<StatusMessage>) -> Seq<Option<Seq<char>>> {
    ms.map_values(|m: StatusMessage| m@)
}

/// What a receive attempt hands the consumer.
#[derive(Debug)]
pub enum Received {
    /// The oldest message that was sent and not yet received.
    Message(StatusMessage),
    /// Nothing is waiting, but the producer may still send.
    Empty,
    /// Nothing is waiting and the producer is gone: the drain signal.
    Closed,
}

/// An ordered, unbounded, single-producer/single-consumer handoff of status
/// messages that closes when the producer is done.
pub struct StatusChannel {
    pending: VecDeque<StatusMessage>,
    closed: bool,
    sent: Ghost<Seq<Option<Seq<char>>>>,
    delivered: Ghost<Seq<Option<Seq<char>>>>,
}

impl StatusChannel {
    /// Every message accepted by `send`, in the order sent.
    pub closed spec fn sent(&self) -> Seq<Option<Seq<char>>> {
        self.sent@
    }

    /// Every message handed to the consumer, in the order received.
    pub closed spec fn delivered(&self) -> Seq<Option<Seq<char>>> {
        self.delivered@
    }

    /// The messages waiting, oldest first.
    pub closed spec fn pending(&self) -> Seq<Option<Seq<char>>> {
        views_of(self.pending@)
    }

    /// Whether the producer side has been closed.
    pub closed spec fn is_closed(&self) -> bool {
        self.closed
    }

    /// What was delivered and what waits make up exactly what was sent.
    pub closed spec fn wf(&self) -> bool {
        self.sent@ == self.delivered@ + views_of(self.pending@)
    }

    /// An open channel with nothing sent.
    pub fn new() -> (r: StatusChannel)
        ensures
            r.wf(),
            !r.is_closed(),
            r.sent() == Seq::<Option<Seq<char>>>::empty(),
            r.delivered() == Seq::<Option<Seq<char>>>::empty(),
            r.pending() == Seq::<Option<Seq<char>>>::empty(),
    {
        let r = StatusChannel {
            pending: VecDeque::new(),
            closed: false,
            sent: Ghost(Seq::empty()),
            delivered: Ghost(Seq::empty()),
        };
        assert(views_of(r.pending@) =~= Seq::<Option<Seq<char>>>::empty());
        r
    }

    /// Queues `m` behind everything sent before it. On a closed channel the
    /// message is refused and handed back.
    pub fn send(&mut self, m: StatusMessage) -> (r: Result<(), StatusMessage>)
        requires
            old(self).wf(),
        ensures
            final(self).wf(),
            final(self).is_closed() == old(self).is_closed(),
            final(self).delivered() == old(self).delivered(),
            old(self).is_closed() ==> r == Err::<(), StatusMessage>(m) && final(self).sent()
                == old(self).sent() && final(self).pending() == old(self).pending(),
            !old(self).is_closed() ==> r is Ok && final(self).sent() == old(self).sent().push(m@)
                && final(self).pending() == old(self).pending().push(m@),
    {
        if self.closed {
            return Err(m);
        }
        let ghost mv = m@;
        let ghost old_pending = self.pending@;
        self.pending.push_back(m);
        self.sent = Ghost(self.sent@.push(mv));
        assert(views_of(self.pending@) =~= views_of(old_pending).push(mv));
        assert(self.sent@ =~= self.delivered@ + views_of(self.pending@));
        Ok(())
    }

    /// Marks the producer side as done. Messages already sent stay to be received.
    pub fn close(&mut self)
        requires
            old(self).wf(),
        ensures
            final(self).wf(),
            final(self).is_closed(),
            final(self).sent() == old(self).sent(),
            final(self).delivered() == old(self).delivered(),
            final(self).pending() == old(self).pending(),
    {
        self.closed = true;
    }

    /// Takes the oldest waiting message; where none waits, says whether more may come.
    pub fn try_recv(&mut self) -> (r: Received)
        requires
            old(self).wf(),
        ensures
            final(self).wf(),
            final(self).is_closed() == old(self).is_closed(),
            final(self).sent() == old(self).sent(),
            old(self).pending().len() > 0 ==> r is Message && r->Message_0@ == old(
                self,
            ).pending()[0] && final(self).pending() == old(self).pending().drop_first()
                && final(self).delivered() == old(self).delivered().push(old(self).pending()[0]),
            old(self).pending().len() == 0 ==> final(self).pending() == old(self).pending()
                && final(self).delivered() == old(self).delivered() && (r is Closed
                <==> old(self).is_closed()) && (r is Empty <==> !old(self).is_closed()),
    {
        let ghost old_pending = self.pending@;
        match self.pending.pop_front() {
            Some(m) => {
                let ghost mv = m@;
                self.delivered = Ghost(self.delivered@.push(mv));
                assert(views_of(self.pending@) =~= views_of(old_pending).drop_first());
                assert(self.sent@ =~= self.delivered@ + views_of(self.pending@));
                Received::Message(m)
            },
            None => {
                if self.closed {
                    Received::Closed
                } else {
                    Received::Empty
                }
            },
        }
    }

    /// Whether the producer side has been closed.
    pub fn closed(&self) -> (r: bool)
        ensures
            r == self.is_closed(),
    {
        self.closed
    }

    /// The number of messages waiting.
    pub fn len(&self) -> (r: usize)
        ensures
            r == self.pending().len(),
    {
        self.pending.len()
    }
}

/// Order is kept and nothing is lost: at every moment the messages received so
/// far are the first ones sent, in the order sent, and the rest wait in that
/// order; once the producer is closed and nothing waits, every message sent has
/// been received.
pub proof fn lemma_channel_fifo(ch: &StatusChannel)
    requires
        ch.wf(),
    ensures
        ch.delivered().len() <= ch.sent().len(),
        ch.delivered() == ch.sent().take(ch.delivered().len() as int),
        ch.pending() == ch.sent().skip(ch.delivered().len() as int),
        ch.is_closed() && ch.pending().len() == 0 ==> ch.delivered() == ch.sent(),
{
    let d = ch.delivered@;
    let p = views_of(ch.pending@);
    assert((d + p).take(d.len() as int) =~= d);
    assert((d + p).skip(d.len() as int) =~= p);
    if p.len() == 0 {
        assert(d + p =~= d);
    }
}

} // verus!
