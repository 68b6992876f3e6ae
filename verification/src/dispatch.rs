//! The dispatch channel: an ordered, exactly-once-consumed conduit between
//! the front end and the executor.
//!
//! Each `send` wraps a command in an envelope with a fresh ticket, queues
//! it, and hands the caller a `PendingResult` naming that ticket. The
//! executor side takes envelopes with `recv`, strictly in send order, and
//! publishes each outcome with `complete`; the caller may later collect it
//! through `take_reply`, or drop the handle and never look — neither
//! choice affects delivery or execution.
//!
//! Two ghost histories, everything ever sent and everything delivered so
//! far, make the guarantees stateable: delivery is always the initial
//! segment of the send history (FIFO), and tickets are distinct, so no
//! envelope can be consumed twice.

use vstd::prelude::*;
use crate::command::ConnectOpts;
use crate::executor::BackendError;

verus! {

/// One queued command together with its ticket.
#[derive(Debug)]
pub struct Envelope {
    /// The ticket: the position of this envelope in the send history.
    pub id: u64,
    /// The command to execute.
    pub cmd: ConnectOpts,
}

/// The reply handle a sender gets back: a ticket it may later redeem for
/// the outcome, or simply drop.
#[derive(Debug, Clone, Copy)]
pub struct PendingResult {
    pub id: u64,
}

/// One published outcome, keyed by its ticket.
#[derive(Debug)]
pub struct Reply {
    pub id: u64,
    pub outcome: Result<String, BackendError>,
}

/// The dispatch channel itself.
pub struct Dispatcher {
    /// Envelopes sent and not yet delivered, oldest first.
    pub queue: Vec<Envelope>,
    /// Outcomes published and not yet collected.
    pub replies: Vec<Reply>,
    /// The ticket the next send will use.
    pub next_id: u64,
    /// Everything ever sent, in send order.
    pub sent: Ghost<Seq<Envelope>>,
    /// Everything delivered to the executor so far, in delivery order.
    pub delivered: Ghost<Seq<Envelope>>,
}

impl Dispatcher {
    /// The channel invariant: the send history splits into what was
    /// delivered followed by what still waits, and each envelope's ticket
    /// is its position in the send history, so tickets are distinct.
    pub open spec fn wf(&self) -> bool {
        &&& self.sent@ == self.delivered@ + self.queue@
        &&& self.sent@.len() == self.next_id
        &&& forall|i: int|
            0 <= i < self.sent@.len() ==> (#[trigger] self.sent@[i]).id == i
    }

    /// An empty channel: nothing sent, delivered or published.
    pub fn new() -> (d: Dispatcher)
        ensures
            d.wf(),
            d.sent@ == Seq::<Envelope>::empty(),
            d.delivered@ == Seq::<Envelope>::empty(),
            d.queue@ == Seq::<Envelope>::empty(),
            d.replies@ == Seq::<Reply>::empty(),
            d.next_id == 0,
    {
        let d = Dispatcher {
            queue: Vec::new(),
            replies: Vec::new(),
            next_id: 0,
            sent: Ghost(Seq::empty()),
            delivered: Ghost(Seq::empty()),
        };
        proof {
            assert(d.sent@ =~= d.delivered@ + d.queue@);
        }
        d
    }

    /// Send one command: it is appended to the queue under a fresh
    /// ticket, and the handle for that ticket is returned. Non-blocking:
    /// nothing is executed here.
    pub fn send(&mut self, cmd: ConnectOpts) -> (h: PendingResult)
        requires
            old(self).wf(),
            old(self).next_id < u64::MAX,
        ensures
            final(self).wf(),
            h.id == old(self).next_id,
            final(self).sent@ == old(self).sent@.push((Envelope { id: h.id, cmd })),
            final(self).queue@ == old(self).queue@.push((Envelope { id: h.id, cmd })),
            final(self).delivered@ == old(self).delivered@,
            final(self).replies@ == old(self).replies@,
            final(self).next_id == old(self).next_id + 1,
    {
        let id = self.next_id;
        let env = Envelope { id, cmd };
        self.sent = Ghost(self.sent@.push(Envelope { id, cmd: env.cmd }));
        self.queue.push(env);
        self.next_id = id + 1;
        proof {
            assert(self.sent@ =~= self.delivered@ + self.queue@);
        }
        PendingResult { id }
    }

    /// Deliver the oldest waiting envelope to the caller, or report an
    /// empty queue. Each envelope is handed out exactly once: delivery
    /// moves it from the queue to the delivery history.
    pub fn recv(&mut self) -> (r: Option<Envelope>)
        requires
            old(self).wf(),
        ensures
            final(self).wf(),
            old(self).queue@.len() == 0 ==> r is None && *final(self) == *old(self),
            old(self).queue@.len() > 0 ==> (r matches Some(env) && env == old(self).queue@[0]
                && final(self).queue@ == old(self).queue@.drop_first()
                && final(self).delivered@ == old(self).delivered@.push(old(self).queue@[0])
                && final(self).sent@ == old(self).sent@
                && final(self).replies@ == old(self).replies@
                && final(self).next_id == old(self).next_id),
    {
        if self.queue.len() == 0 {
            return None;
        }
        let env = self.queue.remove(0);
        self.delivered = Ghost(self.delivered@.push(Envelope { id: env.id, cmd: env.cmd }));
        proof {
            assert(old(self).queue@.remove(0) =~= old(self).queue@.drop_first());
            assert(self.sent@ =~= self.delivered@ + self.queue@);
        }
        Some(env)
    }

    /// Publish the outcome of one executed command under its ticket, for
    /// the sender to collect if it still cares.
    pub fn complete(&mut self, id: u64, outcome: Result<String, BackendError>)
        requires
            old(self).wf(),
        ensures
            final(self).wf(),
            final(self).replies@ == old(self).replies@.push((Reply { id, outcome })),
            final(self).queue@ == old(self).queue@,
            final(self).sent@ == old(self).sent@,
            final(self).delivered@ == old(self).delivered@,
            final(self).next_id == old(self).next_id,
    {
        self.replies.push(Reply { id, outcome });
    }

    /// Redeem a reply handle: if an outcome was published under its
    /// ticket, the earliest such outcome is removed and returned;
    /// otherwise nothing changes and `None` says the reply is not (or no
    /// longer) there.
    pub fn take_reply(&mut self, h: &PendingResult) -> (r: Option<Result<String, BackendError>>)
        requires
            old(self).wf(),
        ensures
            final(self).wf(),
            final(self).queue@ == old(self).queue@,
            final(self).sent@ == old(self).sent@,
            final(self).delivered@ == old(self).delivered@,
            final(self).next_id == old(self).next_id,
            r is None ==> final(self).replies@ == old(self).replies@ && (forall|i: int|
                0 <= i < old(self).replies@.len() ==> (#[trigger] old(self).replies@[i]).id
                    != h.id),
            r matches Some(out) ==> (exists|i: int|
                0 <= i < old(self).replies@.len() && (#[trigger] old(self).replies@[i]).id == h.id
                    && out == old(self).replies@[i].outcome && final(self).replies@ == old(
                    self,
                ).replies@.remove(i)),
    {
        let mut i: usize = 0;
        while i < self.replies.len()
            invariant
                i <= self.replies.len(),
                *self == *old(self),
                self.wf(),
                forall|j: int| 0 <= j < i ==> (#[trigger] self.replies@[j]).id != h.id,
            decreases self.replies.len() - i,
        {
            if self.replies[i].id == h.id {
                let reply = self.replies.remove(i);
                return Some(reply.outcome);
            }
            i += 1;
        }
        None
    }
}

/// Dispatch preserves order: what the executor has observed is always the
/// initial segment of what was sent, in send order. In particular, of two
/// commands sent by one front end, the first is delivered before the
/// second.
pub proof fn lemma_dispatch_preserves_order(d: Dispatcher)
    requires
        d.wf(),
    ensures
        d.delivered@.len() <= d.sent@.len(),
        d.delivered@ == d.sent@.take(d.delivered@.len() as int),
{
    assert(d.delivered@ =~= d.sent@.take(d.delivered@.len() as int));
}

/// Delivery is exactly-once: tickets are distinct across the whole send
/// history, so no envelope can occur twice in it, nor be delivered twice.
pub proof fn lemma_tickets_distinct(d: Dispatcher, i: int, j: int)
    requires
        d.wf(),
        0 <= i < d.sent@.len(),
        0 <= j < d.sent@.len(),
        i != j,
    ensures
        d.sent@[i].id != d.sent@[j].id,
{
}

} // verus!
