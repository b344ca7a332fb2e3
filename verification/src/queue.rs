//! Bounded single-producer/single-consumer packet queue.
//!
//! One queue carries one relay direction.  A full queue refuses the packet
//! and hands it back to the producer, which therefore waits instead of
//! dropping anything: this is the system's backpressure.  Closing the
//! producer side is the sole termination signal for the consumer, which
//! still drains whatever was accepted before the close.
//!
//! The queue keeps two ghost histories, of everything it ever accepted and
//! of everything it ever delivered.  Its well-formedness ties them together:
//! the accepted packets are exactly the delivered ones followed by the ones
//! still buffered, in order.  Conservation (no packet is lost) and FIFO
//! delivery are corollaries, stated as the lemmas at the end.

use vstd::prelude::*;

verus! {

/// What became of a packet offered to [`PacketQueue::push`].
pub enum PushOutcome {
    /// The queue took the packet.
    Accepted,
    /// The queue is at capacity; the packet comes back untouched and the
    /// producer must wait for the consumer to drain.
    Full { packet: Vec<u8> },
    /// The queue was closed; the packet comes back untouched.
    Closed { packet: Vec<u8> },
}

/// What [`PacketQueue::pop`] found.
pub enum PopOutcome {
    /// The oldest buffered packet.
    Packet(Vec<u8>),
    /// Nothing buffered yet, but the producer may still send: wait.
    Empty,
    /// Nothing buffered and the producer is gone: end of this direction.
    Disconnected,
}

/// A byte vector's deep view is its view.
proof fn lemma_bytes_deep_view(v: Vec<u8>)
    ensures
        v.deep_view() == v@,
{
    assert(v.deep_view() =~= v@);
}

/// A bounded FIFO of whole IP packets, one per relay direction.
pub struct PacketQueue {
    items: Vec<Vec<u8>>,
    capacity: usize,
    closed: bool,
    accepted: Ghost<Seq<Seq<u8>>>,
    delivered: Ghost<Seq<Seq<u8>>>,
}

impl View for PacketQueue {
    type V = Seq<Seq<u8>>;

    /// The buffered packets, oldest first.
    closed spec fn view(&self) -> Seq<Seq<u8>> {
        self.items.deep_view()
    }
}

impl PacketQueue {
    /// Bound the producer may fill up to.
    pub closed spec fn capacity(self) -> usize {
        self.capacity
    }

    /// Whether the producer side has been closed.
    pub closed spec fn is_closed(self) -> bool {
        self.closed
    }

    /// Every packet the queue ever accepted, oldest first.
    pub closed spec fn accepted(self) -> Seq<Seq<u8>> {
        self.accepted@
    }

    /// Every packet the queue ever delivered, oldest first.
    pub closed spec fn delivered(self) -> Seq<Seq<u8>> {
        self.delivered@
    }

    /// Well-formedness: the queue never overfills, and its whole history is
    /// conserved — accepted = delivered ++ buffered.
    pub closed spec fn wf(self) -> bool {
        &&& 0 < self.capacity
        &&& self@.len() <= self.capacity
        &&& self.delivered@ + self@ == self.accepted@
    }

    /// An empty open queue with the given bound.
    pub fn new(capacity: usize) -> (q: PacketQueue)
        requires
            0 < capacity,
        ensures
            q.wf(),
            q@ == Seq::<Seq<u8>>::empty(),
            q.capacity() == capacity,
            !q.is_closed(),
            q.accepted() == Seq::<Seq<u8>>::empty(),
            q.delivered() == Seq::<Seq<u8>>::empty(),
    {
        let q = PacketQueue {
            items: Vec::new(),
            capacity,
            closed: false,
            accepted: Ghost(Seq::empty()),
            delivered: Ghost(Seq::empty()),
        };
        assert(q@ =~= Seq::<Seq<u8>>::empty());
        assert(q.delivered@ + q@ =~= q.accepted@);
        q
    }

    /// Offers a packet.  A full queue keeps its contents unchanged and
    /// returns the packet, so nothing already accepted is displaced and the
    /// offered packet is not lost either; the producer suspends on it.
    pub fn push(&mut self, packet: Vec<u8>) -> (r: PushOutcome)
        requires
            old(self).wf(),
        ensures
            final(self).wf(),
            final(self).capacity() == old(self).capacity(),
            final(self).is_closed() == old(self).is_closed(),
            final(self).delivered() == old(self).delivered(),
            old(self).is_closed() ==> {
                &&& (r matches PushOutcome::Closed { packet: p } && p == packet)
                &&& final(self)@ == old(self)@
                &&& final(self).accepted() == old(self).accepted()
            },
            !old(self).is_closed() && old(self)@.len() == old(self).capacity() ==> {
                &&& (r matches PushOutcome::Full { packet: p } && p == packet)
                &&& final(self)@ == old(self)@
                &&& final(self).accepted() == old(self).accepted()
            },
            !old(self).is_closed() && old(self)@.len() < old(self).capacity() ==> {
                &&& r is Accepted
                &&& final(self)@ == old(self)@.push(packet@)
                &&& final(self).accepted() == old(self).accepted().push(packet@)
            },
    {
        let ghost p_view = packet@;
        proof {
            lemma_bytes_deep_view(packet);
        }
        if self.closed {
            return PushOutcome::Closed { packet };
        }
        if self.items.len() == self.capacity {
            return PushOutcome::Full { packet };
        }
        self.items.push(packet);
        proof {
            self.accepted@ = self.accepted@.push(p_view);
        }
        assert(self@ =~= old(self)@.push(p_view));
        assert(self.delivered@ + self@ =~= self.accepted@);
        PushOutcome::Accepted
    }

    /// Takes the oldest buffered packet.  Buffered packets are still
    /// delivered after a close; only an empty closed queue reports the end.
    pub fn pop(&mut self) -> (r: PopOutcome)
        requires
            old(self).wf(),
        ensures
            final(self).wf(),
            final(self).capacity() == old(self).capacity(),
            final(self).is_closed() == old(self).is_closed(),
            final(self).accepted() == old(self).accepted(),
            old(self)@.len() > 0 ==> {
                &&& (r matches PopOutcome::Packet(p) && p@ == old(self)@[0])
                &&& final(self)@ == old(self)@.drop_first()
                &&& final(self).delivered() == old(self).delivered().push(old(self)@[0])
            },
            old(self)@.len() == 0 ==> {
                &&& final(self)@ == old(self)@
                &&& final(self).delivered() == old(self).delivered()
                &&& (old(self).is_closed() ==> r is Disconnected)
                &&& (!old(self).is_closed() ==> r is Empty)
            },
    {
        if self.items.len() == 0 {
            if self.closed {
                return PopOutcome::Disconnected;
            }
            return PopOutcome::Empty;
        }
        let packet = self.items.remove(0);
        proof {
            lemma_bytes_deep_view(packet);
            self.delivered@ = self.delivered@.push(packet@);
        }
        assert(self@ =~= old(self)@.drop_first());
        assert(self.delivered@ + self@ =~= self.accepted@);
        PopOutcome::Packet(packet)
    }

    /// Closes the producer side.  The consumer drains the rest and then
    /// sees [`PopOutcome::Disconnected`]; no other signal exists.
    pub fn close(&mut self)
        requires
            old(self).wf(),
        ensures
            final(self).wf(),
            final(self)@ == old(self)@,
            final(self).capacity() == old(self).capacity(),
            final(self).is_closed(),
            final(self).accepted() == old(self).accepted(),
            final(self).delivered() == old(self).delivered(),
    {
        self.closed = true;
    }

    /// How many packets are buffered right now.
    pub fn len(&self) -> (n: usize)
        ensures
            n == self@.len(),
    {
        self.items.len()
    }

    /// Whether a push would currently report [`PushOutcome::Full`].
    pub fn is_full(&self) -> (b: bool)
        ensures
            b == (self@.len() == self.capacity()),
    {
        self.items.len() == self.capacity
    }
}

/// Backpressure, not drop: at every moment, the packets a queue accepted are
/// exactly the ones it delivered followed by the ones still buffered — no
/// accepted packet is ever discarded.
pub proof fn lemma_queue_conservation(q: PacketQueue)
    requires
        q.wf(),
    ensures
        q.accepted() == q.delivered() + q@,
{
}

/// Order preservation: delivery is FIFO — what the consumer has seen is
/// exactly the oldest prefix of what the producer got accepted, in order and
/// byte for byte.
pub proof fn lemma_queue_fifo(q: PacketQueue)
    requires
        q.wf(),
    ensures
        q.delivered() == q.accepted().take(q.delivered().len() as int),
        q.delivered().len() + q@.len() == q.accepted().len(),
{
    assert(q.delivered() =~= (q.delivered() + q@).take(q.delivered().len() as int));
}

} // verus!
