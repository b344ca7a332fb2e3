//! Packet relay engine: directional pumps and the joint-shutdown rule.
//!
//! A relay drives two independent directional pumps.  Each pump repeatedly
//! takes a read event from its source and either forwards the packet toward
//! the opposite sink, absorbs a transient read error, or terminates.  The
//! policies differ by source: the virtual interface absorbs per-packet read
//! errors, while a transport read failure usually means the peer is gone and
//! ends the direction.  Write failures and an exhausted source always end a
//! pump; a pump that stops is expected to close its sink, so the opposite
//! end sees end-of-stream rather than a stall.
//!
//! Termination is joint: the relay completes as soon as either pump
//! finishes, and the other pump is canceled — a relay never runs one
//! direction forever after the other has irrecoverably stopped.  The spec
//! functions at the bottom state that rule over whole event traces.

use vstd::prelude::*;

use crate::queue::PacketQueue;
use crate::queue::lemma_queue_fifo;

verus! {

/// Packets a relay direction may hold in flight before its producer must
/// wait.
pub const RELAY_QUEUE_CAPACITY: usize = 128;

/// What a pump's source produced, ghost form.
pub enum SpecReadEvent {
    /// One whole packet arrived.
    Packet(Seq<u8>),
    /// The source ended normally (peer closed, channel dropped).
    Closed,
    /// Reading failed.
    Failed,
}

/// What a pump's source produced.
pub enum ReadEvent {
    /// One whole packet arrived.
    Packet(Vec<u8>),
    /// The source ended normally (peer closed, channel dropped).
    Closed,
    /// Reading failed.
    Failed,
}

impl View for ReadEvent {
    type V = SpecReadEvent;

    open spec fn view(&self) -> SpecReadEvent {
        match self {
            ReadEvent::Packet(p) => SpecReadEvent::Packet(p@),
            ReadEvent::Closed => SpecReadEvent::Closed,
            ReadEvent::Failed => SpecReadEvent::Failed,
        }
    }
}

/// What kind of source a reading pump drains.
#[derive(Clone, Copy, Debug, PartialEq, Eq, Structural)]
pub enum SourceKind {
    /// The virtual network interface: per-packet read errors are logged and
    /// absorbed, they never terminate the adapter.
    Device,
    /// The framed tunnel stream: a read failure means the peer is gone and
    /// ends the direction.
    Transport,
}

/// What the pump tells its driver to do with the event just taken.
pub enum PumpAction {
    /// Forward this packet toward the opposite sink.
    Deliver(Vec<u8>),
    /// Ignore the event and keep pumping.
    Skip,
    /// This pump is finished; close the sink it was feeding.
    Stop,
}

/// One pump step: whether the pump terminates on this event, and the packet
/// it forwards, if any.
pub open spec fn reader_step(kind: SourceKind, ev: SpecReadEvent) -> (bool, Option<Seq<u8>>) {
    match ev {
        SpecReadEvent::Packet(p) => (false, Some(p)),
        SpecReadEvent::Closed => (true, None),
        SpecReadEvent::Failed => (
            match kind {
                SourceKind::Device => false,
                SourceKind::Transport => true,
            },
            None,
        ),
    }
}

/// A directional reading pump: drains one source and forwards whole packets
/// toward the opposite sink, in arrival order.
pub struct ReaderPump {
    /// Which termination policy applies to read failures.
    pub kind: SourceKind,
    /// Whether this pump has terminated.
    pub done: bool,
    /// Every packet this pump has forwarded, oldest first.
    pub delivered: Ghost<Seq<Seq<u8>>>,
}

impl ReaderPump {
    /// A fresh pump for the given source.
    pub fn new(kind: SourceKind) -> (p: ReaderPump)
        ensures
            p.kind == kind,
            !p.done,
            p.delivered@ == Seq::<Seq<u8>>::empty(),
    {
        ReaderPump { kind, done: false, delivered: Ghost(Seq::empty()) }
    }

    /// Feeds the pump one read event and follows [`reader_step`] exactly:
    /// a packet is forwarded unmodified and appended to the delivery
    /// history; a normal close terminates; a read failure terminates a
    /// transport pump and is absorbed by a device pump.
    pub fn on_event(&mut self, ev: ReadEvent) -> (a: PumpAction)
        requires
            !old(self).done,
        ensures
            final(self).kind == old(self).kind,
            final(self).done == reader_step(old(self).kind, ev@).0,
            (match reader_step(old(self).kind, ev@).1 {
                Some(p) => {
                    &&& (a matches PumpAction::Deliver(q) && q@ == p)
                    &&& final(self).delivered@ == old(self).delivered@.push(p)
                },
                None => {
                    &&& (final(self).done ==> a is Stop)
                    &&& (!final(self).done ==> a is Skip)
                    &&& final(self).delivered@ == old(self).delivered@
                },
            }),
    {
        match ev {
            ReadEvent::Packet(p) => {
                self.delivered = Ghost(self.delivered@.push(p@));
                PumpAction::Deliver(p)
            },
            ReadEvent::Closed => {
                self.done = true;
                PumpAction::Stop
            },
            ReadEvent::Failed => {
                match self.kind {
                    SourceKind::Device => PumpAction::Skip,
                    SourceKind::Transport => {
                        self.done = true;
                        PumpAction::Stop
                    },
                }
            },
        }
    }

    /// The opposite sink refused a forwarded packet because its consumer is
    /// gone: the pump terminates (nothing further could be delivered).
    pub fn on_sink_closed(&mut self)
        requires
            !old(self).done,
        ensures
            final(self).kind == old(self).kind,
            final(self).done,
            final(self).delivered@ == old(self).delivered@,
    {
        self.done = true;
    }
}

/// The packets a pump forwards over a whole trace of read events, stopping
/// at its first terminating event.
pub open spec fn reader_delivered(kind: SourceKind, evs: Seq<SpecReadEvent>) -> Seq<Seq<u8>>
    decreases evs.len(),
{
    if evs.len() == 0 {
        Seq::empty()
    } else {
        let done = reader_step(kind, evs[0]).0;
        let out = reader_step(kind, evs[0]).1;
        let rest = if done {
            Seq::<Seq<u8>>::empty()
        } else {
            reader_delivered(kind, evs.drop_first())
        };
        match out {
            Some(p) => seq![p] + rest,
            None => rest,
        }
    }
}

/// The packet payloads of a trace, in order.
pub open spec fn spec_packets(evs: Seq<SpecReadEvent>) -> Seq<Seq<u8>>
    decreases evs.len(),
{
    if evs.len() == 0 {
        Seq::empty()
    } else {
        let rest = spec_packets(evs.drop_first());
        match evs[0] {
            SpecReadEvent::Packet(p) => seq![p] + rest,
            _ => rest,
        }
    }
}

/// Order preservation at the pump: a source that yields packets P1..Pn in
/// order, with no close and no failure among them, has every one of them
/// forwarded, unmodified and in the same order.
pub proof fn lemma_reader_delivers_all(kind: SourceKind, evs: Seq<SpecReadEvent>)
    requires
        forall|i: int| 0 <= i < evs.len() ==> evs[i] is Packet,
    ensures
        reader_delivered(kind, evs) == spec_packets(evs),
    decreases evs.len(),
{
    if evs.len() > 0 {
        assert(evs[0] is Packet);
        assert(forall|i: int|
            0 <= i < evs.drop_first().len() ==> #[trigger] evs.drop_first()[i] is Packet);
        lemma_reader_delivers_all(kind, evs.drop_first());
    }
}

/// Order preservation along a whole direction: when every packet a pump
/// forwarded was accepted by the direction's queue — which is what the
/// driving loop does — the consumer has taken exactly the oldest prefix of
/// the forwarded packets, in order and byte for byte.
pub proof fn lemma_direction_order(r: ReaderPump, q: PacketQueue)
    requires
        q.wf(),
        q.accepted() == r.delivered@,
    ensures
        q.delivered() == r.delivered@.take(q.delivered().len() as int),
        q.delivered().len() <= r.delivered@.len(),
{
    lemma_queue_fifo(q);
}

/// Order preservation end to end, for an outbound direction: the pump read
/// packets and forwarded them into the queue (`accepted == delivered by the
/// pump`), the consumer drew some of them and framed each onto the wire, in
/// order.  Then the wire decodes to exactly the packets drawn, which are
/// exactly the oldest prefix of the packets read — nothing reordered,
/// nothing altered, nothing lost.
pub proof fn lemma_direction_wire_order(r: ReaderPump, q: PacketQueue)
    requires
        q.wf(),
        q.accepted() == r.delivered@,
        crate::frame::spec_all_fit(q.delivered()),
    ensures
        crate::frame::spec_decode_stream(crate::frame::spec_encode_stream(q.delivered()))
            == Some(q.delivered()),
        q.delivered() == r.delivered@.take(q.delivered().len() as int),
{
    lemma_direction_order(r, q);
    crate::frame::lemma_stream_round_trip(q.delivered());
}

/// A directional writing pump: drains one queue and writes each packet to
/// its sink, stopping on write failure or when the queue's producer is gone.
pub struct WriterPump {
    /// Whether this pump has terminated.
    pub done: bool,
    /// Every packet the sink accepted, oldest first.
    pub written: Ghost<Seq<Seq<u8>>>,
}

impl WriterPump {
    /// A fresh writing pump.
    pub fn new() -> (p: WriterPump)
        ensures
            !p.done,
            p.written@ == Seq::<Seq<u8>>::empty(),
    {
        WriterPump { done: false, written: Ghost(Seq::empty()) }
    }

    /// Records the outcome of writing one popped packet: success keeps the
    /// pump running and extends the written history; failure terminates the
    /// pump and the packet is counted as not written.
    pub fn on_write(&mut self, packet: &Vec<u8>, ok: bool)
        requires
            !old(self).done,
        ensures
            ok ==> !final(self).done && final(self).written@ == old(self).written@.push(packet@),
            !ok ==> final(self).done && final(self).written@ == old(self).written@,
    {
        if ok {
            self.written = Ghost(self.written@.push(packet@));
        } else {
            self.done = true;
        }
    }

    /// The queue's producer dropped and the queue is drained: the pump
    /// terminates normally.
    pub fn on_queue_end(&mut self)
        requires
            !old(self).done,
        ensures
            final(self).done,
            final(self).written@ == old(self).written@,
    {
        self.done = true;
    }
}

/// Which of the two concurrently raced pumps an event belongs to.
#[derive(Clone, Copy, Debug, PartialEq, Eq, Structural)]
pub enum PumpSide {
    First,
    Second,
}

/// The relay's view of its two pumps.
#[derive(Clone, Copy, Debug, PartialEq, Eq, Structural)]
pub struct PairState {
    pub first_kind: SourceKind,
    pub second_kind: SourceKind,
    pub first_done: bool,
    pub second_done: bool,
}

/// The source kind of one side.
pub open spec fn side_kind(s: PairState, side: PumpSide) -> SourceKind {
    match side {
        PumpSide::First => s.first_kind,
        PumpSide::Second => s.second_kind,
    }
}

/// The relay completes as soon as either pump finishes.
pub open spec fn pair_finished(s: PairState) -> bool {
    s.first_done || s.second_done
}

/// One relay step.  A finished relay polls neither pump: the event is
/// discarded, nothing is delivered, the state does not change.  Otherwise
/// the named side takes the event under its own policy.
pub open spec fn pair_step(s: PairState, side: PumpSide, ev: SpecReadEvent) -> (
    PairState,
    Option<Seq<u8>>,
) {
    if pair_finished(s) {
        (s, None)
    } else {
        let done = reader_step(side_kind(s, side), ev).0;
        let out = reader_step(side_kind(s, side), ev).1;
        match side {
            PumpSide::First => (
                PairState {
                    first_kind: s.first_kind,
                    second_kind: s.second_kind,
                    first_done: done,
                    second_done: s.second_done,
                },
                out,
            ),
            PumpSide::Second => (
                PairState {
                    first_kind: s.first_kind,
                    second_kind: s.second_kind,
                    first_done: s.first_done,
                    second_done: done,
                },
                out,
            ),
        }
    }
}

/// The relay state after a whole trace of events.
pub open spec fn pair_run(s: PairState, evs: Seq<(PumpSide, SpecReadEvent)>) -> PairState
    decreases evs.len(),
{
    if evs.len() == 0 {
        s
    } else {
        pair_run(pair_step(s, evs[0].0, evs[0].1).0, evs.drop_first())
    }
}

/// Every delivery the relay makes over a trace, tagged with its side.
pub open spec fn pair_deliveries(s: PairState, evs: Seq<(PumpSide, SpecReadEvent)>) -> Seq<
    (PumpSide, Seq<u8>),
>
    decreases evs.len(),
{
    if evs.len() == 0 {
        Seq::empty()
    } else {
        let s1 = pair_step(s, evs[0].0, evs[0].1).0;
        let out = pair_step(s, evs[0].0, evs[0].1).1;
        (match out {
            Some(p) => seq![(evs[0].0, p)],
            None => Seq::<(PumpSide, Seq<u8>)>::empty(),
        }) + pair_deliveries(s1, evs.drop_first())
    }
}

/// A finished relay stays finished, never changes state and never delivers
/// another packet, whatever events arrive on either side.
pub proof fn lemma_finished_stable(s: PairState, evs: Seq<(PumpSide, SpecReadEvent)>)
    requires
        pair_finished(s),
    ensures
        pair_run(s, evs) == s,
        pair_deliveries(s, evs) == Seq::<(PumpSide, Seq<u8>)>::empty(),
    decreases evs.len(),
{
    if evs.len() > 0 {
        lemma_finished_stable(s, evs.drop_first());
        assert(pair_deliveries(s, evs) =~= Seq::<(PumpSide, Seq<u8>)>::empty());
    }
}

/// Joint shutdown: the moment either pump takes a terminating event, the
/// relay is finished — within that same step — and from then on no packet is
/// delivered in either direction and the state never changes again.
pub proof fn lemma_joint_shutdown(
    s: PairState,
    side: PumpSide,
    ev: SpecReadEvent,
    rest: Seq<(PumpSide, SpecReadEvent)>,
)
    requires
        reader_step(side_kind(s, side), ev).0,
    ensures
        pair_finished(pair_step(s, side, ev).0),
        pair_run(pair_step(s, side, ev).0, rest) == pair_step(s, side, ev).0,
        pair_deliveries(pair_step(s, side, ev).0, rest) == Seq::<(PumpSide, Seq<u8>)>::empty(),
{
    lemma_finished_stable(pair_step(s, side, ev).0, rest);
}

/// Executable record of the race between the two pumps of a relay (or the
/// two copy directions of a gateway): tracks which side has exited, so the
/// driver can cancel the other as soon as either is done.
pub struct RelaySelect {
    pub first_done: bool,
    pub second_done: bool,
}

impl RelaySelect {
    /// Both pumps still running.
    pub fn new() -> (r: RelaySelect)
        ensures
            !r.first_done,
            !r.second_done,
    {
        RelaySelect { first_done: false, second_done: false }
    }

    /// One pump exited (normally or by error).
    pub fn on_exit(&mut self, side: PumpSide)
        ensures
            final(self).first_done == (old(self).first_done || side == PumpSide::First),
            final(self).second_done == (old(self).second_done || side == PumpSide::Second),
    {
        match side {
            PumpSide::First => self.first_done = true,
            PumpSide::Second => self.second_done = true,
        }
    }

    /// Whether the relay as a whole is finished — true as soon as either
    /// side has exited; the driver must then cancel the other side.
    pub fn finished(&self) -> (b: bool)
        ensures
            b == (self.first_done || self.second_done),
    {
        self.first_done || self.second_done
    }
}

} // verus!
