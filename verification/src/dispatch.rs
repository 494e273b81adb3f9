//! The per-CPU event readers and the dispatch channel.
//!
//! All readers funnel into one bounded multi-producer channel with a
//! single consumer. A full channel drops the event rather than stalling
//! a reader; same-CPU, same-queue order is preserved, and nothing is
//! promised across CPUs or across queues. This module holds the
//! sequential model of that fan-in: what one reader's drain of a batch
//! of raw records does to the channel, stated exactly.

use vstd::prelude::*;
use std::collections::VecDeque;
use crate::wire::{build_event, record_size, queue_record_ok, is_queue_decode, BpfEvent, QueueKind,
    SOCKADDR_EVENT_SIZE, SOCKET_STATE_EVENT_SIZE};

verus! {

/// The bounded multi-producer/single-consumer dispatch channel: a FIFO
/// that refuses events past its fixed capacity.
pub struct EventChannel {
    queue: VecDeque<BpfEvent>,
    capacity: usize,
}

impl EventChannel {
    /// The events currently queued, oldest first.
    pub closed spec fn view(&self) -> Seq<BpfEvent> {
        self.queue@
    }

    /// The fixed capacity the channel was created with.
    pub closed spec fn spec_capacity(&self) -> nat {
        self.capacity as nat
    }

    /// The channel never holds more events than its capacity.
    pub closed spec fn wf(&self) -> bool {
        self.queue@.len() <= self.capacity
    }

    /// Creates an empty channel of the given capacity.
    pub fn new(capacity: usize) -> (r: Self)
        ensures
            r.wf(),
            r.view() == Seq::<BpfEvent>::empty(),
            r.spec_capacity() == capacity,
    {
        EventChannel { queue: VecDeque::new(), capacity }
    }

    /// Number of events currently queued.
    pub fn len(&self) -> (r: usize)
        ensures
            r == self.view().len(),
    {
        self.queue.len()
    }

    /// Offers an event: queued when there is room, dropped (returning
    /// `false`) when the channel is full. A full channel never blocks a
    /// sender.
    pub fn send(&mut self, event: BpfEvent) -> (ok: bool)
        requires
            old(self).wf(),
        ensures
            final (self).wf(),
            final (self).spec_capacity() == old(self).spec_capacity(),
            ok == (old(self).view().len() < old(self).spec_capacity()),
            ok ==> final (self).view() == old(self).view().push(event),
            !ok ==> final (self).view() == old(self).view(),
    {
        if self.queue.len() < self.capacity {
            self.queue.push_back(event);
            true
        } else {
            false
        }
    }

    /// Takes the oldest queued event, if any: the single consumer's
    /// side. Consumption order is exactly queue order.
    pub fn recv(&mut self) -> (r: Option<BpfEvent>)
        requires
            old(self).wf(),
        ensures
            final (self).wf(),
            final (self).spec_capacity() == old(self).spec_capacity(),
            old(self).view().len() == 0 ==> r is None && final (self).view() == old(self).view(),
            old(self).view().len() > 0 ==> {
                &&& r == Some(old(self).view()[0])
                &&& final (self).view() == old(self).view().drop_first()
            },
    {
        self.queue.pop_front()
    }
}

/// The views of a batch of raw records.
pub open spec fn views_of(records: Seq<Vec<u8>>) -> Seq<Seq<u8>> {
    Seq::new(records.len(), |i: int| records[i]@)
}

/// How many of the records are well-formed for `kind` (and so decode
/// into events).
pub open spec fn n_ok(kind: QueueKind, s: Seq<Seq<u8>>) -> nat
    decreases s.len(),
{
    if s.len() == 0 {
        0
    } else {
        n_ok(kind, s.drop_last()) + (if queue_record_ok(kind, s.last()) {
            1nat
        } else {
            0nat
        })
    }
}

/// One step of `n_ok` over a growing prefix.
pub proof fn lemma_n_ok_step(kind: QueueKind, s: Seq<Seq<u8>>, i: int)
    requires
        0 <= i < s.len(),
    ensures
        n_ok(kind, s.take(i + 1)) == n_ok(kind, s.take(i)) + (if queue_record_ok(kind, s[i]) {
            1nat
        } else {
            0nat
        }),
{
    assert(s.take(i + 1).drop_last() =~= s.take(i));
    assert(s.take(i + 1).last() == s[i]);
}

/// `n_ok` of a prefix never decreases as the prefix grows.
pub proof fn lemma_n_ok_monotone(kind: QueueKind, s: Seq<Seq<u8>>, i: int, j: int)
    requires
        0 <= i <= j <= s.len(),
    ensures
        n_ok(kind, s.take(i)) <= n_ok(kind, s.take(j)),
    decreases j - i,
{
    if i < j {
        lemma_n_ok_step(kind, s, j - 1);
        lemma_n_ok_monotone(kind, s, i, j - 1);
    }
}

/// Same-CPU, same-queue ordering: of two well-formed records in one
/// batch, the earlier one lands at a strictly smaller channel position
/// (`drain_records` places record `i` at offset `n_ok` of the prefix
/// before `i`). Together with `EventChannel::recv`, which yields the
/// queue front, the consumer observes them in production order.
pub proof fn lemma_same_queue_ordering(kind: QueueKind, s: Seq<Seq<u8>>, i: int, j: int)
    requires
        0 <= i < j < s.len(),
        queue_record_ok(kind, s[i]),
    ensures
        n_ok(kind, s.take(i)) < n_ok(kind, s.take(j)),
{
    lemma_n_ok_step(kind, s, i);
    lemma_n_ok_monotone(kind, s, i + 1, j);
}

/// What one reader poll reports: records seen, events sent on, events
/// dropped on a full channel, and records that failed to decode.
#[derive(Clone, Copy, Debug, PartialEq, Eq, Structural)]
pub struct DrainStats {
    pub read: usize,
    pub sent: usize,
    pub dropped: usize,
    pub malformed: usize,
}

/// Drains one batch of raw records from a per-CPU buffer: each record
/// is decoded by the queue's builder and offered to the shared channel
/// in record order. Events that find the channel full are dropped, not
/// retried, and never block the reader; malformed records are skipped.
///
/// The contract pins content and order: the channel keeps its old
/// events as a prefix, and the `k`-th accepted event of the batch (at
/// channel position `old length + n_ok` of the record prefix before
/// it) is the decoding of the `k`-th well-formed record.
pub fn drain_records(kind: QueueKind, records: &Vec<Vec<u8>>, channel: &mut EventChannel) -> (stats:
    DrainStats)
    requires
        old(channel).wf(),
    ensures
        final (channel).wf(),
        final (channel).spec_capacity() == old(channel).spec_capacity(),
        stats.read == records@.len(),
        stats.malformed == records@.len() - n_ok(kind, views_of(records@)),
        stats.sent + stats.dropped == n_ok(kind, views_of(records@)),
        final (channel).view().len() == old(channel).view().len() + stats.sent,
        stats.dropped > 0 ==> final (channel).view().len() == final (channel).spec_capacity(),
        final (channel).view().subrange(0, old(channel).view().len() as int) == old(
            channel,
        ).view(),
        forall|i: int|
            0 <= i < records@.len() && #[trigger] queue_record_ok(kind, views_of(records@)[i])
                && old(channel).view().len() + n_ok(kind, views_of(records@).take(i)) < old(
                channel,
            ).spec_capacity() ==> is_queue_decode(
                kind,
                views_of(records@)[i],
                final (channel).view()[(old(channel).view().len() + n_ok(
                    kind,
                    views_of(records@).take(i),
                )) as int],
            ),
{
    let ghost s = views_of(records@);
    let ghost old_len = old(channel).view().len();
    let ghost cap = old(channel).spec_capacity();
    let mut sent: usize = 0;
    let mut dropped: usize = 0;
    let mut malformed: usize = 0;
    let mut idx: usize = 0;
    let n = records.len();
    while idx < n
        invariant
            n == records@.len(),
            idx <= n,
            s == views_of(records@),
            old_len == old(channel).view().len(),
            cap == old(channel).spec_capacity(),
            channel.wf(),
            channel.spec_capacity() == cap,
            sent + dropped == n_ok(kind, s.take(idx as int)),
            malformed == idx - n_ok(kind, s.take(idx as int)),
            channel.view().len() == old_len + sent,
            dropped > 0 ==> channel.view().len() == cap,
            channel.view().subrange(0, old_len as int) == old(channel).view(),
            forall|i: int|
                0 <= i < idx && #[trigger] queue_record_ok(kind, s[i]) && old_len + n_ok(
                    kind,
                    s.take(i),
                ) < cap ==> is_queue_decode(
                    kind,
                    s[i],
                    channel.view()[(old_len + n_ok(kind, s.take(i))) as int],
                ),
        decreases n - idx,
    {
        proof {
            lemma_n_ok_step(kind, s, idx as int);
            assert(s[idx as int] == records@[idx as int]@);
        }
        let ghost pre = channel.view();
        match build_event(kind, records[idx].as_slice()) {
            Ok(event) => {
                if channel.send(event) {
                    sent = sent + 1;
                    proof {
                        assert forall|i: int|
                            0 <= i < idx + 1 && #[trigger] queue_record_ok(kind, s[i]) && old_len
                                + n_ok(kind, s.take(i)) < cap implies is_queue_decode(
                            kind,
                            s[i],
                            channel.view()[(old_len + n_ok(kind, s.take(i))) as int],
                        ) by {
                            if i < idx {
                                lemma_n_ok_step(kind, s, i);
                                lemma_n_ok_monotone(kind, s, i + 1, idx as int);
                                assert(((old_len + n_ok(kind, s.take(i))) as int) < pre.len());
                                assert(channel.view()[(old_len + n_ok(kind, s.take(i))) as int]
                                    == pre[(old_len + n_ok(kind, s.take(i))) as int]);
                            } else {
                                assert(s.take(idx as int) =~= s.take(i));
                            }
                        }
                    }
                } else {
                    dropped = dropped + 1;
                }
            },
            Err(_) => {
                malformed = malformed + 1;
            },
        }
        idx = idx + 1;
    }
    proof {
        assert(s.take(n as int) =~= s);
    }
    DrainStats { read: n, sent, dropped, malformed }
}

/// One monitored per-CPU queue: its kernel-side map name, the wire
/// event type it carries, and that type's builder. This is the closed
/// registration table the readers are launched from.
pub struct MonitoredQueue {
    pub kind: QueueKind,
    pub name: String,
}

impl MonitoredQueue {
    /// Registers a queue under its kernel-side map name.
    pub fn new(kind: QueueKind, name: &str) -> (r: Self)
        ensures
            r.kind == kind,
            r.name@ == name@,
    {
        MonitoredQueue { kind, name: name.to_owned() }
    }

    /// The fixed record size a reader's scratch buffers need for this
    /// queue.
    pub fn record_size(&self) -> (r: usize)
        ensures
            self.kind == QueueKind::Sockaddr ==> r == SOCKADDR_EVENT_SIZE,
            self.kind == QueueKind::SocketState ==> r == SOCKET_STATE_EVENT_SIZE,
    {
        record_size(self.kind)
    }

    /// This queue's builder: decodes one raw record into a tagged
    /// event.
    pub fn build(&self, bytes: &[u8]) -> (r: Result<BpfEvent, crate::wire::WireError>)
        ensures
            queue_record_ok(self.kind, bytes@) <==> r is Ok,
            r matches Ok(e) ==> is_queue_decode(self.kind, bytes@, e),
    {
        build_event(self.kind, bytes)
    }
}

/// The two queues this tracer monitors: address events and socket
/// state-transition events.
pub fn standard_queues() -> (r: Vec<MonitoredQueue>)
    ensures
        r@.len() == 2,
        r@[0].kind == QueueKind::Sockaddr,
        r@[0].name@ == "SOCKADDR_EVENTS"@,
        r@[1].kind == QueueKind::SocketState,
        r@[1].name@ == "SOCKET_STATE_EVENTS"@,
{
    let mut queues: Vec<MonitoredQueue> = Vec::new();
    queues.push(MonitoredQueue::new(QueueKind::Sockaddr, "SOCKADDR_EVENTS"));
    queues.push(MonitoredQueue::new(QueueKind::SocketState, "SOCKET_STATE_EVENTS"));
    queues
}

} // verus!
