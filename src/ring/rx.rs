//! The receive ring: posting empty buffers and collecting filled ones.
use vstd::prelude::*;

use crate::descriptor::{bit64, AdvRxDesc, AdvRxDescRead, AdvRxDescWB};
use crate::err::DError;
use crate::poll::Poll;
use crate::ring::{QueueState, in_window, is_valid_ring_size, next_slot, valid_ring_size, Request, Ring};

verus! {

// Receive-queue register offsets, for queue 0; queue `n` adds `n * 0x40`.
pub const RDBAL: usize = 0xC000;
pub const RDBAH: usize = 0xC004;
pub const RDLEN: usize = 0xC008;
pub const SRRCTL: usize = 0xC00C;
pub const RDH: usize = 0xC010;
pub const RDT: usize = 0xC018;
pub const RXDCTL: usize = 0xC028;

/// The packet-buffer size the driver gives each RX slot.
pub const PACKET_SIZE: usize = 2048;

/// RXDCTL.ENABLE.
pub const RXDCTL_ENABLE: u32 = 1u32 << 25u32;

/// RXDCTL with PTHRESH = 8, HTHRESH = 8, WTHRESH = 1 and ENABLE clear.
pub const RXDCTL_THRESHOLDS: u32 = 8u32 | (8u32 << 8u32) | (1u32 << 16u32);

/// SRRCTL.DESCTYPE = advanced descriptors, one buffer.
pub const SRRCTL_ADV_ONE_BUFFER: u32 = 1u32 << 25u32;

/// A buffer size SRRCTL.BSIZEPACKET can express: whole kilobytes, 1 to 16.
pub open spec fn valid_rx_packet_size(pkt_size: usize) -> bool {
    1024 <= pkt_size <= 16384 && pkt_size % 1024 == 0
}

/// The register values that program a receive queue.
#[derive(Debug, Clone, Copy, PartialEq, Eq)]
pub struct RxQueueConfig {
    pub rdbal: u32,
    pub rdbah: u32,
    pub rdlen: u32,
    pub srrctl: u32,
    pub rxdctl: u32,
}

/// What `submit` posted: the slot, the descriptor to store there, and the
/// new tail to write to RDT once the descriptor is visible to the device.
#[derive(Debug, Clone, Copy, PartialEq, Eq)]
pub struct RxPost {
    pub index: usize,
    pub desc: AdvRxDesc,
    pub tail: u32,
}

/// The read-layout descriptor that posts a 2-byte aligned buffer at
/// `bus_addr`: the packet address is the buffer's (so no-snoop is off), no
/// header buffer, DD clear.
pub open spec fn rx_post_desc(d: AdvRxDesc, bus_addr: u64) -> bool {
    &&& d.read_view().pkt_addr == bus_addr
    &&& d.read_view().pkt_addr >> 1u64 == bus_addr >> 1u64
    &&& !bit64(d.read_view().pkt_addr, 0)
    &&& d.read_view().hdr_addr == 0
}

/// A receive ring of `count` slots with `pkt_size`-byte buffers.
pub struct RxRing<B> {
    ring: Ring<B>,
    pkt_size: usize,
    state: QueueState,
    /// The descriptor last handed out for each slot.
    posted: Ghost<Seq<AdvRxDesc>>,
}

/// A received packet: the request whose buffer holds it, the number of
/// valid bytes, and the write-back the device reported.
pub struct RxPacket<B> {
    pub request: Request<B>,
    pub len: usize,
    pub desc: AdvRxDescWB,
}

impl<B> RxPacket<B> {
    /// The number of valid bytes at the start of the buffer.
    pub fn len(&self) -> (r: usize)
        ensures
            r == self.len,
    {
        self.len
    }

    /// The completion metadata the device wrote back.
    pub fn desc(&self) -> (r: AdvRxDescWB)
        ensures
            r == self.desc,
    {
        self.desc
    }

    /// Hands the buffer back to `ring` for the device to fill again.
    pub fn re_submit(self, ring: &mut RxRing<B>, hw_head: u32) -> (r: Result<RxPost, DError>)
        requires
            old(ring).wf(),
            old(ring).queue_state() == QueueState::Enabled,
            self.request.bus_addr % 2 == 0,
        ensures
            final(ring).wf(),
            old(ring).submit_result(*final(ring), self.request, hw_head, r),
    {
        ring.submit(self.request, hw_head)
    }
}

impl<B> RxRing<B> {
    pub closed spec fn slots(self) -> Ring<B> {
        self.ring
    }

    pub closed spec fn buffer_size(self) -> usize {
        self.pkt_size
    }

    pub closed spec fn queue_state(self) -> QueueState {
        self.state
    }

    /// The descriptor last handed out for slot `i`.
    pub closed spec fn written(self, i: int) -> AdvRxDesc {
        self.posted@[i]
    }

    /// The ring's invariant: the slot invariant, a valid size and buffer
    /// size, and every posted slot's descriptor names its request's buffer.
    pub closed spec fn wf(self) -> bool {
        &&& self.slots().wf()
        &&& valid_ring_size(self.slots().size() as usize)
        &&& valid_rx_packet_size(self.buffer_size())
        &&& self.posted@.len() == self.slots().size()
        &&& forall|i: int|
            0 <= i < self.slots().size() && #[trigger] self.slots().slot(i) is Some ==> rx_post_desc(
                self.posted@[i],
                self.slots().slot(i)->Some_0.bus_addr,
            )
    }

    /// What the invariant gives a caller: the slot invariant, a valid ring
    /// size and buffer size, and the occupied slots are exactly the
    /// `(tail - head) mod count` slots of the window `[head, tail)`.
    pub proof fn lemma_wf(self)
        requires
            self.wf(),
        ensures
            self.slots().wf(),
            valid_ring_size(self.slots().size() as usize),
            valid_rx_packet_size(self.buffer_size()),
            self.slots().pending().len() == self.slots().len(),
            self.slots().occupied().len() == self.slots().len(),
            self.slots().len() == (self.slots().tail() - self.slots().head()) % self.slots().size(),
            forall|i: int|
                0 <= i < self.slots().size() ==> (#[trigger] self.slots().slot(i) is Some
                    <==> in_window(i, self.slots().head(), self.slots().tail(), self.slots().size())),
    {
        self.slots().lemma_slots();
        self.slots().lemma_occupied_count();
    }

    /// Whether posting is refused: the slot after the tail is the one the
    /// device will process next, or the one software has yet to collect.
    pub open spec fn full_at(self, hw_head: u32) -> bool {
        let next = next_slot(self.slots().tail(), self.slots().size());
        next == hw_head as int || next == self.slots().head()
    }

    /// What `submit(request, hw_head)` does: `NoMemory`, with the ring
    /// untouched, exactly when the ring is full; otherwise the request
    /// joins the pending queue at the tail slot, the tail advances, and
    /// the post carries that slot, its read-layout descriptor and the new
    /// tail.
    pub open spec fn submit_result(
        self,
        after: Self,
        request: Request<B>,
        hw_head: u32,
        r: Result<RxPost, DError>,
    ) -> bool {
        &&& after.buffer_size() == self.buffer_size()
        &&& after.queue_state() == self.queue_state()
        &&& after.slots().size() == self.slots().size()
        &&& (r is Err <==> self.full_at(hw_head))
        &&& (r matches Err(e) ==> e == DError::NoMemory && after == self)
        &&& (r matches Ok(post) ==> {
            &&& post.index == self.slots().tail()
            &&& rx_post_desc(post.desc, request.bus_addr)
            &&& post.tail as int == after.slots().tail()
            &&& after.slots().tail() == next_slot(self.slots().tail(), self.slots().size())
            &&& after.slots().head() == self.slots().head()
            &&& after.slots().slot(post.index as int) == Some(request)
            &&& after.written(post.index as int) == post.desc
            &&& forall|i: int|
                0 <= i < self.slots().size() && i != post.index ==> #[trigger] after.written(i)
                    == self.written(i) && after.slots().slot(i) == self.slots().slot(i)
            &&& after.slots().pending() == self.slots().pending().push(request)
        })
    }

    /// A receive ring of `count` slots whose buffers hold `pkt_size` bytes.
    /// `InvalidParameter` unless `count` is a valid ring size and
    /// `pkt_size` a whole number of kilobytes from 1 to 16.
    pub fn new(count: usize, pkt_size: usize) -> (r: Result<Self, DError>)
        ensures
            r is Err <==> !(valid_ring_size(count) && valid_rx_packet_size(pkt_size)),
            r matches Err(e) ==> e == DError::InvalidParameter,
            r matches Ok(ring) ==> {
                &&& ring.wf()
                &&& ring.slots().size() == count
                &&& ring.buffer_size() == pkt_size
                &&& ring.slots().head() == 0
                &&& ring.slots().tail() == 0
                &&& ring.slots().pending().len() == 0
                &&& ring.queue_state() == QueueState::Uninitialized
            },
    {
        if !is_valid_ring_size(count) || pkt_size < 1024 || pkt_size > 16384 || pkt_size % 1024
            != 0 {
            return Err(DError::InvalidParameter);
        }
        let ring = Ring::new(count);
        let r = RxRing { ring, pkt_size, state: QueueState::Uninitialized, posted: Ghost(Seq::new(count as nat, |i: int| AdvRxDesc { lo: 0, hi: 0 })) };
        proof {
            r.ring.lemma_slots();
        }
        Ok(r)
    }

    /// Where the queue stands in its lifecycle.
    pub fn state(&self) -> (r: QueueState)
        ensures
            r == self.queue_state(),
    {
        self.state
    }

    /// Records that the device confirmed the queue enable (RXDCTL.ENABLE
    /// read back as 1). Only then may buffers be posted.
    pub fn set_enabled(&mut self)
        requires
            old(self).wf(),
            old(self).queue_state() != QueueState::Enabled,
        ensures
            final(self).wf(),
            final(self).queue_state() == QueueState::Enabled,
            final(self).slots() == old(self).slots(),
            final(self).buffer_size() == old(self).buffer_size(),
    {
        self.state = QueueState::Enabled;
    }

    /// Disables the queue: the RXDCTL value to write, with ENABLE clear.
    pub fn disable_queue(&mut self) -> (r: u32)
        requires
            old(self).wf(),
            old(self).queue_state() == QueueState::Enabled,
        ensures
            final(self).wf(),
            final(self).queue_state() == QueueState::Disabled,
            final(self).slots() == old(self).slots(),
            final(self).buffer_size() == old(self).buffer_size(),
            r == RXDCTL_THRESHOLDS,
    {
        self.state = QueueState::Disabled;
        RXDCTL_THRESHOLDS
    }

    /// The size of each packet buffer.
    pub fn packet_size(&self) -> (r: usize)
        ensures
            r == self.buffer_size(),
    {
        self.pkt_size
    }

    /// The number of slots.
    pub fn count(&self) -> (r: usize)
        requires
            self.wf(),
        ensures
            r == self.slots().size(),
    {
        self.ring.count()
    }

    /// The most requests that can be posted at once: one slot stays free.
    pub fn request_max_count(&self) -> (r: usize)
        requires
            self.wf(),
        ensures
            r == self.slots().size() - 1,
    {
        self.ring.count() - 1
    }

    /// The slot whose write-back `next_pkt` examines.
    pub fn next_index(&self) -> (r: usize)
        ensures
            r == self.slots().head(),
    {
        self.ring.head_index()
    }

    /// The register values that program this queue for a descriptor
    /// table at `bus_addr`.
    pub fn config(&self, bus_addr: u64) -> (r: RxQueueConfig)
        requires
            self.wf(),
        ensures
            r.rdbal == bus_addr as u32,
            r.rdbah == (bus_addr >> 32u64) as u32,
            r.rdlen == self.slots().size() * 16,
            r.srrctl == SRRCTL_ADV_ONE_BUFFER | (self.buffer_size() / 1024) as u32,
            r.rxdctl == RXDCTL_THRESHOLDS | RXDCTL_ENABLE,
    {
        RxQueueConfig {
            rdbal: bus_addr as u32,
            rdbah: (bus_addr >> 32u64) as u32,
            rdlen: self.ring.size_bytes() as u32,
            srrctl: SRRCTL_ADV_ONE_BUFFER | (self.pkt_size / 1024) as u32,
            rxdctl: RXDCTL_THRESHOLDS | RXDCTL_ENABLE,
        }
    }

    /// Posts `request` at the tail slot, given the head the device
    /// reports (RDH). `NoMemory` when the ring is full.
    /// The buffer must be 2-byte aligned: bit 0 of the descriptor's packet
    /// address is the no-snoop flag.
    pub fn submit(&mut self, request: Request<B>, hw_head: u32) -> (r: Result<RxPost, DError>)
        requires
            old(self).wf(),
            old(self).queue_state() == QueueState::Enabled,
            request.bus_addr % 2 == 0,
        ensures
            final(self).wf(),
            old(self).submit_result(*final(self), request, hw_head, r),
    {
        let count = self.ring.count();
        let tail = self.ring.tail_index();
        let next = if tail + 1 >= count { 0 } else { tail + 1 };
        if next == hw_head as usize || next == self.ring.head_index() {
            return Err(DError::NoMemory);
        }
        let read = AdvRxDescRead::new(request.bus_addr, 0, false);
        proof {
            let h = read.hdr_addr;
            assert(h >> 1u64 == 0u64 >> 1u64 && !(((h >> 0u64) & 1u64) == 1u64) ==> h == 0u64)
                by (bit_vector);
        }
        let desc = AdvRxDesc::from_read(read);
        let index = self.ring.post(request);
        self.posted = Ghost(self.posted@.update(index as int, desc));
        Ok(RxPost { index, desc, tail: next as u32 })
    }

    /// What `next_pkt(hw_head, wb)` does, `wb` being the write-back read
    /// from the head slot: `None`, with the ring untouched, when nothing
    /// is posted, the device has not moved past the head slot, or DD is
    /// clear; otherwise the oldest pending request comes out with the
    /// packet length (capped at the request's length) and the write-back,
    /// and the head advances.
    pub open spec fn next_pkt_result(
        self,
        after: Self,
        hw_head: u32,
        wb: AdvRxDescWB,
        r: Option<RxPacket<B>>,
    ) -> bool {
        let ready = self.slots().len() > 0 && self.slots().head() != hw_head as int && wb.done();
        &&& after.buffer_size() == self.buffer_size()
        &&& after.queue_state() == self.queue_state()
        &&& after.slots().size() == self.slots().size()
        &&& (r is Some <==> ready)
        &&& (r is None ==> after == self)
        &&& (r matches Some(p) ==> {
            &&& p.request == self.slots().pending()[0]
            &&& p.desc == wb
            &&& p.len == if (wb.packet_len() as usize) < p.request.len {
                wb.packet_len() as usize
            } else {
                p.request.len
            }
            &&& p.request.bus_addr % 2 == 0
            &&& after.slots().tail() == self.slots().tail()
            &&& after.slots().head() == next_slot(self.slots().head(), self.slots().size())
            &&& after.slots().slot(self.slots().head()) is None
            &&& forall|i: int|
                0 <= i < self.slots().size() ==> #[trigger] after.written(i) == self.written(i)
                    && (i != self.slots().head() ==> after.slots().slot(i) == self.slots().slot(i))
            &&& after.slots().pending() == self.slots().pending().drop_first()
        })
    }

    /// Collects the packet in the head slot, given the head the device
    /// reports (RDH) and the write-back read from slot `next_index()`.
    pub fn next_pkt(&mut self, hw_head: u32, wb: AdvRxDescWB) -> (r: Option<RxPacket<B>>)
        requires
            old(self).wf(),
            old(self).queue_state() == QueueState::Enabled,
        ensures
            final(self).wf(),
            old(self).next_pkt_result(*final(self), hw_head, wb, r),
    {
        if self.ring.empty() || self.ring.head_index() == hw_head as usize || !wb.is_done() {
            return None;
        }
        let ghost h = self.ring.head();
        assert(self.ring.slot(h) is Some);
        let request = self.ring.take();
        assert(forall|i: int| 0 <= i < self.ring.size() && #[trigger] self.ring.slot(i) is Some ==> i != old(self).ring.head());
        proof {
            let a = request.bus_addr;
            assert(!bit64(a, 0) ==> a % 2 == 0) by (bit_vector);
        }
        let plen = wb.packet_length() as usize;
        let len = if plen < request.len { plen } else { request.len };
        Some(RxPacket { request, len, desc: wb })
    }

    /// The poll that waits for RXDCTL.ENABLE after the queue is enabled:
    /// 1000 tries, 1 ms apart.
    pub fn enable_poll() -> (r: Poll)
        ensures
            r.limit() == 1000,
            r.interval_ms() == 1,
            r.tries() == 0,
    {
        Poll::new(1000, 1)
    }
}

/// Whether an RXDCTL value reads as enabled.
pub fn rxdctl_enabled(rxdctl: u32) -> (r: bool)
    ensures
        r == (rxdctl & RXDCTL_ENABLE != 0),
{
    rxdctl & RXDCTL_ENABLE != 0
}

/// Every posted slot's descriptor carries bits [63:1] of the bus address
/// of the buffer that the slot holds, with DD and no-snoop clear.
pub proof fn lemma_rx_posted_addresses<B>(ring: RxRing<B>)
    requires
        ring.wf(),
    ensures
        forall|i: int|
            0 <= i < ring.slots().size() && in_window(
                i,
                ring.slots().head(),
                ring.slots().tail(),
                ring.slots().size(),
            ) ==> {
                &&& #[trigger] ring.slots().slot(i) is Some
                &&& ring.written(i).read_view().pkt_addr >> 1u64 == ring.slots().slot(
                    i,
                )->Some_0.bus_addr >> 1u64
                &&& !bit64(ring.written(i).read_view().pkt_addr, 0)
            },
{
    ring.slots().lemma_slots();
}

/// When `submit` hands out a new tail, every slot from the head up to (not
/// including) that tail holds a request whose descriptor has been produced
/// and names that request's buffer.
pub proof fn lemma_rx_tail_covers_written_slots<B>(
    a: RxRing<B>,
    b: RxRing<B>,
    request: Request<B>,
    hw_head: u32,
    post: RxPost,
)
    requires
        a.wf(),
        b.wf(),
        a.submit_result(b, request, hw_head, Ok(post)),
    ensures
        post.tail as int == b.slots().tail(),
        forall|i: int|
            0 <= i < b.slots().size() && in_window(
                i,
                b.slots().head(),
                post.tail as int,
                b.slots().size(),
            ) ==> #[trigger] b.slots().slot(i) is Some && rx_post_desc(
                b.written(i),
                b.slots().slot(i)->Some_0.bus_addr,
            ),
{
    b.slots().lemma_slots();
}

/// A submit never moves a pending request, and a successful one puts the
/// new request behind all pending ones.
pub proof fn lemma_rx_submit_queue<B>(
    a: RxRing<B>,
    b: RxRing<B>,
    request: Request<B>,
    hw_head: u32,
    res: Result<RxPost, DError>,
    k: int,
)
    requires
        a.submit_result(b, request, hw_head, res),
        0 <= k < a.slots().pending().len(),
    ensures
        b.slots().pending()[k] == a.slots().pending()[k],
        res is Ok ==> b.slots().pending()[a.slots().pending().len() as int] == request,
{
}

/// A successful `next_pkt` returns the oldest pending request and moves
/// every other one a place forward: a request with `k` requests ahead of
/// it is returned by the `k + 1`-th successful `next_pkt`.
pub proof fn lemma_rx_next_pkt_queue<B>(
    a: RxRing<B>,
    b: RxRing<B>,
    hw_head: u32,
    wb: AdvRxDescWB,
    p: RxPacket<B>,
    k: int,
)
    requires
        a.next_pkt_result(b, hw_head, wb, Some(p)),
        0 <= k < a.slots().pending().len(),
    ensures
        k == 0 ==> p.request == a.slots().pending()[k],
        k > 0 ==> b.slots().pending()[k - 1] == a.slots().pending()[k],
{
}

/// With the head at slot 0 and the device head at slot 0, posting is
/// refused exactly when `count - 1` buffers are posted.
pub proof fn lemma_rx_fill_then_full<B>(ring: RxRing<B>)
    requires
        ring.wf(),
        ring.slots().head() == 0,
    ensures
        ring.full_at(0) <==> ring.slots().len() == ring.slots().size() - 1,
{
    ring.slots().lemma_slots();
}

/// When a full ring (head at slot 0, `count - 1` buffers posted) has its
/// slot 0 collected by `next_pkt`, posting is accepted again whatever
/// head the device reports past slot 0.
pub proof fn lemma_rx_post_after_completion<B>(
    a: RxRing<B>,
    b: RxRing<B>,
    hw_head: u32,
    wb: AdvRxDescWB,
    p: RxPacket<B>,
)
    requires
        a.wf(),
        a.slots().head() == 0,
        a.slots().len() == a.slots().size() - 1,
        a.next_pkt_result(b, hw_head, wb, Some(p)),
    ensures
        forall|device_head: u32| device_head != 0 ==> !#[trigger] b.full_at(device_head),
{
    a.slots().lemma_slots();
}

/// Along any run of successful `next_pkt` calls, the `k`-th packet
/// (counting from 0) carries the request that had `k` requests ahead of it
/// when the run began: every submitted buffer comes back, in submission
/// order, once the device has completed the ones before it.
pub proof fn lemma_rx_delivery_order<B>(
    states: Seq<RxRing<B>>,
    heads: Seq<u32>,
    wbs: Seq<AdvRxDescWB>,
    pkts: Seq<RxPacket<B>>,
    k: int,
)
    requires
        states.len() == pkts.len() + 1,
        heads.len() == pkts.len(),
        wbs.len() == pkts.len(),
        forall|j: int|
            0 <= j < pkts.len() ==> states[j].next_pkt_result(
                states[j + 1],
                heads[j],
                wbs[j],
                Some(#[trigger] pkts[j]),
            ),
        0 <= k < pkts.len(),
        k < states[0].slots().pending().len(),
    ensures
        pkts[k].request == states[0].slots().pending()[k],
    decreases k,
{
    assert(states[0].next_pkt_result(states[1], heads[0], wbs[0], Some(pkts[0])));
    if k > 0 {
        lemma_rx_next_pkt_queue(states[0], states[1], heads[0], wbs[0], pkts[0], k);
        let later_states = states.drop_first();
        let later_heads = heads.drop_first();
        let later_wbs = wbs.drop_first();
        let later_pkts = pkts.drop_first();
        assert forall|j: int| 0 <= j < later_pkts.len() implies later_states[j].next_pkt_result(
            later_states[j + 1],
            later_heads[j],
            later_wbs[j],
            Some(#[trigger] later_pkts[j]),
        ) by {
            assert(states[j + 1].next_pkt_result(
                states[j + 2],
                heads[j + 1],
                wbs[j + 1],
                Some(pkts[j + 1]),
            ));
        }
        lemma_rx_delivery_order(later_states, later_heads, later_wbs, later_pkts, k - 1);
    }
}

} // verus!
