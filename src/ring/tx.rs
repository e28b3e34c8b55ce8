//! The transmit ring: posting filled buffers and reclaiming sent ones.
use vstd::prelude::*;

use crate::descriptor::{
    cmd_type_len_of, cmds_bits, AdvTxDesc, AdvTxDescRead, AdvTxDescWB, TxAdvDescCmd, TxAdvDescType,
};
use crate::err::DError;
use crate::poll::Poll;
use crate::ring::{QueueState, in_window, is_valid_ring_size, next_slot, valid_ring_size, Request, Ring};

verus! {

// Transmit-queue register offsets, for queue 0; queue `n` adds `n * 0x40`.
pub const TDBAL: usize = 0xE000;
pub const TDBAH: usize = 0xE004;
pub const TDLEN: usize = 0xE008;
pub const TDH: usize = 0xE010;
pub const TDT: usize = 0xE018;
pub const TXDCTL: usize = 0xE028;

/// TXDCTL.ENABLE.
pub const TXDCTL_ENABLE: u32 = 1u32 << 25u32;

/// TXDCTL with WTHRESH = 1, every other field 0.
pub const TXDCTL_WTHRESH_1: u32 = 1u32 << 16u32;

/// The largest frame one data descriptor can carry: `cmd_type_len[19:0]`.
pub const MAX_TX_LEN: usize = 0xF_FFFF;

/// The commands of a standalone frame that asks for a write-back.
pub open spec fn tx_frame_cmds() -> Seq<TxAdvDescCmd> {
    seq![TxAdvDescCmd::EOP, TxAdvDescCmd::RS, TxAdvDescCmd::IFCS, TxAdvDescCmd::DEXT]
}

/// A TX buffer size the length field can express.
pub open spec fn valid_tx_packet_size(pkt_size: usize) -> bool {
    1 <= pkt_size <= MAX_TX_LEN
}

/// The register values that program a transmit queue.
#[derive(Debug, Clone, Copy, PartialEq, Eq)]
pub struct TxQueueConfig {
    pub tdbal: u32,
    pub tdbah: u32,
    pub tdlen: u32,
    /// TXDCTL before the queue is enabled.
    pub txdctl: u32,
    /// TXDCTL that enables the queue.
    pub txdctl_enable: u32,
}

/// What `send` posted: the slot, the descriptor to store there, and the
/// new tail to write to TDT once descriptor and buffer are visible to the
/// device.
#[derive(Debug, Clone, Copy, PartialEq, Eq)]
pub struct TxPost {
    pub index: usize,
    pub desc: AdvTxDesc,
    pub tail: u32,
}

/// A transmit ring of `count` slots carrying frames of at most
/// `pkt_size` bytes.
pub struct TxRing<B> {
    ring: Ring<B>,
    pkt_size: usize,
    state: QueueState,
    /// The descriptor last handed out for each slot.
    posted: Ghost<Seq<AdvTxDesc>>,
}

/// The data descriptor that sends the frame of `request`.
pub open spec fn tx_frame_desc<B>(d: AdvTxDesc, request: Request<B>) -> bool {
    d.read_view() == (AdvTxDescRead {
        buffer_addr: request.bus_addr,
        cmd_type_len: cmd_type_len_of(request.len, TxAdvDescType::Data, tx_frame_cmds()),
        olinfo_status: 0,
    })
}

impl<B> TxRing<B> {
    pub closed spec fn slots(self) -> Ring<B> {
        self.ring
    }

    pub closed spec fn buffer_size(self) -> usize {
        self.pkt_size
    }

    pub closed spec fn queue_state(self) -> QueueState {
        self.state
    }

    /// The descriptor last handed out for slot `i`.
    pub closed spec fn written(self, i: int) -> AdvTxDesc {
        self.posted@[i]
    }

    /// The ring's invariant: the slot invariant, a valid size and buffer
    /// size, and every posted slot's descriptor sends its request's frame.
    pub closed spec fn wf(self) -> bool {
        &&& self.slots().wf()
        &&& valid_ring_size(self.slots().size() as usize)
        &&& valid_tx_packet_size(self.buffer_size())
        &&& self.posted@.len() == self.slots().size()
        &&& forall|i: int|
            0 <= i < self.slots().size() && #[trigger] self.slots().slot(i) is Some ==> tx_frame_desc(
                self.posted@[i],
                self.slots().slot(i)->Some_0,
            )
    }

    /// What the invariant gives a caller: the slot invariant, a valid ring
    /// size and buffer size, and the occupied slots are exactly the
    /// `(tail - head) mod count` slots of the window `[head, tail)`.
    pub proof fn lemma_wf(self)
        requires
            self.wf(),
        ensures
            self.slots().wf(),
            valid_ring_size(self.slots().size() as usize),
            valid_tx_packet_size(self.buffer_size()),
            self.slots().pending().len() == self.slots().len(),
            self.slots().occupied().len() == self.slots().len(),
            self.slots().len() == (self.slots().tail() - self.slots().head()) % self.slots().size(),
            forall|i: int|
                0 <= i < self.slots().size() ==> (#[trigger] self.slots().slot(i) is Some
                    <==> in_window(i, self.slots().head(), self.slots().tail(), self.slots().size())),
    {
        self.slots().lemma_slots();
        self.slots().lemma_occupied_count();
    }

    /// Whether sending is refused for lack of a slot: the slot after the
    /// tail is the one the device will process next, or one whose request
    /// has not been reclaimed.
    pub open spec fn full_at(self, hw_head: u32) -> bool {
        let next = next_slot(self.slots().tail(), self.slots().size());
        next == hw_head as int || next == self.slots().head()
    }

    /// What `send(request, hw_head)` does: `InvalidParameter` when the
    /// frame is longer than the buffer size, else `NoMemory` when the ring
    /// is full, the ring untouched in both cases; otherwise the request
    /// joins the pending queue at the tail slot, whose data descriptor
    /// carries its bus address, its length and EOP, IFCS, RS and DEXT.
    pub open spec fn send_result(
        self,
        after: Self,
        request: Request<B>,
        hw_head: u32,
        r: Result<TxPost, DError>,
    ) -> bool {
        &&& after.buffer_size() == self.buffer_size()
        &&& after.queue_state() == self.queue_state()
        &&& after.slots().size() == self.slots().size()
        &&& (r is Err <==> (request.len > self.buffer_size() || self.full_at(hw_head)))
        &&& (r matches Err(e) ==> after == self && e == if request.len > self.buffer_size() {
            DError::InvalidParameter
        } else {
            DError::NoMemory
        })
        &&& (r matches Ok(post) ==> {
            &&& post.index == self.slots().tail()
            &&& tx_frame_desc(post.desc, request)
            &&& post.tail as int == after.slots().tail()
            &&& after.slots().tail() == next_slot(self.slots().tail(), self.slots().size())
            &&& after.slots().head() == self.slots().head()
            &&& after.slots().slot(post.index as int) == Some(request)
            &&& after.written(post.index as int) == post.desc
            &&& forall|i: int|
                0 <= i < self.slots().size() && i != post.index ==> #[trigger] after.written(i)
                    == self.written(i) && after.slots().slot(i) == self.slots().slot(i)
            &&& after.slots().pending() == self.slots().pending().push(request)
        })
    }

    /// What `next_finished(hw_head, wb)` does, `wb` being the write-back
    /// read from the reclaim slot: `None`, with the ring untouched, when
    /// nothing is in flight, the device has not moved past that slot, or
    /// DD is clear; otherwise the oldest request comes back and the
    /// reclaim cursor advances.
    pub open spec fn finished_result(
        self,
        after: Self,
        hw_head: u32,
        wb: AdvTxDescWB,
        r: Option<Request<B>>,
    ) -> bool {
        let ready = self.slots().len() > 0 && self.slots().head() != hw_head as int && wb.done();
        &&& after.buffer_size() == self.buffer_size()
        &&& after.queue_state() == self.queue_state()
        &&& after.slots().size() == self.slots().size()
        &&& (r is Some <==> ready)
        &&& (r is None ==> after == self)
        &&& (r matches Some(req) ==> {
            &&& req == self.slots().pending()[0]
            &&& after.slots().tail() == self.slots().tail()
            &&& after.slots().head() == next_slot(self.slots().head(), self.slots().size())
            &&& after.slots().slot(self.slots().head()) is None
            &&& forall|i: int|
                0 <= i < self.slots().size() ==> #[trigger] after.written(i) == self.written(i)
                    && (i != self.slots().head() ==> after.slots().slot(i) == self.slots().slot(i))
            &&& after.slots().pending() == self.slots().pending().drop_first()
        })
    }

    /// A transmit ring of `count` slots for frames of at most `pkt_size`
    /// bytes. `InvalidParameter` unless `count` is a valid ring size and
    /// `pkt_size` fits the length field.
    pub fn new(count: usize, pkt_size: usize) -> (r: Result<Self, DError>)
        ensures
            r is Err <==> !(valid_ring_size(count) && valid_tx_packet_size(pkt_size)),
            r matches Err(e) ==> e == DError::InvalidParameter,
            r matches Ok(ring) ==> {
                &&& ring.wf()
                &&& ring.slots().size() == count
                &&& ring.buffer_size() == pkt_size
                &&& ring.slots().head() == 0
                &&& ring.slots().tail() == 0
                &&& ring.slots().pending().len() == 0
                &&& ring.queue_state() == QueueState::Uninitialized
            },
    {
        if !is_valid_ring_size(count) || pkt_size < 1 || pkt_size > MAX_TX_LEN {
            return Err(DError::InvalidParameter);
        }
        let ring = Ring::new(count);
        let r = TxRing {
            ring,
            pkt_size,
            state: QueueState::Uninitialized,
            posted: Ghost(Seq::new(count as nat, |i: int| AdvTxDesc { lo: 0, hi: 0 })),
        };
        proof {
            r.ring.lemma_slots();
        }
        Ok(r)
    }

    /// Where the queue stands in its lifecycle.
    pub fn state(&self) -> (r: QueueState)
        ensures
            r == self.queue_state(),
    {
        self.state
    }

    /// Records that the device confirmed the queue enable (TXDCTL.ENABLE
    /// read back as 1). Only then may buffers be posted.
    pub fn set_enabled(&mut self)
        requires
            old(self).wf(),
            old(self).queue_state() != QueueState::Enabled,
        ensures
            final(self).wf(),
            final(self).queue_state() == QueueState::Enabled,
            final(self).slots() == old(self).slots(),
            final(self).buffer_size() == old(self).buffer_size(),
    {
        self.state = QueueState::Enabled;
    }

    /// Disables the queue: the TXDCTL value to write, with ENABLE clear.
    pub fn disable_queue(&mut self) -> (r: u32)
        requires
            old(self).wf(),
            old(self).queue_state() == QueueState::Enabled,
        ensures
            final(self).wf(),
            final(self).queue_state() == QueueState::Disabled,
            final(self).slots() == old(self).slots(),
            final(self).buffer_size() == old(self).buffer_size(),
            r == TXDCTL_WTHRESH_1,
    {
        self.state = QueueState::Disabled;
        TXDCTL_WTHRESH_1
    }

    /// The largest frame the ring accepts.
    pub fn packet_size(&self) -> (r: usize)
        ensures
            r == self.buffer_size(),
    {
        self.pkt_size
    }

    /// The number of slots.
    pub fn count(&self) -> (r: usize)
        requires
            self.wf(),
        ensures
            r == self.slots().size(),
    {
        self.ring.count()
    }

    /// The most frames that can be in flight at once: one slot stays free.
    pub fn request_max_count(&self) -> (r: usize)
        requires
            self.wf(),
        ensures
            r == self.slots().size() - 1,
    {
        self.ring.count() - 1
    }

    /// The slot whose write-back `next_finished` examines.
    pub fn next_index(&self) -> (r: usize)
        ensures
            r == self.slots().head(),
    {
        self.ring.head_index()
    }

    /// Whether `send` would fail for lack of a slot, given the head the
    /// device reports (TDH).
    pub fn is_queue_full(&self, hw_head: u32) -> (r: bool)
        requires
            self.wf(),
        ensures
            r == self.full_at(hw_head),
    {
        let count = self.ring.count();
        let tail = self.ring.tail_index();
        let next = if tail + 1 >= count { 0 } else { tail + 1 };
        next == hw_head as usize || next == self.ring.head_index()
    }

    /// The register values that program this queue for a descriptor
    /// table at `bus_addr`.
    pub fn config(&self, bus_addr: u64) -> (r: TxQueueConfig)
        requires
            self.wf(),
        ensures
            r.tdbal == bus_addr as u32,
            r.tdbah == (bus_addr >> 32u64) as u32,
            r.tdlen == self.slots().size() * 16,
            r.txdctl == TXDCTL_WTHRESH_1,
            r.txdctl_enable == TXDCTL_WTHRESH_1 | TXDCTL_ENABLE,
    {
        TxQueueConfig {
            tdbal: bus_addr as u32,
            tdbah: (bus_addr >> 32u64) as u32,
            tdlen: self.ring.size_bytes() as u32,
            txdctl: TXDCTL_WTHRESH_1,
            txdctl_enable: TXDCTL_WTHRESH_1 | TXDCTL_ENABLE,
        }
    }

    /// Posts the frame of `request` at the tail slot, given the head the
    /// device reports (TDH).
    pub fn send(&mut self, request: Request<B>, hw_head: u32) -> (r: Result<TxPost, DError>)
        requires
            old(self).wf(),
            old(self).queue_state() == QueueState::Enabled,
        ensures
            final(self).wf(),
            old(self).send_result(*final(self), request, hw_head, r),
    {
        if request.len > self.pkt_size {
            return Err(DError::InvalidParameter);
        }
        if self.is_queue_full(hw_head) {
            return Err(DError::NoMemory);
        }
        let cmds = [TxAdvDescCmd::EOP, TxAdvDescCmd::RS, TxAdvDescCmd::IFCS, TxAdvDescCmd::DEXT];
        assert(cmds@ =~= tx_frame_cmds());
        let desc = AdvTxDesc::new(request.bus_addr, request.len, TxAdvDescType::Data, &cmds);
        let tail = self.ring.tail_index();
        let count = self.ring.count();
        let next = if tail + 1 >= count { 0 } else { tail + 1 };
        let index = self.ring.post(request);
        self.posted = Ghost(self.posted@.update(index as int, desc));
        Ok(TxPost { index, desc, tail: next as u32 })
    }

    /// Reclaims the oldest sent frame, given the head the device reports
    /// (TDH) and the write-back read from slot `next_index()`.
    pub fn next_finished(&mut self, hw_head: u32, wb: AdvTxDescWB) -> (r: Option<Request<B>>)
        requires
            old(self).wf(),
            old(self).queue_state() == QueueState::Enabled,
        ensures
            final(self).wf(),
            old(self).finished_result(*final(self), hw_head, wb, r),
    {
        if self.ring.empty() || self.ring.head_index() == hw_head as usize || !wb.is_done() {
            return None;
        }
        let request = self.ring.take();
        assert(forall|i: int|
            0 <= i < self.ring.size() && #[trigger] self.ring.slot(i) is Some ==> i != old(self).ring.head());
        Some(request)
    }

    /// The poll that waits for TXDCTL.ENABLE after the queue is enabled:
    /// 1000 tries, 1 ms apart.
    pub fn enable_poll() -> (r: Poll)
        ensures
            r.limit() == 1000,
            r.interval_ms() == 1,
            r.tries() == 0,
    {
        Poll::new(1000, 1)
    }
}

/// Whether a TXDCTL value reads as enabled.
pub fn txdctl_enabled(txdctl: u32) -> (r: bool)
    ensures
        r == (txdctl & TXDCTL_ENABLE != 0),
{
    txdctl & TXDCTL_ENABLE != 0
}

/// A send never moves a frame in flight, and a successful one puts the new
/// frame behind all of them.
pub proof fn lemma_tx_send_queue<B>(
    a: TxRing<B>,
    b: TxRing<B>,
    request: Request<B>,
    hw_head: u32,
    res: Result<TxPost, DError>,
    k: int,
)
    requires
        a.send_result(b, request, hw_head, res),
        0 <= k < a.slots().pending().len(),
    ensures
        b.slots().pending()[k] == a.slots().pending()[k],
        res is Ok ==> b.slots().pending()[a.slots().pending().len() as int] == request,
{
}

/// Frames come back in the order they were sent: a successful
/// `next_finished` returns the oldest frame in flight and moves every
/// other one a place forward, so a frame sent behind `k` others is
/// returned by the `k + 1`-th successful `next_finished`.
pub proof fn lemma_tx_finished_queue<B>(
    a: TxRing<B>,
    b: TxRing<B>,
    hw_head: u32,
    wb: AdvTxDescWB,
    req: Request<B>,
    k: int,
)
    requires
        a.finished_result(b, hw_head, wb, Some(req)),
        0 <= k < a.slots().pending().len(),
    ensures
        k == 0 ==> req == a.slots().pending()[k],
        k > 0 ==> b.slots().pending()[k - 1] == a.slots().pending()[k],
{
}

/// A frame exactly as long as the buffer size is accepted when a slot is
/// free; one byte longer is refused with `InvalidParameter`.
pub proof fn lemma_tx_length_boundary<B>(
    a: TxRing<B>,
    b: TxRing<B>,
    request: Request<B>,
    hw_head: u32,
    res: Result<TxPost, DError>,
)
    requires
        a.send_result(b, request, hw_head, res),
    ensures
        request.len == a.buffer_size() && !a.full_at(hw_head) ==> res is Ok,
        request.len == a.buffer_size() + 1 ==> res == Err::<TxPost, DError>(
            DError::InvalidParameter,
        ),
{
}

/// The `cmd_type_len` of a standalone data frame of `len` bytes: the
/// length in bits 19:0, then DTYPE = data (0x3 << 20), EOP, IFCS, RS and
/// DEXT, which make 0x2B30_0000.
pub proof fn lemma_tx_frame_cmd_type_len(len: usize)
    ensures
        cmd_type_len_of(len, TxAdvDescType::Data, tx_frame_cmds()) == ((len as u32) & 0xF_FFFFu32)
            | 0x2B30_0000u32,
{
    let s = tx_frame_cmds();
    assert(s.drop_last().drop_last().drop_last().drop_last() =~= Seq::<TxAdvDescCmd>::empty());
    reveal_with_fuel(cmds_bits, 5);
    let l = (len as u32) & 0xF_FFFFu32;
    assert(l | (0b11u32 << 20u32) | ((((0u32 | (1u32 << 24u32)) | (1u32 << 27u32)) | (1u32
        << 25u32)) | (1u32 << 29u32)) == l | 0x2B30_0000u32) by (bit_vector);
}

/// Along any run of successful `next_finished` calls, the `k`-th request
/// returned (counting from 0) is the frame that had `k` frames ahead of it
/// when the run began: sent frames come back in the order they were sent.
pub proof fn lemma_tx_reclaim_order<B>(
    states: Seq<TxRing<B>>,
    heads: Seq<u32>,
    wbs: Seq<AdvTxDescWB>,
    reqs: Seq<Request<B>>,
    k: int,
)
    requires
        states.len() == reqs.len() + 1,
        heads.len() == reqs.len(),
        wbs.len() == reqs.len(),
        forall|j: int|
            0 <= j < reqs.len() ==> states[j].finished_result(
                states[j + 1],
                heads[j],
                wbs[j],
                Some(#[trigger] reqs[j]),
            ),
        0 <= k < reqs.len(),
        k < states[0].slots().pending().len(),
    ensures
        reqs[k] == states[0].slots().pending()[k],
    decreases k,
{
    assert(states[0].finished_result(states[1], heads[0], wbs[0], Some(reqs[0])));
    if k > 0 {
        lemma_tx_finished_queue(states[0], states[1], heads[0], wbs[0], reqs[0], k);
        let later_states = states.drop_first();
        let later_heads = heads.drop_first();
        let later_wbs = wbs.drop_first();
        let later_reqs = reqs.drop_first();
        assert forall|j: int| 0 <= j < later_reqs.len() implies later_states[j].finished_result(
            later_states[j + 1],
            later_heads[j],
            later_wbs[j],
            Some(#[trigger] later_reqs[j]),
        ) by {
            assert(states[j + 1].finished_result(
                states[j + 2],
                heads[j + 1],
                wbs[j + 1],
                Some(reqs[j + 1]),
            ));
        }
        lemma_tx_reclaim_order(later_states, later_heads, later_wbs, later_reqs, k - 1);
    }
}

/// When `send` hands out a new tail, every slot from the head up to (not
/// including) that tail holds a frame whose data descriptor has been
/// produced and names that frame's buffer and length.
pub proof fn lemma_tx_tail_covers_written_slots<B>(
    a: TxRing<B>,
    b: TxRing<B>,
    request: Request<B>,
    hw_head: u32,
    post: TxPost,
)
    requires
        a.wf(),
        b.wf(),
        a.send_result(b, request, hw_head, Ok(post)),
    ensures
        post.tail as int == b.slots().tail(),
        forall|i: int|
            0 <= i < b.slots().size() && in_window(
                i,
                b.slots().head(),
                post.tail as int,
                b.slots().size(),
            ) ==> #[trigger] b.slots().slot(i) is Some && tx_frame_desc(
                b.written(i),
                b.slots().slot(i)->Some_0,
            ),
{
    b.slots().lemma_slots();
}

} // verus!
