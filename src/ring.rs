//! The descriptor-ring engine: slot bookkeeping shared by the RX and TX
//! rings, and the requests that carry packet buffers through them.
//!
//! A ring of `count` slots keeps a software tail (the next slot to post)
//! and a head cursor (the next slot to complete). The slots in the cyclic
//! window `[head, tail)` are posted to the device and each owns exactly
//! one request; every other slot is empty. One slot always stays free so
//! that a full ring differs from an empty one.
use vstd::prelude::*;

use vstd::set_lib::{lemma_int_range, lemma_set_disjoint_lens, set_int_range};

pub mod rx;
pub mod tx;

verus! {

/// The direction of the DMA transfer a buffer takes part in.
#[derive(Debug, Clone, Copy, PartialEq, Eq)]
pub enum Direction {
    /// The device writes the buffer (receive).
    FromDevice,
    /// The device reads the buffer (transmit).
    ToDevice,
}

/// Where a queue stands in its lifecycle. Posting and collecting are only
/// allowed while it is enabled.
#[derive(Debug, Clone, Copy, PartialEq, Eq)]
pub enum QueueState {
    /// Created; the device has not confirmed the queue enable yet.
    Uninitialized,
    /// The device confirmed the queue enable.
    Enabled,
    /// The queue enable was cleared; the queue may be released.
    Disabled,
}

/// A packet buffer handed to a ring: the owned buffer `buff`, its bus
/// address, the number of bytes that count, and the transfer direction.
pub struct Request<B> {
    pub buff: B,
    pub bus_addr: u64,
    pub len: usize,
    pub dir: Direction,
}

impl<B> Request<B> {
    /// A request for the device to fill `buff`, mapped at `bus_addr`.
    pub fn new_rx(buff: B, bus_addr: u64, len: usize) -> (r: Self)
        ensures
            r.buff == buff,
            r.bus_addr == bus_addr,
            r.len == len,
            r.dir == Direction::FromDevice,
    {
        Request { buff, bus_addr, len, dir: Direction::FromDevice }
    }

    /// A request for the device to send the first `len` bytes of `buff`,
    /// mapped at `bus_addr`.
    pub fn new_tx(buff: B, bus_addr: u64, len: usize) -> (r: Self)
        ensures
            r.buff == buff,
            r.bus_addr == bus_addr,
            r.len == len,
            r.dir == Direction::ToDevice,
    {
        Request { buff, bus_addr, len, dir: Direction::ToDevice }
    }

    /// The bus address of the buffer.
    pub fn bus_addr(&self) -> (r: u64)
        ensures
            r == self.bus_addr,
    {
        self.bus_addr
    }

    /// The number of bytes of the buffer that take part in the transfer.
    pub fn len(&self) -> (r: usize)
        ensures
            r == self.len,
    {
        self.len
    }

    /// Gives the buffer back.
    pub fn into_buff(self) -> (r: B)
        ensures
            r == self.buff,
    {
        self.buff
    }
}

/// The number of RX (and of TX) queues.
pub const QUEUE_COUNT: usize = 16;

/// The offset of queue `queue`'s copy of register `reg`, given as the
/// queue-0 offset: each queue's register block lies 0x40 bytes after the
/// previous one.
pub fn queue_reg(queue: usize, reg: usize) -> (r: usize)
    requires
        queue < QUEUE_COUNT,
        reg <= 0x1_0000,
    ensures
        r == reg + queue * 0x40,
{
    reg + queue * 0x40
}

/// The number of descriptors a ring gets when none is asked for.
pub const DEFAULT_RING_SIZE: usize = 256;

/// The smallest ring: 128 bytes of 16-byte descriptors.
pub const MIN_RING_SIZE: usize = 8;

/// The largest ring whose byte length the length register can hold.
pub const MAX_RING_SIZE: usize = 32768;

/// A ring size is a power of two between the smallest and largest sizes.
pub open spec fn valid_ring_size(count: usize) -> bool {
    MIN_RING_SIZE <= count <= MAX_RING_SIZE && count & ((count - 1) as usize) == 0
}

/// Whether `count` is a ring size the device accepts.
pub fn is_valid_ring_size(count: usize) -> (r: bool)
    ensures
        r == valid_ring_size(count),
{
    MIN_RING_SIZE <= count && count <= MAX_RING_SIZE && count & (count - 1) == 0
}

/// The slot after `i` in a ring of `count` slots.
pub open spec fn next_slot(i: int, count: int) -> int {
    if i + 1 >= count {
        0
    } else {
        i + 1
    }
}

/// The number of slots in the cyclic window `[head, tail)`.
pub open spec fn window_len(head: int, tail: int, count: int) -> int {
    if head <= tail {
        tail - head
    } else {
        tail + count - head
    }
}

/// The `k`-th slot of the window that starts at `head`.
pub open spec fn window_slot(head: int, k: int, count: int) -> int {
    if head + k < count {
        head + k
    } else {
        head + k - count
    }
}

/// Whether slot `i` lies in the cyclic window `[head, tail)`.
pub open spec fn in_window(i: int, head: int, tail: int, count: int) -> bool {
    if head <= tail {
        head <= i < tail
    } else {
        head <= i < count || 0 <= i < tail
    }
}

fn next_index(i: usize, count: usize) -> (r: usize)
    requires
        i < count,
    ensures
        r == next_slot(i as int, count as int),
        r < count,
{
    if i + 1 >= count {
        0
    } else {
        i + 1
    }
}

/// The slot bookkeeping of one ring: for each slot the request it owns
/// while posted, the head cursor and the software tail.
pub struct Ring<B> {
    meta: Vec<Option<Request<B>>>,
    head: usize,
    tail: usize,
}

impl<B> Ring<B> {
    /// The number of slots.
    pub closed spec fn size(self) -> int {
        self.meta@.len() as int
    }

    /// The next slot to complete (the cached hardware head).
    pub closed spec fn head(self) -> int {
        self.head as int
    }

    /// The next slot to post into (the software tail).
    pub closed spec fn tail(self) -> int {
        self.tail as int
    }

    /// What slot `i` holds.
    pub closed spec fn slot(self, i: int) -> Option<Request<B>> {
        self.meta@[i]
    }

    /// The set of slots that hold a request.
    pub closed spec fn occupied(self) -> Set<int> {
        Set::new(|i: int| 0 <= i < self.size() && self.meta@[i] is Some)
    }

    /// The ring's invariant: a valid size, both cursors in range, and a
    /// slot holds a request exactly when it lies in `[head, tail)`.
    pub closed spec fn wf(self) -> bool {
        &&& 2 <= self.size() <= MAX_RING_SIZE
        &&& self.head < self.size()
        &&& self.tail < self.size()
        &&& forall|i: int|
            0 <= i < self.size() ==> (#[trigger] self.meta@[i] is Some <==> in_window(
                i,
                self.head as int,
                self.tail as int,
                self.size(),
            ))
    }

    /// The number of posted requests.
    pub open spec fn len(self) -> int {
        window_len(self.head(), self.tail(), self.size())
    }

    /// The posted requests, oldest first.
    pub closed spec fn pending(self) -> Seq<Request<B>> {
        Seq::new(
            self.len() as nat,
            |k: int| self.meta@[window_slot(self.head as int, k, self.size())]->Some_0,
        )
    }

    /// No slot is free to post into.
    pub open spec fn is_full(self) -> bool {
        next_slot(self.tail(), self.size()) == self.head()
    }

    /// An empty ring of `count` slots.
    pub fn new(count: usize) -> (r: Self)
        requires
            2 <= count <= MAX_RING_SIZE,
        ensures
            r.wf(),
            r.size() == count,
            r.head() == 0,
            r.tail() == 0,
            r.pending() == Seq::<Request<B>>::empty(),
    {
        let mut meta: Vec<Option<Request<B>>> = Vec::new();
        let mut i: usize = 0;
        while i < count
            invariant
                i <= count,
                meta@.len() == i,
                forall|j: int| 0 <= j < i ==> #[trigger] meta@[j] is None,
            decreases count - i,
        {
            meta.push(None);
            i = i + 1;
        }
        let r = Ring { meta, head: 0, tail: 0 };
        assert(r.pending() =~= Seq::<Request<B>>::empty());
        r
    }

    /// The number of slots.
    pub fn count(&self) -> (r: usize)
        requires
            self.wf(),
        ensures
            r == self.size(),
    {
        self.meta.len()
    }

    /// The byte length of the descriptor table: 16 bytes per slot.
    pub fn size_bytes(&self) -> (r: usize)
        requires
            self.wf(),
        ensures
            r == self.size() * 16,
    {
        self.meta.len() * 16
    }

    /// The next slot to complete.
    pub fn head_index(&self) -> (r: usize)
        ensures
            r == self.head(),
    {
        self.head
    }

    /// The next slot to post into.
    pub fn tail_index(&self) -> (r: usize)
        ensures
            r == self.tail(),
    {
        self.tail
    }

    /// Whether every slot but the reserved one is posted.
    pub fn full(&self) -> (r: bool)
        requires
            self.wf(),
        ensures
            r == self.is_full(),
    {
        next_index(self.tail, self.meta.len()) == self.head
    }

    /// Whether no request is posted.
    pub fn empty(&self) -> (r: bool)
        requires
            self.wf(),
        ensures
            r == (self.len() == 0),
            r == (self.pending().len() == 0),
    {
        self.head == self.tail
    }

    /// Puts `request` into the tail slot and advances the tail.
    pub fn post(&mut self, request: Request<B>) -> (slot: usize)
        requires
            old(self).wf(),
            !old(self).is_full(),
        ensures
            final(self).wf(),
            slot == old(self).tail(),
            final(self).size() == old(self).size(),
            final(self).head() == old(self).head(),
            final(self).tail() == next_slot(old(self).tail(), old(self).size()),
            final(self).slot(slot as int) == Some(request),
            forall|i: int| 0 <= i < old(self).size() && i != slot ==> #[trigger] final(self).slot(i) == old(self).slot(i),
            final(self).pending() == old(self).pending().push(request),
    {
        let ghost old_ring = *self;
        let slot = self.tail;
        let count = self.meta.len();
        self.meta.set(slot, Some(request));
        self.tail = next_index(slot, count);
        proof {
            let n = count as int;
            let h = self.head as int;
            let t = slot as int;
            assert forall|i: int| 0 <= i < n implies (#[trigger] self.meta@[i] is Some <==> in_window(
                i,
                h,
                self.tail as int,
                n,
            )) by {
                if i != t {
                    assert(self.meta@[i] == old_ring.meta@[i]);
                }
            }
            assert(self.len() == old_ring.len() + 1);
            assert forall|k: int| 0 <= k < old_ring.len() implies window_slot(h, k, n) != t
                && in_window(window_slot(h, k, n), h, t, n) by {}
            assert(window_slot(h, old_ring.len(), n) == t);
            assert(self.pending() =~= old_ring.pending().push(request));
        }
        slot
    }

    /// Takes the request out of the head slot and advances the head.
    pub fn take(&mut self) -> (r: Request<B>)
        requires
            old(self).wf(),
            old(self).len() > 0,
        ensures
            final(self).wf(),
            final(self).size() == old(self).size(),
            final(self).tail() == old(self).tail(),
            final(self).head() == next_slot(old(self).head(), old(self).size()),
            final(self).slot(old(self).head()) is None,
            forall|i: int|
                0 <= i < old(self).size() && i != old(self).head() ==> #[trigger] final(self).slot(i) == old(self).slot(i),
            old(self).slot(old(self).head()) == Some(r),
            r == old(self).pending()[0],
            final(self).pending() == old(self).pending().drop_first(),
    {
        let ghost old_ring = *self;
        let slot = self.head;
        let count = self.meta.len();
        let mut out: Option<Request<B>> = None;
        core::mem::swap(&mut out, &mut self.meta[slot]);
        self.head = next_index(slot, count);
        proof {
            let n = count as int;
            let h = slot as int;
            let t = self.tail as int;
            assert(in_window(h, h, t, n));
            assert(old_ring.meta@[h] is Some);
            assert forall|i: int| 0 <= i < n implies (#[trigger] self.meta@[i] is Some <==> in_window(
                i,
                self.head as int,
                t,
                n,
            )) by {
                if i != h {
                    assert(self.meta@[i] == old_ring.meta@[i]);
                }
            }
            assert(self.len() == old_ring.len() - 1);
            assert(old_ring.pending()[0] == old_ring.meta@[h]->Some_0);
            assert forall|k: int| 0 <= k < self.len() implies window_slot(self.head as int, k, n)
                == window_slot(h, k + 1, n) by {}
            assert(self.pending() =~= old_ring.pending().drop_first());
        }
        out.unwrap()
    }
}


impl<B> Ring<B> {
    /// What the invariant says of each slot, for use outside this module.
    pub proof fn lemma_slots(self)
        requires
            self.wf(),
        ensures
            2 <= self.size() <= MAX_RING_SIZE,
            0 <= self.head() < self.size(),
            0 <= self.tail() < self.size(),
            forall|i: int|
                0 <= i < self.size() ==> (#[trigger] self.slot(i) is Some <==> in_window(
                    i,
                    self.head(),
                    self.tail(),
                    self.size(),
                )),
            forall|k: int|
                0 <= k < self.len() ==> #[trigger] self.slot(window_slot(self.head(), k, self.size()))
                    == Some(self.pending()[k]),
            self.pending().len() == self.len(),
    {
        assert forall|k: int| 0 <= k < self.len() implies #[trigger] self.slot(
            window_slot(self.head(), k, self.size()),
        ) == Some(self.pending()[k]) by {
            let i = window_slot(self.head(), k, self.size());
            assert(in_window(i, self.head(), self.tail(), self.size()));
        }
    }

    /// The slots that hold a request are exactly the `(tail - head) mod
    /// count` slots of the window `[head, tail)`.
    pub proof fn lemma_occupied_count(self)
        requires
            self.wf(),
        ensures
            self.occupied() == Set::new(
                |i: int| 0 <= i < self.size() && in_window(i, self.head(), self.tail(), self.size()),
            ),
            self.occupied().len() == self.len(),
            self.len() == (self.tail() - self.head()) % self.size(),
            0 <= self.len() < self.size(),
    {
        let n = self.size();
        let h = self.head();
        let t = self.tail();
        let w = Set::new(|i: int| 0 <= i < n && in_window(i, h, t, n));
        assert(self.occupied() =~= w);
        if h <= t {
            assert(w =~= set_int_range(h, t));
            lemma_int_range(h, t);
        } else {
            let a = set_int_range(h, n);
            let b = set_int_range(0, t);
            assert(w =~= a.union(b));
            lemma_int_range(h, n);
            lemma_int_range(0, t);
            assert(a.disjoint(b));
            lemma_set_disjoint_lens(a, b);
        }
        if h <= t {
            assert((t - h) % n == t - h) by (nonlinear_arith)
                requires
                    0 <= t - h < n,
            ;
        } else {
            assert((t - h) % n == t + n - h) by (nonlinear_arith)
                requires
                    -n < t - h < 0,
            ;
        }
    }
}

} // verus!
