//! Bit-exact encoding and decoding of the 16-byte advanced RX and TX
//! descriptors of the 82576, in their software-posted ("read") and
//! hardware-completed ("write-back") layouts.
use vstd::prelude::*;

verus! {

/// Marker for the descriptor cells a ring can hold.
pub trait Descriptor {}

// ---------------------------------------------------------------------------
// Bit helpers shared by the contracts.
// ---------------------------------------------------------------------------

/// Bit `n` of a 32-bit word.
pub open spec fn bit32(x: u32, n: u32) -> bool {
    (x >> n) & 1u32 == 1u32
}

/// Bit `n` of a 64-bit word.
pub open spec fn bit64(x: u64, n: u64) -> bool {
    (x >> n) & 1u64 == 1u64
}

// Extended-status bit positions in `error_type_status`.
pub const STATUS_DD: u32 = 0;
pub const STATUS_EOP: u32 = 1;
pub const STATUS_VP: u32 = 3;
pub const STATUS_L4I: u32 = 5;
pub const STATUS_IPCS: u32 = 6;
pub const STATUS_TS: u32 = 16;
pub const STATUS_LB: u32 = 18;

// Extended-error bit positions, counted inside the 12-bit error field
// `error_type_status[31:20]`.
pub const ERROR_HBO: u32 = 3;
pub const ERROR_SECERR: u32 = 7;
pub const ERROR_L4E: u32 = 9;
pub const ERROR_IPE: u32 = 10;
pub const ERROR_RXE: u32 = 11;

/// The 12-bit extended-error field of `error_type_status`.
pub open spec fn ext_error_of(ets: u32) -> u32 {
    ets >> 20
}

/// Whether extended-error bit `n` is set.
pub open spec fn error_bit(ets: u32, n: u32) -> bool {
    bit32(ext_error_of(ets), n)
}

// ---------------------------------------------------------------------------
// The 16-byte wire form of a descriptor cell.
// ---------------------------------------------------------------------------

/// The little-endian 64-bit word in bytes `off .. off + 8` of `b`.
pub open spec fn le_u64(b: Seq<u8>, off: int) -> u64 {
    (b[off] as u64) | ((b[off + 1] as u64) << 8u64) | ((b[off + 2] as u64) << 16u64) | ((b[off + 3] as u64) << 24u64) | ((b[off + 4] as u64) << 32u64) | ((b[off + 5] as u64) << 40u64) | ((b[off + 6] as u64) << 48u64) | ((b[off + 7] as u64) << 56u64)
}

/// The 16 little-endian bytes of the words `lo` then `hi`.
pub open spec fn le_bytes_of(lo: u64, hi: u64) -> Seq<u8> {
    seq![
        (lo >> 0u64) as u8,
        (lo >> 8u64) as u8,
        (lo >> 16u64) as u8,
        (lo >> 24u64) as u8,
        (lo >> 32u64) as u8,
        (lo >> 40u64) as u8,
        (lo >> 48u64) as u8,
        (lo >> 56u64) as u8,
        (hi >> 0u64) as u8,
        (hi >> 8u64) as u8,
        (hi >> 16u64) as u8,
        (hi >> 24u64) as u8,
        (hi >> 32u64) as u8,
        (hi >> 40u64) as u8,
        (hi >> 48u64) as u8,
        (hi >> 56u64) as u8,
    ]
}

fn words_to_le_bytes(lo: u64, hi: u64) -> (r: [u8; 16])
    ensures
        r@ == le_bytes_of(lo, hi),
{
    let r = [
        (lo >> 0u64) as u8,
        (lo >> 8u64) as u8,
        (lo >> 16u64) as u8,
        (lo >> 24u64) as u8,
        (lo >> 32u64) as u8,
        (lo >> 40u64) as u8,
        (lo >> 48u64) as u8,
        (lo >> 56u64) as u8,
        (hi >> 0u64) as u8,
        (hi >> 8u64) as u8,
        (hi >> 16u64) as u8,
        (hi >> 24u64) as u8,
        (hi >> 32u64) as u8,
        (hi >> 40u64) as u8,
        (hi >> 48u64) as u8,
        (hi >> 56u64) as u8,
    ];
    assert(r@ =~= le_bytes_of(lo, hi));
    r
}

fn le_bytes_to_words(b: &[u8; 16]) -> (r: (u64, u64))
    ensures
        r.0 == le_u64(b@, 0),
        r.1 == le_u64(b@, 8),
{
    let mut lo: u64 = 0;
    let mut hi: u64 = 0;
    let mut k: usize = 8;
    while k > 0
        invariant
            k <= 8,
            lo == le_tail(b@, 0, k as int),
            hi == le_tail(b@, 8, k as int),
        decreases k,
    {
        k = k - 1;
        lo = (lo << 8u64) | (b[k] as u64);
        hi = (hi << 8u64) | (b[k + 8] as u64);
    }
    proof {
        lemma_le_tail_full(b@, 0);
        lemma_le_tail_full(b@, 8);
    }
    (lo, hi)
}

/// The word made of bytes `off + k .. off + 8` of `b`, little-endian.
spec fn le_tail(b: Seq<u8>, off: int, k: int) -> u64
    decreases 8 - k,
{
    if k >= 8 {
        0
    } else {
        (le_tail(b, off, k + 1) << 8u64) | (b[off + k] as u64)
    }
}

proof fn lemma_le_tail_full(b: Seq<u8>, off: int)
    ensures
        le_tail(b, off, 0) == le_u64(b, off),
{
    reveal_with_fuel(le_tail, 9);
    let b0 = b[off] as u64;
    let b1 = b[off + 1] as u64;
    let b2 = b[off + 2] as u64;
    let b3 = b[off + 3] as u64;
    let b4 = b[off + 4] as u64;
    let b5 = b[off + 5] as u64;
    let b6 = b[off + 6] as u64;
    let b7 = b[off + 7] as u64;
    assert(((((((((0u64 << 8u64) | b7) << 8u64 | b6) << 8u64 | b5) << 8u64 | b4) << 8u64 | b3)
        << 8u64 | b2) << 8u64 | b1) << 8u64 | b0 == b0 | (b1 << 8u64) | (b2 << 16u64) | (b3
        << 24u64) | (b4 << 32u64) | (b5 << 40u64) | (b6 << 48u64) | (b7 << 56u64)) by (bit_vector)
        requires
            b0 < 256,
            b1 < 256,
            b2 < 256,
            b3 < 256,
            b4 < 256,
            b5 < 256,
            b6 < 256,
            b7 < 256,
    ;
}

/// Writing two words as 16 little-endian bytes and reading them back
/// gives the same words.
pub proof fn lemma_le_words_round_trip(lo: u64, hi: u64)
    ensures
        le_u64(le_bytes_of(lo, hi), 0) == lo,
        le_u64(le_bytes_of(lo, hi), 8) == hi,
{
    let s = le_bytes_of(lo, hi);
    assert(le_u64(s, 0) == lo) by {
        assert(((lo >> 0u64) as u8 as u64) | (((lo >> 8u64) as u8 as u64) << 8u64) | (((lo
            >> 16u64) as u8 as u64) << 16u64) | (((lo >> 24u64) as u8 as u64) << 24u64) | (((lo
            >> 32u64) as u8 as u64) << 32u64) | (((lo >> 40u64) as u8 as u64) << 40u64) | (((lo
            >> 48u64) as u8 as u64) << 48u64) | (((lo >> 56u64) as u8 as u64) << 56u64) == lo)
            by (bit_vector);
    }
    assert(le_u64(s, 8) == hi) by {
        assert(((hi >> 0u64) as u8 as u64) | (((hi >> 8u64) as u8 as u64) << 8u64) | (((hi
            >> 16u64) as u8 as u64) << 16u64) | (((hi >> 24u64) as u8 as u64) << 24u64) | (((hi
            >> 32u64) as u8 as u64) << 32u64) | (((hi >> 40u64) as u8 as u64) << 40u64) | (((hi
            >> 48u64) as u8 as u64) << 48u64) | (((hi >> 56u64) as u8 as u64) << 56u64) == hi)
            by (bit_vector);
    }
}

proof fn lemma_le_word_bytes(b: Seq<u8>, off: int)
    requires
        0 <= off,
        off + 8 <= b.len(),
    ensures
        forall|k: int| 0 <= k < 8 ==> #[trigger] ((le_u64(b, off) >> (8 * k) as u64) as u8) == b[off
            + k],
{
    let b0 = b[off] as u64;
    let b1 = b[off + 1] as u64;
    let b2 = b[off + 2] as u64;
    let b3 = b[off + 3] as u64;
    let b4 = b[off + 4] as u64;
    let b5 = b[off + 5] as u64;
    let b6 = b[off + 6] as u64;
    let b7 = b[off + 7] as u64;
    let w = le_u64(b, off);
    assert((w >> 0u64) as u8 == b0 as u8 && (w >> 8u64) as u8 == b1 as u8 && (w >> 16u64) as u8 == b2 as u8 && (w >> 24u64) as u8 == b3 as u8 && (w >> 32u64) as u8 == b4 as u8 && (w >> 40u64) as u8 == b5 as u8 && (w >> 48u64) as u8 == b6 as u8 && (w >> 56u64) as u8 == b7 as u8) by (bit_vector)
        requires
            w == b0 | (b1 << 8u64) | (b2 << 16u64) | (b3 << 24u64) | (b4 << 32u64) | (b5 << 40u64)
                | (b6 << 48u64) | (b7 << 56u64),
            b0 < 256,
            b1 < 256,
            b2 < 256,
            b3 < 256,
            b4 < 256,
            b5 < 256,
            b6 < 256,
            b7 < 256,
    ;
    assert forall|k: int| 0 <= k < 8 implies #[trigger] ((le_u64(b, off) >> (8 * k) as u64) as u8)
        == b[off + k] by {
        if k == 0 {
        } else if k == 1 {
        } else if k == 2 {
        } else if k == 3 {
        } else if k == 4 {
        } else if k == 5 {
        } else if k == 6 {
        } else {
        }
    }
}

/// Reading 16 bytes as two little-endian words and writing the words back
/// gives the same bytes.
pub proof fn lemma_le_bytes_round_trip(b: Seq<u8>)
    requires
        b.len() == 16,
    ensures
        le_bytes_of(le_u64(b, 0), le_u64(b, 8)) == b,
{
    lemma_le_word_bytes(b, 0);
    lemma_le_word_bytes(b, 8);
    let s = le_bytes_of(le_u64(b, 0), le_u64(b, 8));
    assert forall|i: int| 0 <= i < 16 implies s[i] == b[i] by {
        if i < 8 {
            assert((le_u64(b, 0) >> (8 * i) as u64) as u8 == b[0 + i]);
        } else {
            assert((le_u64(b, 8) >> (8 * (i - 8)) as u64) as u8 == b[8 + (i - 8)]);
        }
    }
    assert(s =~= b);
}

// ---------------------------------------------------------------------------
// TX descriptors
// ---------------------------------------------------------------------------

/// The descriptor type carried in `cmd_type_len[23:20]`.
#[derive(Debug, Clone, Copy, PartialEq, Eq)]
pub enum TxAdvDescType {
    Data,
    Context,
}

/// The command bits of `cmd_type_len`.
#[derive(Debug, Clone, Copy, PartialEq, Eq)]
pub enum TxAdvDescCmd {
    EOP,
    IFCS,
    IC,
    RS,
    DEXT,
    VLE,
    IDE,
}

/// Bits `cmd_type_len[23:20]` for a descriptor type.
pub open spec fn dtype_bits(kind: TxAdvDescType) -> u32 {
    match kind {
        TxAdvDescType::Data => 0b11u32 << 20u32,
        TxAdvDescType::Context => 0b10u32 << 20u32,
    }
}

/// The bit of `cmd_type_len` that a command sets.
pub open spec fn cmd_bit(c: TxAdvDescCmd) -> u32 {
    match c {
        TxAdvDescCmd::EOP => 1u32 << 24u32,
        TxAdvDescCmd::IFCS => 1u32 << 25u32,
        TxAdvDescCmd::IC => 1u32 << 26u32,
        TxAdvDescCmd::RS => 1u32 << 27u32,
        TxAdvDescCmd::DEXT => 1u32 << 29u32,
        TxAdvDescCmd::VLE => 1u32 << 30u32,
        TxAdvDescCmd::IDE => 1u32 << 31u32,
    }
}

/// The union of the bits of a list of commands.
pub open spec fn cmds_bits(cmds: Seq<TxAdvDescCmd>) -> u32
    decreases cmds.len(),
{
    if cmds.len() == 0 {
        0u32
    } else {
        cmds_bits(cmds.drop_last()) | cmd_bit(cmds.last())
    }
}

/// `cmd_type_len` of a data or context descriptor: the length in bits
/// [19:0], the type in bits [23:20] and every requested command bit.
pub open spec fn cmd_type_len_of(len: usize, kind: TxAdvDescType, cmds: Seq<TxAdvDescCmd>) -> u32 {
    ((len as u32) & 0xF_FFFFu32) | dtype_bits(kind) | cmds_bits(cmds)
}

fn cmd_mask(c: TxAdvDescCmd) -> (r: u32)
    ensures
        r == cmd_bit(c),
{
    match c {
        TxAdvDescCmd::EOP => 1u32 << 24u32,
        TxAdvDescCmd::IFCS => 1u32 << 25u32,
        TxAdvDescCmd::IC => 1u32 << 26u32,
        TxAdvDescCmd::RS => 1u32 << 27u32,
        TxAdvDescCmd::DEXT => 1u32 << 29u32,
        TxAdvDescCmd::VLE => 1u32 << 30u32,
        TxAdvDescCmd::IDE => 1u32 << 31u32,
    }
}

/// Software-posted layout of a TX descriptor.
#[derive(Debug, Clone, Copy, PartialEq, Eq)]
pub struct AdvTxDescRead {
    pub buffer_addr: u64,
    pub cmd_type_len: u32,
    pub olinfo_status: u32,
}

/// Hardware write-back layout of a TX descriptor.
#[derive(Debug, Clone, Copy, PartialEq, Eq)]
pub struct AdvTxDescWB {
    pub rsvd: u64,
    pub nxtseq_seed: u32,
    pub status: u32,
}

/// A 16-byte TX descriptor cell: the low and the high little-endian
/// 64-bit words, read in either layout.
#[derive(Debug, Clone, Copy, PartialEq, Eq)]
pub struct AdvTxDesc {
    pub lo: u64,
    pub hi: u64,
}

impl Descriptor for AdvTxDesc {}

impl AdvTxDesc {
    /// The cell from its 16 bytes as the device sees them (little-endian).
    pub fn from_le_bytes(b: &[u8; 16]) -> (r: Self)
        ensures
            r.lo == le_u64(b@, 0),
            r.hi == le_u64(b@, 8),
    {
        let (lo, hi) = le_bytes_to_words(b);
        AdvTxDesc { lo, hi }
    }

    /// The cell's 16 bytes as the device sees them (little-endian).
    pub fn to_le_bytes(&self) -> (r: [u8; 16])
        ensures
            r@ == le_bytes_of(self.lo, self.hi),
    {
        words_to_le_bytes(self.lo, self.hi)
    }

    pub open spec fn read_view(self) -> AdvTxDescRead {
        AdvTxDescRead {
            buffer_addr: self.lo,
            cmd_type_len: self.hi as u32,
            olinfo_status: (self.hi >> 32u64) as u32,
        }
    }

    pub open spec fn write_view(self) -> AdvTxDescWB {
        AdvTxDescWB {
            rsvd: self.lo,
            nxtseq_seed: self.hi as u32,
            status: (self.hi >> 32u64) as u32,
        }
    }

    /// A data or context descriptor for the buffer at `buffer_addr` of
    /// `buffer_len` bytes, with the given command bits.
    pub fn new(
        buffer_addr: u64,
        buffer_len: usize,
        kind: TxAdvDescType,
        cmd_ls: &[TxAdvDescCmd],
    ) -> (r: Self)
        ensures
            r.read_view() == (AdvTxDescRead {
                buffer_addr,
                cmd_type_len: cmd_type_len_of(buffer_len, kind, cmd_ls@),
                olinfo_status: 0,
            }),
    {
        let len32: u32 = #[verifier::truncate] (buffer_len as u32);
        let mut cmd_type_len: u32 = len32 & 0xF_FFFFu32;
        match kind {
            TxAdvDescType::Data => {
                cmd_type_len = cmd_type_len | (0b11u32 << 20u32);
            },
            TxAdvDescType::Context => {
                cmd_type_len = cmd_type_len | (0b10u32 << 20u32);
            },
        }
        proof {
            let a = len32 & 0xF_FFFFu32;
            let b = dtype_bits(kind);
            assert(cmd_ls@.subrange(0, 0) =~= Seq::<TxAdvDescCmd>::empty());
            assert(a | b | 0u32 == a | b) by (bit_vector);
        }
        let mut i: usize = 0;
        while i < cmd_ls.len()
            invariant
                i <= cmd_ls@.len(),
                len32 == buffer_len as u32,
                cmd_type_len == (len32 & 0xF_FFFFu32) | dtype_bits(kind) | cmds_bits(
                    cmd_ls@.subrange(0, i as int),
                ),
            decreases cmd_ls@.len() - i,
        {
            let c = cmd_ls[i];
            proof {
                let s = cmd_ls@.subrange(0, i as int + 1);
                assert(s.drop_last() =~= cmd_ls@.subrange(0, i as int));
                assert(s.last() == c);
                let a = len32 & 0xF_FFFFu32;
                let b = dtype_bits(kind);
                let p = cmds_bits(cmd_ls@.subrange(0, i as int));
                let q = cmd_bit(c);
                assert((a | b | p) | q == a | b | (p | q)) by (bit_vector);
                assert(cmds_bits(s) == p | q);
            }
            cmd_type_len = cmd_type_len | cmd_mask(c);
            i = i + 1;
        }
        assert(cmd_ls@.subrange(0, cmd_ls@.len() as int) =~= cmd_ls@);
        Self::from_read(AdvTxDescRead { buffer_addr, cmd_type_len, olinfo_status: 0 })
    }

    /// The cell holding a descriptor in the read layout.
    pub fn from_read(d: AdvTxDescRead) -> (r: Self)
        ensures
            r.read_view() == d,
    {
        let r = AdvTxDesc { lo: d.buffer_addr, hi: (d.cmd_type_len as u64) | ((d.olinfo_status as u64) << 32u64) };
        proof {
            let c = d.cmd_type_len;
            let o = d.olinfo_status;
            assert((((c as u64) | ((o as u64) << 32u64)) as u32) == c) by (bit_vector);
            assert(((((c as u64) | ((o as u64) << 32u64)) >> 32u64) as u32) == o) by (bit_vector);
        }
        r
    }

    /// The cell holding a descriptor in the write-back layout.
    pub fn from_write(d: AdvTxDescWB) -> (r: Self)
        ensures
            r.write_view() == d,
    {
        let r = AdvTxDesc { lo: d.rsvd, hi: (d.nxtseq_seed as u64) | ((d.status as u64) << 32u64) };
        proof {
            let c = d.nxtseq_seed;
            let o = d.status;
            assert((((c as u64) | ((o as u64) << 32u64)) as u32) == c) by (bit_vector);
            assert(((((c as u64) | ((o as u64) << 32u64)) >> 32u64) as u32) == o) by (bit_vector);
        }
        r
    }

    /// The cell read in the software-posted layout.
    pub fn read(&self) -> (r: AdvTxDescRead)
        ensures
            r == self.read_view(),
    {
        AdvTxDescRead {
            buffer_addr: self.lo,
            cmd_type_len: self.hi as u32,
            olinfo_status: (self.hi >> 32u64) as u32,
        }
    }

    /// The cell read in the write-back layout.
    pub fn write(&self) -> (r: AdvTxDescWB)
        ensures
            r == self.write_view(),
    {
        AdvTxDescWB {
            rsvd: self.lo,
            nxtseq_seed: self.hi as u32,
            status: (self.hi >> 32u64) as u32,
        }
    }
}

impl AdvTxDescWB {
    pub open spec fn done(self) -> bool {
        bit32(self.status, 0)
    }

    /// Whether the device has set the Descriptor Done bit.
    pub fn is_done(&self) -> (r: bool)
        ensures
            r == self.done(),
    {
        (self.status >> 0u32) & 1u32 == 1u32
    }

    /// The same write-back with its Descriptor Done bit set to `done`,
    /// every other bit kept.
    pub fn with_done(self, done: bool) -> (r: Self)
        ensures
            r.done() == done,
            r.rsvd == self.rsvd,
            r.nxtseq_seed == self.nxtseq_seed,
            r.status >> 1u32 == self.status >> 1u32,
    {
        let s = self.status;
        let status = if done { s | 1u32 } else { s & !1u32 };
        proof {
            assert(((s | 1u32) >> 0u32) & 1u32 == 1u32) by (bit_vector);
            assert(!(((s & !1u32) >> 0u32) & 1u32 == 1u32)) by (bit_vector);
            assert((s | 1u32) >> 1u32 == s >> 1u32) by (bit_vector);
            assert((s & !1u32) >> 1u32 == s >> 1u32) by (bit_vector);
        }
        AdvTxDescWB { rsvd: self.rsvd, nxtseq_seed: self.nxtseq_seed, status }
    }
}


// ---------------------------------------------------------------------------
// RX descriptors
// ---------------------------------------------------------------------------

/// The RSS hash function the device applied to a received packet.
#[derive(Debug, Clone, Copy, PartialEq, Eq)]
pub enum RssType {
    NoHash,
    HashTcpIpv4,
    HashIpv4,
    HashTcpIpv6,
    HashIpv6Ex,
    HashIpv6,
    HashTcpIpv6Ex,
    HashUdpIpv4,
    HashUdpIpv6,
    HashUdpIpv6Ex,
    Reserved(u8),
}

/// The RSS type that a 3-bit (or wider) code names.
pub open spec fn rss_type_spec(val: u8) -> RssType {
    if val == 0 {
        RssType::NoHash
    } else if val == 1 {
        RssType::HashTcpIpv4
    } else if val == 2 {
        RssType::HashIpv4
    } else if val == 3 {
        RssType::HashTcpIpv6
    } else if val == 4 {
        RssType::HashIpv6Ex
    } else if val == 5 {
        RssType::HashIpv6
    } else if val == 6 {
        RssType::HashTcpIpv6Ex
    } else if val == 7 {
        RssType::HashUdpIpv4
    } else if val == 8 {
        RssType::HashUdpIpv6
    } else if val == 9 {
        RssType::HashUdpIpv6Ex
    } else {
        RssType::Reserved(val)
    }
}

impl RssType {
    /// The RSS type that the code `val` names.
    pub fn from_code(val: u8) -> (r: RssType)
        ensures
            r == rss_type_spec(val),
    {
        match val {
            0 => RssType::NoHash,
            1 => RssType::HashTcpIpv4,
            2 => RssType::HashIpv4,
            3 => RssType::HashTcpIpv6,
            4 => RssType::HashIpv6Ex,
            5 => RssType::HashIpv6,
            6 => RssType::HashTcpIpv6Ex,
            7 => RssType::HashUdpIpv4,
            8 => RssType::HashUdpIpv6,
            9 => RssType::HashUdpIpv6Ex,
            _ => RssType::Reserved(val),
        }
    }
}

impl From<u8> for RssType {
    fn from(val: u8) -> (r: RssType) {
        RssType::from_code(val)
    }
}

impl vstd::std_specs::convert::FromSpecImpl<u8> for RssType {
    open spec fn obeys_from_spec() -> bool {
        true
    }

    open spec fn from_spec(val: u8) -> RssType {
        rss_type_spec(val)
    }
}

/// The outcome of inline security processing, from SECERR.
#[derive(Debug, Clone, Copy, PartialEq, Eq)]
pub enum SecurityError {
    NoError,
    NoSaMatch,
    ReplayError,
    BadSignature,
}

/// The security error that the low two bits of `val` name.
pub open spec fn security_error_spec(val: u8) -> SecurityError {
    let v = val & 3u8;
    if v == 0 {
        SecurityError::NoError
    } else if v == 1 {
        SecurityError::NoSaMatch
    } else if v == 2 {
        SecurityError::ReplayError
    } else {
        SecurityError::BadSignature
    }
}

impl SecurityError {
    /// The security error that the low two bits of `val` name.
    pub fn from_code(val: u8) -> (r: SecurityError)
        ensures
            r == security_error_spec(val),
    {
        let v = val & 3u8;
        if v == 0 {
            SecurityError::NoError
        } else if v == 1 {
            SecurityError::NoSaMatch
        } else if v == 2 {
            SecurityError::ReplayError
        } else {
            SecurityError::BadSignature
        }
    }
}

impl From<u8> for SecurityError {
    fn from(val: u8) -> (r: SecurityError) {
        SecurityError::from_code(val)
    }
}

impl vstd::std_specs::convert::FromSpecImpl<u8> for SecurityError {
    open spec fn obeys_from_spec() -> bool {
        true
    }

    open spec fn from_spec(val: u8) -> SecurityError {
        security_error_spec(val)
    }
}

/// Software-posted layout of an RX descriptor: the packet-buffer address
/// with the No-Snoop Enable flag in bit 0, and the header-buffer address
/// with the Descriptor Done bit in bit 0.
#[derive(Debug, Clone, Copy, PartialEq, Eq)]
pub struct AdvRxDescRead {
    pub pkt_addr: u64,
    pub hdr_addr: u64,
}

/// Low half of the RX write-back layout.
#[derive(Debug, Clone, Copy, PartialEq, Eq)]
pub struct LoFields {
    /// RSS hash, or fragment checksum [31:16] and IP identification [15:0].
    pub rss_hash_or_csum_ip: u32,
    /// Header length [31:22], split header [21], extended status [16:0].
    pub hdr_status: u32,
}

/// High half of the RX write-back layout.
#[derive(Debug, Clone, Copy, PartialEq, Eq)]
pub struct HiFields {
    /// Extended error [31:20], RSS type [19:17], packet type [16:4],
    /// extended status [3:0].
    pub error_type_status: u32,
    /// VLAN tag [31:16], packet length [15:0].
    pub vlan_length: u32,
}

/// Hardware write-back layout of an RX descriptor.
#[derive(Debug, Clone, Copy, PartialEq, Eq)]
pub struct AdvRxDescWB {
    pub lo_dword: LoFields,
    pub hi_dword: HiFields,
}

/// A 16-byte RX descriptor cell: the low and the high little-endian
/// 64-bit words, read in either layout.
#[derive(Debug, Clone, Copy, PartialEq, Eq)]
pub struct AdvRxDesc {
    pub lo: u64,
    pub hi: u64,
}

impl Descriptor for AdvRxDesc {}

impl AdvRxDesc {
    /// The cell from its 16 bytes as the device sees them (little-endian).
    pub fn from_le_bytes(b: &[u8; 16]) -> (r: Self)
        ensures
            r.lo == le_u64(b@, 0),
            r.hi == le_u64(b@, 8),
    {
        let (lo, hi) = le_bytes_to_words(b);
        AdvRxDesc { lo, hi }
    }

    /// The cell's 16 bytes as the device sees them (little-endian).
    pub fn to_le_bytes(&self) -> (r: [u8; 16])
        ensures
            r@ == le_bytes_of(self.lo, self.hi),
    {
        words_to_le_bytes(self.lo, self.hi)
    }

    pub open spec fn read_view(self) -> AdvRxDescRead {
        AdvRxDescRead { pkt_addr: self.lo, hdr_addr: self.hi }
    }

    pub open spec fn write_view(self) -> AdvRxDescWB {
        AdvRxDescWB {
            lo_dword: LoFields {
                rss_hash_or_csum_ip: self.lo as u32,
                hdr_status: (self.lo >> 32u64) as u32,
            },
            hi_dword: HiFields {
                error_type_status: self.hi as u32,
                vlan_length: (self.hi >> 32u64) as u32,
            },
        }
    }

    /// The cell holding a descriptor in the read layout.
    pub fn from_read(d: AdvRxDescRead) -> (r: Self)
        ensures
            r.read_view() == d,
    {
        AdvRxDesc { lo: d.pkt_addr, hi: d.hdr_addr }
    }

    /// The cell holding a descriptor in the write-back layout.
    pub fn from_write(d: AdvRxDescWB) -> (r: Self)
        ensures
            r.write_view() == d,
    {
        let a = d.lo_dword.rss_hash_or_csum_ip;
        let b = d.lo_dword.hdr_status;
        let c = d.hi_dword.error_type_status;
        let e = d.hi_dword.vlan_length;
        proof {
            assert((((a as u64) | ((b as u64) << 32u64)) as u32) == a) by (bit_vector);
            assert(((((a as u64) | ((b as u64) << 32u64)) >> 32u64) as u32) == b) by (bit_vector);
            assert((((c as u64) | ((e as u64) << 32u64)) as u32) == c) by (bit_vector);
            assert(((((c as u64) | ((e as u64) << 32u64)) >> 32u64) as u32) == e) by (bit_vector);
        }
        AdvRxDesc {
            lo: (a as u64) | ((b as u64) << 32u64),
            hi: (c as u64) | ((e as u64) << 32u64),
        }
    }

    /// The cell read in the software-posted layout.
    pub fn read(&self) -> (r: AdvRxDescRead)
        ensures
            r == self.read_view(),
    {
        AdvRxDescRead { pkt_addr: self.lo, hdr_addr: self.hi }
    }

    /// The cell read in the write-back layout.
    pub fn write(&self) -> (r: AdvRxDescWB)
        ensures
            r == self.write_view(),
    {
        AdvRxDescWB {
            lo_dword: LoFields {
                rss_hash_or_csum_ip: self.lo as u32,
                hdr_status: (self.lo >> 32u64) as u32,
            },
            hi_dword: HiFields {
                error_type_status: self.hi as u32,
                vlan_length: (self.hi >> 32u64) as u32,
            },
        }
    }
}

impl AdvRxDescRead {
    /// A read-layout descriptor for two 2-byte aligned buffers: both
    /// addresses are kept, NSE is set in bit 0 of the packet address as
    /// requested, and DD (bit 0 of the header address) is clear.
    pub fn new(pkt_addr: u64, hdr_addr: u64, nse: bool) -> (r: Self)
        requires
            pkt_addr % 2 == 0,
            hdr_addr % 2 == 0,
        ensures
            r.pkt_addr >> 1u64 == pkt_addr >> 1u64,
            bit64(r.pkt_addr, 0) == nse,
            r.pkt_addr == if nse {
                pkt_addr + 1
            } else {
                pkt_addr as int
            },
            r.hdr_addr == hdr_addr,
            !bit64(r.hdr_addr, 0),
    {
        let p = if nse { pkt_addr | 1u64 } else { pkt_addr & !1u64 };
        let h = hdr_addr & !1u64;
        proof {
            assert((pkt_addr | 1u64) >> 1u64 == pkt_addr >> 1u64) by (bit_vector);
            assert((pkt_addr & !1u64) >> 1u64 == pkt_addr >> 1u64) by (bit_vector);
            assert(((pkt_addr | 1u64) >> 0u64) & 1u64 == 1u64) by (bit_vector);
            assert(((pkt_addr & !1u64) >> 0u64) & 1u64 != 1u64) by (bit_vector);
            assert((hdr_addr & !1u64) >> 1u64 == hdr_addr >> 1u64) by (bit_vector);
            assert(((hdr_addr & !1u64) >> 0u64) & 1u64 != 1u64) by (bit_vector);
            assert(pkt_addr & !1u64 == pkt_addr && pkt_addr | 1u64 == pkt_addr + 1) by (bit_vector)
                requires
                    pkt_addr % 2 == 0,
            ;
            assert(hdr_addr & !1u64 == hdr_addr) by (bit_vector)
                requires
                    hdr_addr % 2 == 0,
            ;
        }
        AdvRxDescRead { pkt_addr: p, hdr_addr: h }
    }
}

impl AdvRxDescWB {
    pub open spec fn ets(self) -> u32 {
        self.hi_dword.error_type_status
    }

    pub open spec fn done(self) -> bool {
        bit32(self.ets(), STATUS_DD)
    }

    pub open spec fn packet_len(self) -> u16 {
        (self.hi_dword.vlan_length & 0xFFFFu32) as u16
    }

    pub open spec fn errors(self) -> bool {
        ext_error_of(self.ets()) != 0 || error_bit(self.ets(), ERROR_L4E) || error_bit(
            self.ets(),
            ERROR_IPE,
        ) || error_bit(self.ets(), ERROR_RXE)
    }

    /// Descriptor Done: the device has written this descriptor back.
    pub fn is_done(&self) -> (r: bool)
        ensures
            r == self.done(),
    {
        (self.hi_dword.error_type_status >> STATUS_DD) & 1u32 == 1u32
    }

    /// End Of Packet: this descriptor holds the last part of a frame.
    pub fn is_end_of_packet(&self) -> (r: bool)
        ensures
            r == bit32(self.ets(), STATUS_EOP),
    {
        (self.hi_dword.error_type_status >> STATUS_EOP) & 1u32 == 1u32
    }

    /// The received length in bytes, `vlan_length[15:0]`.
    pub fn packet_length(&self) -> (r: u16)
        ensures
            r == self.packet_len(),
    {
        (self.hi_dword.vlan_length & 0xFFFFu32) as u16
    }

    /// The stripped VLAN tag, `vlan_length[31:16]`.
    pub fn vlan_tag(&self) -> (r: u16)
        ensures
            r == (self.hi_dword.vlan_length >> 16u32) as u16,
    {
        (self.hi_dword.vlan_length >> 16u32) as u16
    }

    /// The 32-bit RSS hash.
    pub fn rss_hash(&self) -> (r: u32)
        ensures
            r == self.lo_dword.rss_hash_or_csum_ip,
    {
        self.lo_dword.rss_hash_or_csum_ip
    }

    /// The header length, `hdr_status[31:22]`.
    pub fn header_length(&self) -> (r: u16)
        ensures
            r == (self.lo_dword.hdr_status >> 22u32) as u16,
    {
        (self.lo_dword.hdr_status >> 22u32) as u16
    }

    /// Split header, `hdr_status[21]`.
    pub fn is_split_header(&self) -> (r: bool)
        ensures
            r == bit32(self.lo_dword.hdr_status, 21),
    {
        (self.lo_dword.hdr_status >> 21u32) & 1u32 == 1u32
    }

    /// The packet type, `error_type_status[16:4]`.
    pub fn packet_type(&self) -> (r: u16)
        ensures
            r == ((self.ets() >> 4u32) & 0x1FFFu32) as u16,
    {
        ((self.hi_dword.error_type_status >> 4u32) & 0x1FFFu32) as u16
    }

    /// The RSS type code, `error_type_status[19:17]`.
    pub fn rss_type(&self) -> (r: u8)
        ensures
            r == ((self.ets() >> 17u32) & 0x7u32) as u8,
    {
        ((self.hi_dword.error_type_status >> 17u32) & 0x7u32) as u8
    }

    /// Whether the device reported an error: a non-zero extended-error
    /// field, or one of L4E, IPE, RXE.
    pub fn has_errors(&self) -> (r: bool)
        ensures
            r == self.errors(),
    {
        let err = self.hi_dword.error_type_status >> 20u32;
        err != 0 || (err >> ERROR_L4E) & 1u32 == 1u32 || (err >> ERROR_IPE) & 1u32 == 1u32 || (err
            >> ERROR_RXE) & 1u32 == 1u32
    }

    /// The IP checksum was checked (IPCS) and found good (no IPE).
    pub fn ip_checksum_valid(&self) -> (r: bool)
        ensures
            r == (bit32(self.ets(), STATUS_IPCS) && !error_bit(self.ets(), ERROR_IPE)),
    {
        let ets = self.hi_dword.error_type_status;
        (ets >> STATUS_IPCS) & 1u32 == 1u32 && !(((ets >> 20u32) >> ERROR_IPE) & 1u32 == 1u32)
    }

    /// The L4 checksum was checked (L4I) and found good (no L4E).
    pub fn l4_checksum_valid(&self) -> (r: bool)
        ensures
            r == (bit32(self.ets(), STATUS_L4I) && !error_bit(self.ets(), ERROR_L4E)),
    {
        let ets = self.hi_dword.error_type_status;
        (ets >> STATUS_L4I) & 1u32 == 1u32 && !(((ets >> 20u32) >> ERROR_L4E) & 1u32 == 1u32)
    }

    /// The RSS type as an enum.
    pub fn rss_type_enum(&self) -> (r: RssType)
        ensures
            r == rss_type_spec(((self.ets() >> 17u32) & 0x7u32) as u8),
    {
        RssType::from_code(self.rss_type())
    }

    /// The security error, from SECERR (error bits [8:7]).
    pub fn security_error(&self) -> (r: SecurityError)
        ensures
            r == security_error_spec(((ext_error_of(self.ets()) >> ERROR_SECERR) & 3u32) as u8),
    {
        let bits = ((self.hi_dword.error_type_status >> 20u32) >> ERROR_SECERR) & 3u32;
        SecurityError::from_code(bits as u8)
    }

    /// Header Buffer Overflow.
    pub fn has_header_buffer_overflow(&self) -> (r: bool)
        ensures
            r == error_bit(self.ets(), ERROR_HBO),
    {
        ((self.hi_dword.error_type_status >> 20u32) >> ERROR_HBO) & 1u32 == 1u32
    }

    /// VLAN Packet.
    pub fn is_vlan_packet(&self) -> (r: bool)
        ensures
            r == bit32(self.ets(), STATUS_VP),
    {
        (self.hi_dword.error_type_status >> STATUS_VP) & 1u32 == 1u32
    }

    /// The packet came back through loopback.
    pub fn is_loopback_packet(&self) -> (r: bool)
        ensures
            r == bit32(self.ets(), STATUS_LB),
    {
        (self.hi_dword.error_type_status >> STATUS_LB) & 1u32 == 1u32
    }

    /// The packet carries a time stamp.
    pub fn is_timestamped(&self) -> (r: bool)
        ensures
            r == bit32(self.ets(), STATUS_TS),
    {
        (self.hi_dword.error_type_status >> STATUS_TS) & 1u32 == 1u32
    }

    /// The fragment checksum, bits [31:16] of the first word, when RSS is off.
    pub fn fragment_checksum(&self) -> (r: u16)
        ensures
            r == (self.lo_dword.rss_hash_or_csum_ip >> 16u32) as u16,
    {
        (self.lo_dword.rss_hash_or_csum_ip >> 16u32) as u16
    }

    /// The IP identification, bits [15:0] of the first word, when RSS is off.
    pub fn ip_identification(&self) -> (r: u16)
        ensures
            r == (self.lo_dword.rss_hash_or_csum_ip & 0xFFFFu32) as u16,
    {
        (self.lo_dword.rss_hash_or_csum_ip & 0xFFFFu32) as u16
    }
}

} // verus!
