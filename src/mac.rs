//! The MAC register interface: register offsets, and the values that each
//! operation reads from or writes to the controller's registers.
//!
//! Every function here is a computation on register values. The caller
//! performs the memory-mapped reads and writes around it.
use vstd::prelude::*;

use crate::descriptor::bit32;
use crate::err::DError;
use crate::poll::{poll_step, Poll, PollStep};
use crate::Speed;

verus! {

// Register offsets from BAR0.
pub const CTRL: usize = 0x0;
pub const STATUS: usize = 0x8;
pub const CTRL_EXT: usize = 0x18;
pub const MDIC: usize = 0x20;
pub const ICR: usize = 0xC0;
pub const IMS: usize = 0xD0;
pub const IMC: usize = 0xD8;
pub const RCTL: usize = 0x100;
pub const TCTL: usize = 0x400;
pub const GPIE: usize = 0x1514;
pub const EIMS: usize = 0x1524;
pub const EIMC: usize = 0x1528;
pub const EIAC: usize = 0x152C;
pub const EIAM: usize = 0x1530;
pub const EICR: usize = 0x1580;

// CTRL bits.
pub const CTRL_FD: u32 = 1u32 << 0u32;
pub const CTRL_SLU: u32 = 1u32 << 6u32;
pub const CTRL_RST: u32 = 1u32 << 26u32;
pub const CTRL_PHY_RST: u32 = 1u32 << 31u32;

// RCTL fields.
pub const RCTL_RXEN: u32 = 1u32 << 1u32;
pub const RCTL_LBM_MASK: u32 = 3u32 << 6u32;
pub const RCTL_LBM_MAC: u32 = 1u32 << 6u32;

// TCTL bits.
pub const TCTL_EN: u32 = 1u32 << 1u32;

// GPIE fields.
pub const GPIE_NSICR: u32 = 1u32 << 0u32;
pub const GPIE_MULTIPLE_MSIX: u32 = 1u32 << 4u32;
pub const GPIE_LL_INTERVAL_MASK: u32 = 0x1Fu32 << 7u32;
pub const GPIE_EIAME: u32 = 1u32 << 30u32;
pub const GPIE_PBA_SUPPORT: u32 = 1u32 << 31u32;

// MDIC fields.
pub const MDIC_OP_WRITE: u32 = 1u32 << 26u32;
pub const MDIC_OP_READ: u32 = 2u32 << 26u32;
pub const MDIC_READY_BIT: u32 = 28;
pub const MDIC_ERROR_BIT: u32 = 30;

/// All extended interrupts: the value written to EIMS and EIMC.
pub const ALL_INTERRUPTS: u32 = 0xFFFF_FFFF;

/// The IMS value that unmasks the legacy causes the driver handles:
/// TXDW (0), TXQE (1), LSC (2), RXDMT0 (4), RXO (6), RXT0 (7), MDAC (9).
pub fn legacy_enable_mask() -> (r: u32)
    ensures
        forall|b: u32|
            b < 32 ==> (#[trigger] bit32(r, b) <==> (b <= 2 || b == 4 || b == 6 || b == 7 || b
                == 9)),
{
    let r: u32 = 0x2D7;
    assert(forall|b: u32|
        b < 32 ==> (#[trigger] bit32(0x2D7u32, b) <==> (b <= 2 || b == 4 || b == 6 || b == 7 || b
            == 9))) by (bit_vector);
    r
}

/// The IMC value that masks every legacy cause: TXDW, TXQE, LSC, RXSEQ,
/// RXDMT0 (bits 0 to 4), RXO, RXT0 (6, 7), and MDAC, RXCFG, the four
/// GPI enables, TXD_LOW, SRPD, ACK, MNG and DOCK (9 to 19).
pub fn legacy_disable_mask() -> (r: u32)
    ensures
        forall|b: u32|
            b < 32 ==> (#[trigger] bit32(r, b) <==> (b <= 4 || b == 6 || b == 7 || (9 <= b && b
                <= 19))),
{
    let r: u32 = 0xF_FEDF;
    assert(forall|b: u32|
        b < 32 ==> (#[trigger] bit32(0xF_FEDFu32, b) <==> (b <= 4 || b == 6 || b == 7 || (9 <= b
            && b <= 19)))) by (bit_vector);
    r
}

/// The number of receive-address filters.
pub const RECEIVE_ADDRESSES: usize = 24;

/// CTRL with a device reset and a PHY reset requested, other bits kept.
pub fn ctrl_reset(ctrl: u32) -> (r: u32)
    ensures
        r == ctrl | CTRL_RST | CTRL_PHY_RST,
{
    ctrl | CTRL_RST | CTRL_PHY_RST
}

/// Whether a CTRL value shows the reset finished (RST back to 0).
pub fn ctrl_reset_done(ctrl: u32) -> (r: bool)
    ensures
        r == !bit32(ctrl, 26),
{
    !((ctrl >> 26u32) & 1u32 == 1u32)
}

/// The poll that waits for the reset to finish: 1000 checks, 1 ms apart.
pub fn reset_poll() -> (r: Poll)
    ensures
        r.limit() == 1000,
        r.interval_ms() == 1,
        r.tries() == 0,
{
    Poll::new(1000, 1)
}

/// CTRL with link up forced and full duplex set, other bits kept.
pub fn ctrl_set_link_up(ctrl: u32) -> (r: u32)
    ensures
        r == ctrl | CTRL_SLU | CTRL_FD,
{
    ctrl | CTRL_SLU | CTRL_FD
}

/// RCTL with the receiver enabled.
pub fn rctl_enable_rx(rctl: u32) -> (r: u32)
    ensures
        r == rctl | RCTL_RXEN,
{
    rctl | RCTL_RXEN
}

/// RCTL with the receiver disabled.
pub fn rctl_disable_rx(rctl: u32) -> (r: u32)
    ensures
        r == rctl & !RCTL_RXEN,
{
    rctl & !RCTL_RXEN
}

/// RCTL with the loopback mode set to MAC loopback.
pub fn rctl_enable_loopback(rctl: u32) -> (r: u32)
    ensures
        r == (rctl & !RCTL_LBM_MASK) | RCTL_LBM_MAC,
{
    (rctl & !RCTL_LBM_MASK) | RCTL_LBM_MAC
}

/// RCTL with the loopback mode set to normal operation.
pub fn rctl_disable_loopback(rctl: u32) -> (r: u32)
    ensures
        r == rctl & !RCTL_LBM_MASK,
{
    rctl & !RCTL_LBM_MASK
}

/// TCTL with the transmitter enabled.
pub fn tctl_enable_tx(tctl: u32) -> (r: u32)
    ensures
        r == tctl | TCTL_EN,
{
    tctl | TCTL_EN
}

/// GPIE for MSI-X mode: multiple vectors, auto-mask, PBA support.
pub fn gpie_msix_mode() -> (r: u32)
    ensures
        r == GPIE_MULTIPLE_MSIX | GPIE_EIAME | GPIE_PBA_SUPPORT,
{
    GPIE_MULTIPLE_MSIX | GPIE_EIAME | GPIE_PBA_SUPPORT
}

/// GPIE for legacy or MSI mode: a single vector, no auto-mask, legacy PBA.
pub fn gpie_legacy_mode() -> (r: u32)
    ensures
        r == 0,
{
    0
}

/// GPIE with clear-on-read of the interrupt cause set or cleared.
pub fn gpie_set_nsicr(gpie: u32, enable: bool) -> (r: u32)
    ensures
        r == if enable {
            gpie | GPIE_NSICR
        } else {
            gpie & !GPIE_NSICR
        },
{
    if enable {
        gpie | GPIE_NSICR
    } else {
        gpie & !GPIE_NSICR
    }
}

/// GPIE with the low-latency credit interval (bits 11:7) set to the low
/// five bits of `interval`.
pub fn gpie_set_ll_interval(gpie: u32, interval: u8) -> (r: u32)
    ensures
        r == (gpie & !GPIE_LL_INTERVAL_MASK) | (((interval as u32) & 0x1Fu32) << 7u32),
{
    (gpie & !GPIE_LL_INTERVAL_MASK) | (((interval as u32) & 0x1Fu32) << 7u32)
}

/// The offset of RAL of receive-address filter `i`; RAH follows 4 bytes on.
pub fn ral_offset(i: usize) -> (r: usize)
    requires
        i < RECEIVE_ADDRESSES,
    ensures
        r == if i < 16 {
            0x5400 + 8 * i
        } else {
            0x54E0 + 8 * (i - 16)
        },
{
    if i < 16 {
        0x5400 + 8 * i
    } else {
        0x54E0 + 8 * (i - 16)
    }
}

/// The offset of RAH of receive-address filter `i`.
pub fn rah_offset(i: usize) -> (r: usize)
    requires
        i < RECEIVE_ADDRESSES,
    ensures
        r == if i < 16 {
            0x5404 + 8 * i
        } else {
            0x54E4 + 8 * (i - 16)
        },
{
    ral_offset(i) + 4
}

/// The MDIC word that starts a read of PHY register `reg` at `phy_addr`.
pub fn mdic_read_command(phy_addr: u32, reg: u32) -> (r: u32)
    ensures
        r == ((reg & 0x1Fu32) << 16u32) | ((phy_addr & 0x1Fu32) << 21u32) | MDIC_OP_READ,
{
    ((reg & 0x1Fu32) << 16u32) | ((phy_addr & 0x1Fu32) << 21u32) | MDIC_OP_READ
}

/// The MDIC word that starts a write of `data` to PHY register `reg` at
/// `phy_addr`.
pub fn mdic_write_command(phy_addr: u32, reg: u32, data: u16) -> (r: u32)
    ensures
        r == ((reg & 0x1Fu32) << 16u32) | ((phy_addr & 0x1Fu32) << 21u32) | (data as u32)
            | MDIC_OP_WRITE,
{
    ((reg & 0x1Fu32) << 16u32) | ((phy_addr & 0x1Fu32) << 21u32) | (data as u32) | MDIC_OP_WRITE
}

/// The poll that waits for an MDIO transaction: 1000 reads of MDIC, 1 ms
/// apart.
pub fn mdic_poll() -> (r: Poll)
    ensures
        r.limit() == 1000,
        r.interval_ms() == 1,
        r.tries() == 0,
{
    Poll::new(1000, 1)
}

/// The error an MDIC transaction reports when the controller sets MDIC.E.
pub open spec fn mdic_error() -> DError {
    DError::Unknown("MDIC read error")
}

/// Where an MDIO transaction stands after reading MDIC: failed (E set,
/// whatever READY says), done with the data in bits 15:0 (READY without
/// E), or still running (`None`).
pub fn mdic_outcome(mdic: u32) -> (r: Option<Result<u16, DError>>)
    ensures
        bit32(mdic, MDIC_ERROR_BIT) ==> r == Some(Err::<u16, DError>(mdic_error())),
        !bit32(mdic, MDIC_ERROR_BIT) && bit32(mdic, MDIC_READY_BIT) ==> r == Some(
            Ok::<u16, DError>((mdic & 0xFFFFu32) as u16),
        ),
        !bit32(mdic, MDIC_ERROR_BIT) && !bit32(mdic, MDIC_READY_BIT) ==> r is None,
{
    if (mdic >> MDIC_ERROR_BIT) & 1u32 == 1u32 {
        Some(Err(DError::Unknown("MDIC read error")))
    } else if (mdic >> MDIC_READY_BIT) & 1u32 == 1u32 {
        Some(Ok((mdic & 0xFFFFu32) as u16))
    } else {
        None
    }
}

/// The causes of an extended interrupt.
#[derive(Debug, Clone, Copy, PartialEq, Eq)]
pub struct IrqMsg {
    /// One bit per RX/TX queue that raised the interrupt.
    pub queue_idx: u16,
    pub tcp_timer: bool,
    pub other: bool,
}

impl IrqMsg {
    /// The causes that are both raised (EICR) and unmasked (EIMS).
    pub fn from_cause(eicr: u32, eims: u32) -> (r: IrqMsg)
        ensures
            r.queue_idx == ((eicr & eims) & 0xFFFFu32) as u16,
            r.tcp_timer == bit32(eicr & eims, 30),
            r.other == bit32(eicr & eims, 31),
    {
        let status = eicr & eims;
        IrqMsg {
            queue_idx: (status & 0xFFFFu32) as u16,
            tcp_timer: (status >> 30u32) & 1u32 == 1u32,
            other: (status >> 31u32) & 1u32 == 1u32,
        }
    }
}

/// The causes of a legacy interrupt.
#[derive(Debug, Clone, Copy, PartialEq, Eq)]
pub struct LegacyIrqMsg {
    /// Transmit descriptor written back.
    pub txdw: bool,
    /// Transmit queue empty.
    pub txqe: bool,
    /// Link status change.
    pub lsc: bool,
    /// Receive sequence error.
    pub rxseq: bool,
    /// Receive descriptor minimum threshold reached.
    pub rxdmt0: bool,
    /// Receiver overrun.
    pub rxo: bool,
    /// Receiver timer.
    pub rxt0: bool,
    /// MDI/O access complete.
    pub mdac: bool,
    /// Receiving /C/ ordered sets.
    pub rxcfg: bool,
    /// Interrupt asserted.
    pub asserted: bool,
}

impl LegacyIrqMsg {
    /// The causes that are both raised (ICR) and unmasked (IMS).
    pub fn from_cause(icr: u32, ims: u32) -> (r: LegacyIrqMsg)
        ensures
            r.txdw == bit32(icr & ims, 0),
            r.txqe == bit32(icr & ims, 1),
            r.lsc == bit32(icr & ims, 2),
            r.rxseq == bit32(icr & ims, 3),
            r.rxdmt0 == bit32(icr & ims, 4),
            r.rxo == bit32(icr & ims, 6),
            r.rxt0 == bit32(icr & ims, 7),
            r.mdac == bit32(icr & ims, 9),
            r.rxcfg == bit32(icr & ims, 10),
            r.asserted == bit32(icr & ims, 31),
    {
        let s = icr & ims;
        LegacyIrqMsg {
            txdw: (s >> 0u32) & 1u32 == 1u32,
            txqe: (s >> 1u32) & 1u32 == 1u32,
            lsc: (s >> 2u32) & 1u32 == 1u32,
            rxseq: (s >> 3u32) & 1u32 == 1u32,
            rxdmt0: (s >> 4u32) & 1u32 == 1u32,
            rxo: (s >> 6u32) & 1u32 == 1u32,
            rxt0: (s >> 7u32) & 1u32 == 1u32,
            mdac: (s >> 9u32) & 1u32 == 1u32,
            rxcfg: (s >> 10u32) & 1u32 == 1u32,
            asserted: (s >> 31u32) & 1u32 == 1u32,
        }
    }
}

/// How the MAC reaches the link (CTRL_EXT.LINK_MODE).
#[derive(Debug, Clone, Copy, PartialEq, Eq)]
pub enum LinkMode {
    DirectCopper,
    Sgmii,
    InternalSerdes,
}

/// The link mode that CTRL_EXT bits 23:22 name; the code 0b01 names none.
pub open spec fn link_mode_spec(ctrl_ext: u32) -> Option<LinkMode> {
    let code = (ctrl_ext >> 22u32) & 3u32;
    if code == 0 {
        Some(LinkMode::DirectCopper)
    } else if code == 2 {
        Some(LinkMode::Sgmii)
    } else if code == 3 {
        Some(LinkMode::InternalSerdes)
    } else {
        None
    }
}

impl LinkMode {
    /// The link mode a CTRL_EXT value selects, if any.
    pub fn from_ctrl_ext(ctrl_ext: u32) -> (r: Option<LinkMode>)
        ensures
            r == link_mode_spec(ctrl_ext),
    {
        let code = (ctrl_ext >> 22u32) & 3u32;
        if code == 0 {
            Some(LinkMode::DirectCopper)
        } else if code == 2 {
            Some(LinkMode::Sgmii)
        } else if code == 3 {
            Some(LinkMode::InternalSerdes)
        } else {
            None
        }
    }
}

/// The link state the STATUS register reports.
#[derive(Debug, Clone, Copy, PartialEq, Eq)]
pub struct MacStatus {
    pub full_duplex: bool,
    pub link_up: bool,
    pub speed: Speed,
    pub phy_reset_asserted: bool,
}

/// The speed that STATUS bits 7:6 name: 0b10 is 1000 Mb/s, 0b01 is
/// 100 Mb/s, anything else 10 Mb/s.
pub open spec fn status_speed(status: u32) -> Speed {
    let code = (status >> 6u32) & 3u32;
    if code == 2 {
        Speed::Mb1000
    } else if code == 1 {
        Speed::Mb100
    } else {
        Speed::Mb10
    }
}

impl MacStatus {
    /// The link state a STATUS value reports.
    pub fn from_status(status: u32) -> (r: MacStatus)
        ensures
            r.full_duplex == bit32(status, 0),
            r.link_up == bit32(status, 1),
            r.speed == status_speed(status),
            r.phy_reset_asserted == bit32(status, 10),
    {
        let code = (status >> 6u32) & 3u32;
        let speed = if code == 2 {
            Speed::Mb1000
        } else if code == 1 {
            Speed::Mb100
        } else {
            Speed::Mb10
        };
        MacStatus {
            full_duplex: (status >> 0u32) & 1u32 == 1u32,
            link_up: (status >> 1u32) & 1u32 == 1u32,
            speed,
            phy_reset_asserted: (status >> 10u32) & 1u32 == 1u32,
        }
    }
}

/// A 6-byte Ethernet MAC address.
#[derive(Debug, Clone, Copy, PartialEq, Eq)]
pub struct MacAddr6 {
    addr: [u8; 6],
}

impl MacAddr6 {
    pub closed spec fn view_bytes(self) -> Seq<u8> {
        self.addr@
    }

    /// The address with these bytes.
    pub fn new(bytes: [u8; 6]) -> (r: Self)
        ensures
            r.view_bytes() == bytes@,
    {
        MacAddr6 { addr: bytes }
    }

    /// The address's bytes.
    pub fn bytes(&self) -> (r: [u8; 6])
        ensures
            r@ == self.view_bytes(),
    {
        self.addr
    }

    /// The address a receive-address filter holds: the four bytes of RAL,
    /// lowest first, then the two low bytes of RAH.
    pub fn from_ral_rah(ral: u32, rah: u32) -> (r: Self)
        ensures
            r.view_bytes() == seq![
                (ral & 0xFFu32) as u8,
                ((ral >> 8u32) & 0xFFu32) as u8,
                ((ral >> 16u32) & 0xFFu32) as u8,
                (ral >> 24u32) as u8,
                (rah & 0xFFu32) as u8,
                ((rah >> 8u32) & 0xFFu32) as u8,
            ],
    {
        let bytes = [
            (ral & 0xFFu32) as u8,
            ((ral >> 8u32) & 0xFFu32) as u8,
            ((ral >> 16u32) & 0xFFu32) as u8,
            (ral >> 24u32) as u8,
            (rah & 0xFFu32) as u8,
            ((rah >> 8u32) & 0xFFu32) as u8,
        ];
        let r = MacAddr6 { addr: bytes };
        assert(r.view_bytes() =~= seq![
            (ral & 0xFFu32) as u8,
            ((ral >> 8u32) & 0xFFu32) as u8,
            ((ral >> 16u32) & 0xFFu32) as u8,
            (ral >> 24u32) as u8,
            (rah & 0xFFu32) as u8,
            ((rah >> 8u32) & 0xFFu32) as u8,
        ]);
        r
    }
}

/// A reset whose RST bit never clears: each of the reset poll's 1000
/// checks is followed by a 1 ms sleep, and then the poll, exhausted,
/// gives `Timeout`.
pub proof fn lemma_reset_timeout()
    ensures
        forall|k: usize| k < 1000 ==> #[trigger] poll_step(k, 1000, 1, false) == PollStep::Sleep(1),
        poll_step(1000, 1000, 1, false) == PollStep::Done(Err(DError::Timeout)),
{
}

} // verus!
