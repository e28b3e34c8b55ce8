//! Driver core for Intel 82576-class gigabit Ethernet controllers: the
//! descriptor codec, the RX and TX ring engines, and the register values
//! and decisions of the MAC and PHY bring-up sequences.
use vstd::prelude::*;

pub mod descriptor;
pub mod err;
pub mod mac;
pub mod phy;
pub mod poll;
pub mod ring;

pub use descriptor::{
    AdvRxDesc, AdvRxDescRead, AdvRxDescWB, AdvTxDesc, AdvTxDescRead, AdvTxDescWB, Descriptor,
    HiFields, LoFields, RssType, SecurityError, TxAdvDescCmd, TxAdvDescType,
};
pub use err::DError;
pub use mac::{IrqMsg, LegacyIrqMsg, LinkMode, MacAddr6, MacStatus};
pub use phy::Phy;
pub use poll::{Poll, PollStep};
pub use ring::rx::{RxPacket, RxPost, RxRing};
pub use ring::tx::{TxPost, TxRing};
pub use ring::{Direction, QueueState, Request, DEFAULT_RING_SIZE};

verus! {

/// Link speed.
#[derive(Debug, Clone, Copy, PartialEq, Eq, PartialOrd, Ord)]
pub enum Speed {
    Mb10,
    Mb100,
    Mb1000,
}

/// One step of bringing the device up, for the caller to perform.
#[derive(Debug, Clone, Copy, PartialEq, Eq)]
pub enum OpenStep {
    /// Mask every extended interrupt (EIMC) and clear the causes (read EICR).
    DisableInterrupts,
    /// Request a MAC and PHY reset and poll until it finishes.
    ResetMac,
    /// Read CTRL_EXT and report it with `OpenEvent::LinkMode`.
    ReadLinkMode,
    /// Clear the PHY's power-down bit.
    PowerUpPhy,
    /// Enable and restart auto-negotiation on the PHY.
    EnableAutoNegotiation,
    /// Force link up, full duplex, in CTRL.
    SetLinkUp,
    /// Poll the PHY until auto-negotiation completes.
    WaitAutoNegotiation,
    /// Unmask every extended interrupt (EIMS).
    EnableInterrupts,
    /// Enable the receiver.
    EnableRx,
    /// Enable the transmitter.
    EnableTx,
    /// The sequence is over, with this outcome.
    Finished(Result<(), DError>),
}

/// What the caller reports back after performing a step.
#[derive(Debug, Clone, Copy, PartialEq, Eq)]
pub enum OpenEvent {
    /// Begin (or begin again) the sequence.
    Start,
    /// The last step succeeded.
    Done,
    /// The last step read this CTRL_EXT value.
    LinkMode(u32),
    /// The last step failed with this error.
    Failed(DError),
}

/// The steps of `open`, in order.
pub open spec fn open_sequence() -> Seq<OpenStep> {
    seq![
        OpenStep::DisableInterrupts,
        OpenStep::ResetMac,
        OpenStep::DisableInterrupts,
        OpenStep::ReadLinkMode,
        OpenStep::PowerUpPhy,
        OpenStep::EnableAutoNegotiation,
        OpenStep::SetLinkUp,
        OpenStep::WaitAutoNegotiation,
        OpenStep::EnableInterrupts,
        OpenStep::EnableRx,
        OpenStep::EnableTx,
    ]
}

/// The number of steps of `open`.
pub const OPEN_STEPS: usize = 11;

fn open_step_at(i: usize) -> (r: OpenStep)
    requires
        i < OPEN_STEPS,
    ensures
        r == open_sequence()[i as int],
{
    if i == 0 {
        OpenStep::DisableInterrupts
    } else if i == 1 {
        OpenStep::ResetMac
    } else if i == 2 {
        OpenStep::DisableInterrupts
    } else if i == 3 {
        OpenStep::ReadLinkMode
    } else if i == 4 {
        OpenStep::PowerUpPhy
    } else if i == 5 {
        OpenStep::EnableAutoNegotiation
    } else if i == 6 {
        OpenStep::SetLinkUp
    } else if i == 7 {
        OpenStep::WaitAutoNegotiation
    } else if i == 8 {
        OpenStep::EnableInterrupts
    } else if i == 9 {
        OpenStep::EnableRx
    } else {
        OpenStep::EnableTx
    }
}

/// The error `open` ends with when CTRL_EXT names no link mode.
pub open spec fn link_mode_error() -> DError {
    DError::Unknown("unsupported link mode")
}

/// The device: where its bring-up sequence stands and what it learned.
///
/// `stage` is 0 before `open` starts, `k` in `1..=OPEN_STEPS` while step
/// `k - 1` of the sequence is being performed, and `OPEN_STEPS + 1` once
/// the sequence has finished.
#[derive(Debug)]
pub struct Igb {
    stage: usize,
    link_mode: Option<LinkMode>,
    opened: bool,
}

impl Igb {
    pub closed spec fn stage(self) -> usize {
        self.stage
    }

    pub closed spec fn link(self) -> Option<LinkMode> {
        self.link_mode
    }

    pub closed spec fn is_open(self) -> bool {
        self.opened
    }

    pub open spec fn wf(self) -> bool {
        self.stage() <= OPEN_STEPS + 1
    }

    /// A device that has not been opened.
    pub fn new() -> (r: Igb)
        ensures
            r.wf(),
            r.stage() == 0,
            !r.is_open(),
            r.link() is None,
    {
        Igb { stage: 0, link_mode: None, opened: false }
    }

    /// Whether the vendor and device IDs name a supported controller:
    /// vendor 0x8086, device 0x10C9 or 0x1533.
    pub fn check_vid_did(vid: u16, did: u16) -> (r: bool)
        ensures
            r == (vid == 0x8086 && (did == 0x10C9 || did == 0x1533)),
    {
        vid == 0x8086 && (did == 0x10C9 || did == 0x1533)
    }

    /// Advances the bring-up sequence by one step.
    ///
    /// `Start` begins the sequence with its first step. Each later call
    /// reports the outcome of the step last returned and gets the next
    /// one, until `Finished(Ok(()))` after the last step. A `Failed`
    /// report ends the sequence with that error; so does a CTRL_EXT value
    /// that names no link mode. A report that does not answer a step in
    /// progress ends it with `InvalidParameter`.
    pub fn open(&mut self, event: OpenEvent) -> (r: OpenStep)
        requires
            old(self).wf(),
        ensures
            final(self).wf(),
            event is Start ==> r == open_sequence()[0] && final(self).stage() == 1 && !final(self).is_open()
                && final(self).link() is None,
            event matches OpenEvent::Failed(e) ==> r == OpenStep::Finished(Err(e)) && final(self).stage() == OPEN_STEPS + 1 && !final(self).is_open(),
            !(event is Start) && !(event is Failed) && (old(self).stage() == 0 || old(self).stage()
                > OPEN_STEPS) ==> r == OpenStep::Finished(Err(DError::InvalidParameter))
                && final(self).is_open() == old(self).is_open() && final(self).link() == old(self).link(),
            ({
                let k = old(self).stage() as int;
                let answered = 1 <= k <= OPEN_STEPS && match event {
                    OpenEvent::Done => open_sequence()[k - 1] != OpenStep::ReadLinkMode,
                    OpenEvent::LinkMode(v) => open_sequence()[k - 1] == OpenStep::ReadLinkMode,
                    _ => false,
                };
                answered ==> match event {
                    OpenEvent::LinkMode(v) => if mac::link_mode_spec(v) is None {
                        r == OpenStep::Finished(Err(link_mode_error())) && final(self).stage()
                            == OPEN_STEPS + 1
                    } else {
                        r == open_sequence()[k] && final(self).stage() == k + 1 && final(self).link() == mac::link_mode_spec(v)
                    },
                    _ => if k == OPEN_STEPS {
                        r == OpenStep::Finished(Ok(())) && final(self).stage() == OPEN_STEPS + 1
                            && final(self).is_open()
                    } else {
                        r == open_sequence()[k] && final(self).stage() == k + 1
                    },
                }
            }),
            ({
                let k = old(self).stage() as int;
                (1 <= k <= OPEN_STEPS && (match event {
                    OpenEvent::Done => open_sequence()[k - 1] == OpenStep::ReadLinkMode,
                    OpenEvent::LinkMode(v) => open_sequence()[k - 1] != OpenStep::ReadLinkMode,
                    _ => false,
                })) ==> r == OpenStep::Finished(Err(DError::InvalidParameter)) && final(self).stage() == OPEN_STEPS + 1
                    && final(self).is_open() == old(self).is_open() && final(self).link() == old(self).link()
            }),
    {
        match event {
            OpenEvent::Start => {
                self.stage = 1;
                self.opened = false;
                self.link_mode = None;
                return open_step_at(0);
            },
            OpenEvent::Failed(e) => {
                self.stage = OPEN_STEPS + 1;
                self.opened = false;
                return OpenStep::Finished(Err(e));
            },
            _ => {},
        }
        if self.stage == 0 || self.stage > OPEN_STEPS {
            self.stage = OPEN_STEPS + 1;
            return OpenStep::Finished(Err(DError::InvalidParameter));
        }
        let k = self.stage;
        let last = open_step_at(k - 1);
        let reads_link = match last {
            OpenStep::ReadLinkMode => true,
            _ => false,
        };
        match event {
            OpenEvent::LinkMode(v) => {
                if !reads_link {
                    self.stage = OPEN_STEPS + 1;
                    return OpenStep::Finished(Err(DError::InvalidParameter));
                }
                match LinkMode::from_ctrl_ext(v) {
                    Some(mode) => {
                        self.link_mode = Some(mode);
                    },
                    None => {
                        self.stage = OPEN_STEPS + 1;
                        return OpenStep::Finished(Err(DError::Unknown("unsupported link mode")));
                    },
                }
            },
            _ => {
                if reads_link {
                    self.stage = OPEN_STEPS + 1;
                    return OpenStep::Finished(Err(DError::InvalidParameter));
                }
            },
        }
        if k == OPEN_STEPS {
            self.stage = OPEN_STEPS + 1;
            self.opened = true;
            OpenStep::Finished(Ok(()))
        } else {
            self.stage = k + 1;
            open_step_at(k)
        }
    }

    /// Whether the whole bring-up sequence has succeeded.
    pub fn is_opened(&self) -> (r: bool)
        ensures
            r == self.is_open(),
    {
        self.opened
    }

    /// The link mode read during `open`, once read.
    pub fn link_mode(&self) -> (r: Option<LinkMode>)
        ensures
            r == self.link(),
    {
        self.link_mode
    }

    /// The RCTL value that turns on MAC loopback, from the current one.
    pub fn enable_loopback(rctl: u32) -> (r: u32)
        ensures
            r == (rctl & !mac::RCTL_LBM_MASK) | mac::RCTL_LBM_MAC,
    {
        mac::rctl_enable_loopback(rctl)
    }

    /// The RCTL value that turns loopback off, from the current one.
    pub fn disable_loopback(rctl: u32) -> (r: u32)
        ensures
            r == rctl & !mac::RCTL_LBM_MASK,
    {
        mac::rctl_disable_loopback(rctl)
    }

    /// The GPIE value for legacy (single-vector) interrupts.
    pub fn irq_mode_legacy() -> (r: u32)
        ensures
            r == 0,
    {
        mac::gpie_legacy_mode()
    }

    /// The two ring engines for queue 0: `DEFAULT_RING_SIZE` slots each,
    /// 2048-byte buffers.
    pub fn new_ring<B>() -> (r: (TxRing<B>, RxRing<B>))
        ensures
            r.0.wf(),
            r.1.wf(),
            r.0.slots().size() == DEFAULT_RING_SIZE,
            r.1.slots().size() == DEFAULT_RING_SIZE,
            r.0.buffer_size() == ring::rx::PACKET_SIZE,
            r.1.buffer_size() == ring::rx::PACKET_SIZE,
            r.0.slots().pending().len() == 0,
            r.1.slots().pending().len() == 0,
    {
        assert(256usize & 255usize == 0) by (bit_vector);
        let tx = TxRing::new(DEFAULT_RING_SIZE, ring::rx::PACKET_SIZE).unwrap();
        let rx = RxRing::new(DEFAULT_RING_SIZE, ring::rx::PACKET_SIZE).unwrap();
        (tx, rx)
    }
}

} // verus!
