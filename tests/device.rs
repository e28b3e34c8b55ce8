use eth_igb::mac::{
    ctrl_reset, ctrl_reset_done, ctrl_set_link_up, gpie_msix_mode, gpie_set_ll_interval,
    gpie_set_nsicr, mdic_outcome, mdic_read_command, mdic_write_command, rah_offset, ral_offset,
    rctl_disable_rx, rctl_enable_rx, reset_poll, tctl_enable_tx,
};
use eth_igb::phy::PHY_ADDR;
use eth_igb::ring::rx::RxRing;
use eth_igb::{
    DError, Igb, IrqMsg, LegacyIrqMsg, LinkMode, MacAddr6, MacStatus, OpenEvent, OpenStep, Phy,
    Poll, PollStep, Speed,
};

#[test]
fn poll_times_out_after_its_limit() {
    let mut p = reset_poll();
    let mut sleeps = 0u64;
    let mut sleep_calls = 0u32;
    let mut checks = 0u32;
    let outcome = loop {
        if p.exhausted() {
            break Err(DError::Timeout);
        }
        checks += 1;
        match p.step(false) {
            PollStep::Sleep(ms) => {
                sleeps += ms;
                sleep_calls += 1;
            }
            PollStep::Done(r) => break r,
        }
    };
    assert_eq!(outcome, Err(DError::Timeout));
    assert_eq!(checks, 1000);
    assert_eq!(sleep_calls, 1000);
    assert_eq!(sleeps, 1000);
    assert_eq!(p.step(false), PollStep::Done(Err(DError::Timeout)));
}

#[test]
fn poll_succeeds_when_ready() {
    // The enable bit shows up at the 501st check, after 500 ms.
    let mut p = RxRing::<Vec<u8>>::enable_poll();
    let mut sleeps = 0u64;
    let mut checks = 0u32;
    let outcome = loop {
        checks += 1;
        match p.step(checks > 500) {
            PollStep::Sleep(ms) => sleeps += ms,
            PollStep::Done(r) => break r,
        }
    };
    assert_eq!(outcome, Ok(()));
    assert_eq!(sleeps, 500);
    assert!(sleeps <= 501);
    let mut empty = Poll::new(0, 5);
    assert_eq!(empty.step(true), PollStep::Done(Err(DError::Timeout)));
}

#[test]
fn auto_negotiation_poll_gives_up_after_three_seconds() {
    let mut p = Phy::auto_negotiation_poll();
    let mut waited = 0u64;
    let mut reads = 0u32;
    let outcome = loop {
        if p.exhausted() {
            break Err(DError::Timeout);
        }
        reads += 1;
        match p.step(Phy::is_auto_negotiation_complete(0)) {
            PollStep::Sleep(ms) => waited += ms,
            PollStep::Done(r) => break r,
        }
    };
    assert_eq!(outcome, Err(DError::Timeout));
    assert_eq!(reads, 30);
    assert_eq!(waited, 3000);
}

#[test]
fn mdic_error_is_reported() {
    assert_eq!(mdic_outcome(1 << 30), Some(Err(DError::Unknown("MDIC read error"))));
    assert_eq!(mdic_outcome((1 << 28) | 0xBEEF), Some(Ok(0xBEEF)));
    assert_eq!(mdic_outcome(0x1234), None);
    // An error wins over READY in the same value.
    assert_eq!(
        mdic_outcome((1 << 28) | (1 << 30) | 0xBEEF),
        Some(Err(DError::Unknown("MDIC read error")))
    );
}

#[test]
fn mdic_commands() {
    assert_eq!(mdic_read_command(1, 1), (1 << 16) | (1 << 21) | (2 << 26));
    assert_eq!(mdic_write_command(1, 0, 0x1140), (1 << 21) | 0x1140 | (1 << 26));
}

#[test]
fn ctrl_values() {
    assert_eq!(ctrl_reset(0x1), 0x1 | (1 << 26) | (1 << 31));
    assert!(!ctrl_reset_done(1 << 26));
    assert!(ctrl_reset_done(1 << 31));
    assert_eq!(ctrl_set_link_up(0), 0x41);
}

#[test]
fn rctl_tctl_gpie_values() {
    assert_eq!(rctl_enable_rx(0), 2);
    assert_eq!(rctl_disable_rx(0xFF), 0xFD);
    assert_eq!(Igb::enable_loopback(0xC0), 0x40);
    assert_eq!(Igb::disable_loopback(0x43), 0x03);
    assert_eq!(tctl_enable_tx(0), 2);
    assert_eq!(gpie_msix_mode(), (1 << 4) | (1 << 30) | (1 << 31));
    assert_eq!(Igb::irq_mode_legacy(), 0);
    assert_eq!(gpie_set_nsicr(0x10, true), 0x11);
    assert_eq!(gpie_set_nsicr(0x11, false), 0x10);
    assert_eq!(gpie_set_ll_interval(0xFFFF_FFFF, 0x23), (0xFFFF_FFFF & !(0x1F << 7)) | (0x03 << 7));
}

#[test]
fn receive_address_offsets() {
    assert_eq!(ral_offset(0), 0x5400);
    assert_eq!(rah_offset(0), 0x5404);
    assert_eq!(ral_offset(15), 0x5478);
    assert_eq!(ral_offset(16), 0x54E0);
    assert_eq!(rah_offset(23), 0x5518 + 4);
}

#[test]
fn interrupt_causes() {
    let m = IrqMsg::from_cause(0xC000_0003, 0x8000_0001);
    assert_eq!(m, IrqMsg { queue_idx: 1, tcp_timer: false, other: true });
    let l = LegacyIrqMsg::from_cause((1 << 0) | (1 << 2) | (1 << 9) | (1 << 31), 0xFFFF_FFFF);
    assert!(l.txdw && l.lsc && l.mdac && l.asserted);
    assert!(!l.txqe && !l.rxseq && !l.rxdmt0 && !l.rxo && !l.rxt0 && !l.rxcfg);
    let masked = LegacyIrqMsg::from_cause(1 << 4, 0);
    assert!(!masked.rxdmt0);
}

#[test]
fn link_mode_and_status() {
    assert_eq!(LinkMode::from_ctrl_ext(0), Some(LinkMode::DirectCopper));
    assert_eq!(LinkMode::from_ctrl_ext(0b10 << 22), Some(LinkMode::Sgmii));
    assert_eq!(LinkMode::from_ctrl_ext(0b11 << 22), Some(LinkMode::InternalSerdes));
    assert_eq!(LinkMode::from_ctrl_ext(0b01 << 22), None);
    let s = MacStatus::from_status(0b11 | (0b10 << 6) | (1 << 10));
    assert_eq!(s, MacStatus { full_duplex: true, link_up: true, speed: Speed::Mb1000, phy_reset_asserted: true });
    assert_eq!(MacStatus::from_status(0b01 << 6).speed, Speed::Mb100);
    assert_eq!(MacStatus::from_status(0b11 << 6).speed, Speed::Mb10);
}

#[test]
fn mac_address_from_filter() {
    let mac = MacAddr6::from_ral_rah(0x5634_1200, 0x8000_BC9A);
    assert_eq!(mac.bytes(), [0x00, 0x12, 0x34, 0x56, 0x9A, 0xBC]);
    assert_eq!(MacAddr6::new([1, 2, 3, 4, 5, 6]).bytes(), [1, 2, 3, 4, 5, 6]);
}

#[test]
fn phy_control_values() {
    assert_eq!(Phy::new().addr(), PHY_ADDR);
    assert_eq!(Phy::power_up(0x1940), 0x1140);
    assert_eq!(Phy::enable_auto_negotiation(0x0040), 0x1240);
    assert_eq!(Phy::reset_request(0), 0x8000);
    assert!(Phy::is_link_up(1 << 2));
    assert!(!Phy::is_link_up(1 << 5));
    assert!(Phy::is_auto_negotiation_complete(1 << 5));
}

#[test]
fn phy_speed_and_duplex() {
    assert_eq!(Phy::set_speed_and_duplex(0, true, true, false), Err(DError::InvalidParameter));
    assert_eq!(Phy::set_speed_and_duplex(0, true, true, true), Err(DError::InvalidParameter));
    assert_eq!(Phy::set_speed_and_duplex(0xFFFF, false, false, false), Ok(0xFFFF & !0x2140));
    assert_eq!(Phy::set_speed_and_duplex(0, true, false, true), Ok(0x0140));
    assert_eq!(Phy::set_speed_and_duplex(0, false, true, false), Ok(0x2000));
}

#[test]
fn vendor_and_device_ids() {
    assert!(Igb::check_vid_did(0x8086, 0x10C9));
    assert!(Igb::check_vid_did(0x8086, 0x1533));
    assert!(!Igb::check_vid_did(0x8086, 0x10D3));
    assert!(!Igb::check_vid_did(0x10EC, 0x10C9));
}

fn run_open(igb: &mut Igb, ctrl_ext: u32, fail_at: Option<OpenStep>) -> (Vec<OpenStep>, Result<(), DError>) {
    let mut steps = Vec::new();
    let mut step = igb.open(OpenEvent::Start);
    loop {
        match step {
            OpenStep::Finished(r) => return (steps, r),
            s => {
                steps.push(s);
                let event = if Some(s) == fail_at {
                    OpenEvent::Failed(DError::Timeout)
                } else if s == OpenStep::ReadLinkMode {
                    OpenEvent::LinkMode(ctrl_ext)
                } else {
                    OpenEvent::Done
                };
                step = igb.open(event);
            }
        }
    }
}

#[test]
fn open_runs_the_bring_up_sequence() {
    let mut igb = Igb::new();
    assert!(!igb.is_opened());
    let (steps, r) = run_open(&mut igb, 0b10 << 22, None);
    assert_eq!(r, Ok(()));
    assert_eq!(
        steps,
        vec![
            OpenStep::DisableInterrupts,
            OpenStep::ResetMac,
            OpenStep::DisableInterrupts,
            OpenStep::ReadLinkMode,
            OpenStep::PowerUpPhy,
            OpenStep::EnableAutoNegotiation,
            OpenStep::SetLinkUp,
            OpenStep::WaitAutoNegotiation,
            OpenStep::EnableInterrupts,
            OpenStep::EnableRx,
            OpenStep::EnableTx,
        ]
    );
    assert!(igb.is_opened());
    assert_eq!(igb.link_mode(), Some(LinkMode::Sgmii));
}

#[test]
fn open_stops_at_the_first_failure() {
    let mut igb = Igb::new();
    let (steps, r) = run_open(&mut igb, 0, Some(OpenStep::WaitAutoNegotiation));
    assert_eq!(r, Err(DError::Timeout));
    assert_eq!(steps.last(), Some(&OpenStep::WaitAutoNegotiation));
    assert_eq!(steps.len(), 8);
    assert!(!igb.is_opened());
}

#[test]
fn open_rejects_an_unknown_link_mode() {
    let mut igb = Igb::new();
    let (steps, r) = run_open(&mut igb, 0b01 << 22, None);
    assert_eq!(r, Err(DError::Unknown("unsupported link mode")));
    assert_eq!(steps.len(), 4);
}

#[test]
fn open_rejects_reports_out_of_turn() {
    let mut igb = Igb::new();
    assert_eq!(igb.open(OpenEvent::Done), OpenStep::Finished(Err(DError::InvalidParameter)));
    let mut igb = Igb::new();
    assert_eq!(igb.open(OpenEvent::Start), OpenStep::DisableInterrupts);
    assert_eq!(igb.open(OpenEvent::LinkMode(0)), OpenStep::Finished(Err(DError::InvalidParameter)));
}

#[test]
fn default_rings() {
    let (tx, rx) = Igb::new_ring::<Vec<u8>>();
    assert_eq!(tx.count(), 256);
    assert_eq!(rx.count(), 256);
    assert_eq!(rx.packet_size(), 2048);
    assert_eq!(tx.packet_size(), 2048);
}

#[test]
fn queue_register_offsets() {
    assert_eq!(eth_igb::ring::queue_reg(0, eth_igb::ring::rx::RDT), 0xC018);
    assert_eq!(eth_igb::ring::queue_reg(3, eth_igb::ring::tx::TDT), 0xE018 + 3 * 0x40);
}
