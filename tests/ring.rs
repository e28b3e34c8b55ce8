use eth_igb::{
    AdvRxDescWB, AdvTxDescWB, DError, Direction, HiFields, LoFields, QueueState, Request, RxRing,
    TxRing,
};

fn done_rx(len: u16) -> AdvRxDescWB {
    AdvRxDescWB {
        lo_dword: LoFields { rss_hash_or_csum_ip: 0, hdr_status: 0 },
        hi_dword: HiFields { error_type_status: 0b11, vlan_length: len as u32 },
    }
}

fn idle_rx() -> AdvRxDescWB {
    AdvRxDescWB {
        lo_dword: LoFields { rss_hash_or_csum_ip: 0, hdr_status: 0 },
        hi_dword: HiFields { error_type_status: 0, vlan_length: 0 },
    }
}

fn done_tx() -> AdvTxDescWB {
    AdvTxDescWB { rsvd: 0, nxtseq_seed: 0, status: 1 }
}

fn rx_req(i: u64) -> Request<Vec<u8>> {
    Request::new_rx(vec![i as u8; 2048], 0x10_0000 + i * 0x1000, 2048)
}

#[test]
fn request_constructors() {
    let r = Request::new_rx(vec![1u8, 2, 3], 0x4000, 3);
    assert_eq!(r.bus_addr(), 0x4000);
    assert_eq!(r.len(), 3);
    assert_eq!(r.dir, Direction::FromDevice);
    let t = Request::new_tx(vec![9u8], 0x5000, 1);
    assert_eq!(t.dir, Direction::ToDevice);
    assert_eq!(t.into_buff(), vec![9u8]);
}

#[test]
fn ring_sizes_are_checked() {
    assert!(matches!(RxRing::<Vec<u8>>::new(4, 2048), Err(DError::InvalidParameter)));
    assert!(matches!(RxRing::<Vec<u8>>::new(12, 2048), Err(DError::InvalidParameter)));
    assert!(matches!(RxRing::<Vec<u8>>::new(8, 1000), Err(DError::InvalidParameter)));
    assert!(matches!(TxRing::<Vec<u8>>::new(8, 0), Err(DError::InvalidParameter)));
    let rx = RxRing::<Vec<u8>>::new(256, 2048).unwrap();
    assert_eq!(rx.count(), 256);
    assert_eq!(rx.request_max_count(), 255);
    assert_eq!(rx.packet_size(), 2048);
}

#[test]
fn rx_ring_full_backpressure() {
    let mut rx = RxRing::new(8, 2048).unwrap();
    rx.set_enabled();
    for i in 0..7u64 {
        let post = rx.submit(rx_req(i), 0).unwrap();
        assert_eq!(post.index, i as usize);
        assert_eq!(post.tail, i as u32 + 1);
    }
    assert!(matches!(rx.submit(rx_req(7), 0), Err(DError::NoMemory)));
    // The device completes slot 0 and moves its head to 1.
    assert_eq!(rx.next_index(), 0);
    let pkt = rx.next_pkt(1, done_rx(60)).unwrap();
    assert_eq!(pkt.request.bus_addr(), 0x10_0000);
    assert_eq!(pkt.len(), 60);
    let post = rx.submit(rx_req(8), 1).unwrap();
    assert_eq!(post.index, 7);
    assert_eq!(post.tail, 0);
}

#[test]
fn rx_post_descriptor_names_buffer() {
    let mut rx = RxRing::new(8, 2048).unwrap();
    rx.set_enabled();
    let post = rx.submit(Request::new_rx(vec![0u8; 2048], 0xABC0_0002, 2048), 0).unwrap();
    let d = post.desc.read();
    assert_eq!(d.pkt_addr, 0xABC0_0002);
    assert_eq!(d.pkt_addr & 1, 0);
    assert_eq!(d.hdr_addr, 0);
    assert_eq!(post.tail, 1);
}

#[test]
fn rx_packets_come_back_in_order() {
    let mut rx = RxRing::new(8, 2048).unwrap();
    rx.set_enabled();
    for i in 0..3u64 {
        rx.submit(rx_req(i), 0).unwrap();
    }
    for i in 0..3u64 {
        let pkt = rx.next_pkt(3, done_rx(100)).unwrap();
        assert_eq!(pkt.request.bus_addr(), 0x10_0000 + i * 0x1000);
        assert_eq!(pkt.request.buff[0], i as u8);
        assert_eq!(pkt.desc().packet_length(), 100);
    }
    assert!(rx.next_pkt(3, done_rx(100)).is_none());
}

#[test]
fn rx_next_pkt_waits_for_device() {
    let mut rx = RxRing::new(8, 2048).unwrap();
    rx.set_enabled();
    assert!(rx.next_pkt(1, done_rx(60)).is_none());
    rx.submit(rx_req(0), 0).unwrap();
    // The device has not moved past slot 0.
    assert!(rx.next_pkt(0, done_rx(60)).is_none());
    // DD is still clear.
    assert!(rx.next_pkt(1, idle_rx()).is_none());
    let pkt = rx.next_pkt(1, done_rx(4000)).unwrap();
    // The length is capped at the buffer.
    assert_eq!(pkt.len(), 2048);
}

#[test]
fn rx_resubmit_reposts_the_buffer() {
    let mut rx = RxRing::new(8, 2048).unwrap();
    rx.set_enabled();
    rx.submit(rx_req(5), 0).unwrap();
    let pkt = rx.next_pkt(1, done_rx(64)).unwrap();
    let post = pkt.re_submit(&mut rx, 1).unwrap();
    assert_eq!(post.index, 1);
    assert_eq!(post.desc.read().pkt_addr, 0x10_0000 + 5 * 0x1000);
    let again = rx.next_pkt(2, done_rx(64)).unwrap();
    assert_eq!(again.request.bus_addr(), 0x10_0000 + 5 * 0x1000);
}

#[test]
fn tx_send_length_boundary() {
    let mut tx = TxRing::new(8, 2048).unwrap();
    tx.set_enabled();
    let ok = tx.send(Request::new_tx(vec![0u8; 2048], 0x9000, 2048), 0).unwrap();
    assert_eq!(ok.desc.read().cmd_type_len, 0x2B30_0000 | 2048);
    assert_eq!(ok.desc.read().buffer_addr, 0x9000);
    let too_long = tx.send(Request::new_tx(vec![0u8; 2049], 0xA000, 2049), 0);
    assert!(matches!(too_long, Err(DError::InvalidParameter)));
}

#[test]
fn tx_full_and_fifo_reclaim() {
    let mut tx = TxRing::new(8, 2048).unwrap();
    tx.set_enabled();
    for i in 0..7u64 {
        tx.send(Request::new_tx(vec![i as u8; 60], 0x20_0000 + i * 0x100, 60), 0).unwrap();
    }
    assert!(tx.is_queue_full(0));
    assert!(matches!(
        tx.send(Request::new_tx(vec![0u8; 60], 0x30_0000, 60), 0),
        Err(DError::NoMemory)
    ));
    // Nothing is reclaimed before the device reports DD and moves its head.
    assert!(tx.next_finished(0, done_tx()).is_none());
    assert!(tx.next_finished(3, AdvTxDescWB { rsvd: 0, nxtseq_seed: 0, status: 0 }).is_none());
    for i in 0..3u64 {
        assert_eq!(tx.next_index(), i as usize);
        let req = tx.next_finished(3, done_tx()).unwrap();
        assert_eq!(req.bus_addr(), 0x20_0000 + i * 0x100);
    }
    assert!(tx.next_finished(3, done_tx()).is_none());
    assert!(!tx.is_queue_full(3));
    assert_eq!(tx.request_max_count(), 7);
}

#[test]
fn queue_configuration_values() {
    let rx = RxRing::<Vec<u8>>::new(256, 2048).unwrap();
    let c = rx.config(0x1_2345_6000);
    assert_eq!(c.rdbal, 0x2345_6000);
    assert_eq!(c.rdbah, 0x1);
    assert_eq!(c.rdlen, 4096);
    assert_eq!(c.srrctl, (1 << 25) | 2);
    assert_eq!(c.rxdctl, 0x0201_0808);
    let tx = TxRing::<Vec<u8>>::new(256, 2048).unwrap();
    let c = tx.config(0x8000);
    assert_eq!(c.tdbal, 0x8000);
    assert_eq!(c.tdbah, 0);
    assert_eq!(c.tdlen, 4096);
    assert_eq!(c.txdctl, 0x0001_0000);
    assert_eq!(c.txdctl_enable, 0x0201_0000);
    assert!(eth_igb::ring::rx::rxdctl_enabled(0x0200_0000));
    assert!(!eth_igb::ring::tx::txdctl_enabled(0x0001_0000));
}

#[test]
fn queue_lifecycle() {
    let mut rx = RxRing::<Vec<u8>>::new(8, 2048).unwrap();
    assert_eq!(rx.state(), QueueState::Uninitialized);
    rx.set_enabled();
    assert_eq!(rx.state(), QueueState::Enabled);
    assert_eq!(rx.disable_queue(), 0x0001_0808);
    assert_eq!(rx.state(), QueueState::Disabled);
    let mut tx = TxRing::<Vec<u8>>::new(8, 2048).unwrap();
    tx.set_enabled();
    assert_eq!(tx.disable_queue(), 0x0001_0000);
    assert_eq!(tx.state(), QueueState::Disabled);
}
