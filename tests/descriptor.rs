use eth_igb::{
    AdvRxDesc, AdvRxDescRead, AdvRxDescWB, AdvTxDesc, AdvTxDescWB, HiFields, LoFields, RssType,
    SecurityError, TxAdvDescCmd, TxAdvDescType,
};

fn rx_wb(rss: u32, hdr_status: u32, ets: u32, vlan_length: u32) -> AdvRxDescWB {
    AdvRxDescWB {
        lo_dword: LoFields { rss_hash_or_csum_ip: rss, hdr_status },
        hi_dword: HiFields { error_type_status: ets, vlan_length },
    }
}

#[test]
fn rx_wb_vlan_and_length() {
    let wb = rx_wb(0, 0, 0, 0x1234_0064);
    assert_eq!(wb.packet_length(), 100);
    assert_eq!(wb.vlan_tag(), 0x1234);
}

#[test]
fn rx_wb_error_type_status() {
    let wb = rx_wb(0, 0, 0x0400_0001, 0);
    assert!(wb.is_done());
    assert_eq!(wb.packet_type(), 0);
    assert_eq!(wb.rss_type(), 0);
    assert!(wb.has_errors());
}

#[test]
fn rx_wb_all_zero_is_idle() {
    let wb = rx_wb(0, 0, 0, 0);
    assert!(!wb.is_done());
    assert!(!wb.has_errors());
    assert!(!wb.is_end_of_packet());
    assert_eq!(wb.packet_length(), 0);
}

#[test]
fn rx_wb_status_bits() {
    let ets = (1u32 << 0) | (1 << 1) | (1 << 3) | (1 << 5) | (1 << 6) | (1 << 16) | (1 << 18);
    let wb = rx_wb(0, 0, ets, 0);
    assert!(wb.is_done());
    assert!(wb.is_end_of_packet());
    assert!(wb.is_vlan_packet());
    assert!(wb.ip_checksum_valid());
    assert!(wb.l4_checksum_valid());
    assert!(wb.is_timestamped());
    assert!(wb.is_loopback_packet());
    assert!(!wb.has_errors());
}

#[test]
fn rx_wb_error_bits() {
    // IPE is bit 10 of the error field, bit 30 of the word.
    let ipe = rx_wb(0, 0, (1u32 << 6) | (1 << 30), 0);
    assert!(ipe.has_errors());
    assert!(!ipe.ip_checksum_valid());
    // L4E is bit 9 of the error field.
    let l4e = rx_wb(0, 0, (1u32 << 5) | (1 << 29), 0);
    assert!(!l4e.l4_checksum_valid());
    // HBO is bit 3 of the error field.
    let hbo = rx_wb(0, 0, 1u32 << 23, 0);
    assert!(hbo.has_header_buffer_overflow());
    // SECERR is bits 8:7 of the error field.
    let sec = rx_wb(0, 0, 0b10u32 << 27, 0);
    assert_eq!(sec.security_error(), SecurityError::ReplayError);
    assert_eq!(rx_wb(0, 0, 0, 0).security_error(), SecurityError::NoError);
}

#[test]
fn rx_wb_low_half_fields() {
    let hdr_status = (0x155u32 << 22) | (1 << 21);
    let wb = rx_wb(0xABCD_1234, hdr_status, 0, 0);
    assert_eq!(wb.rss_hash(), 0xABCD_1234);
    assert_eq!(wb.fragment_checksum(), 0xABCD);
    assert_eq!(wb.ip_identification(), 0x1234);
    assert_eq!(wb.header_length(), 0x155);
    assert!(wb.is_split_header());
}

#[test]
fn rx_wb_rss_type_enum() {
    let wb = rx_wb(0, 0, 0x7u32 << 17, 0);
    assert_eq!(wb.rss_type(), 7);
    assert_eq!(wb.rss_type_enum(), RssType::HashUdpIpv4);
    let wb = rx_wb(0, 0, 0x1u32 << 17, 0);
    assert_eq!(wb.rss_type_enum(), RssType::HashTcpIpv4);
}

#[test]
fn rss_type_codes() {
    assert_eq!(RssType::from(0u8), RssType::NoHash);
    assert_eq!(RssType::from(5u8), RssType::HashIpv6);
    assert_eq!(RssType::from(9u8), RssType::HashUdpIpv6Ex);
    assert_eq!(RssType::from(12u8), RssType::Reserved(12));
}

#[test]
fn security_error_codes() {
    assert_eq!(SecurityError::from(0u8), SecurityError::NoError);
    assert_eq!(SecurityError::from(1u8), SecurityError::NoSaMatch);
    assert_eq!(SecurityError::from(2u8), SecurityError::ReplayError);
    assert_eq!(SecurityError::from(7u8), SecurityError::BadSignature);
}

#[test]
fn rx_read_descriptor_flags() {
    let d = AdvRxDescRead::new(0x1000_0000, 0x2000, true);
    assert_eq!(d.pkt_addr, 0x1000_0001);
    assert_eq!(d.hdr_addr, 0x2000);
    let d = AdvRxDescRead::new(0x1000_0000, 0, false);
    assert_eq!(d.pkt_addr, 0x1000_0000);
    assert_eq!(d.hdr_addr, 0);
}

#[test]
fn rx_cell_round_trip() {
    let wb = rx_wb(0x1111_2222, 0x3333_4444, 0x5555_6666, 0x7777_8888);
    let cell = AdvRxDesc::from_write(wb);
    assert_eq!(cell.lo, 0x3333_4444_1111_2222);
    assert_eq!(cell.hi, 0x7777_8888_5555_6666);
    assert_eq!(cell.write(), wb);
    let read = AdvRxDescRead { pkt_addr: 5, hdr_addr: 6 };
    assert_eq!(AdvRxDesc::from_read(read).read(), read);
}

#[test]
fn tx_data_descriptor() {
    let cmds = [TxAdvDescCmd::EOP, TxAdvDescCmd::RS, TxAdvDescCmd::IFCS, TxAdvDescCmd::DEXT];
    let d = AdvTxDesc::new(0xDEAD_BEEF_0000, 60, TxAdvDescType::Data, &cmds);
    let r = d.read();
    assert_eq!(r.buffer_addr, 0xDEAD_BEEF_0000);
    assert_eq!(r.cmd_type_len, 0x2B30_003C);
    assert_eq!(r.olinfo_status, 0);
}

#[test]
fn tx_context_descriptor_and_commands() {
    let d = AdvTxDesc::new(0, 0x12_3456, TxAdvDescType::Context, &[TxAdvDescCmd::IC, TxAdvDescCmd::VLE, TxAdvDescCmd::IDE]);
    // length truncated to 20 bits, DTYPE 0b10, IC (26), VLE (30), IDE (31)
    assert_eq!(d.read().cmd_type_len, 0x2_3456 | (0b10 << 20) | (1 << 26) | (1 << 30) | (1 << 31));
    let none = AdvTxDesc::new(7, 0, TxAdvDescType::Data, &[]);
    assert_eq!(none.read().cmd_type_len, 0x30_0000);
}

#[test]
fn tx_wb_done_round_trip() {
    let wb = AdvTxDescWB { rsvd: 9, nxtseq_seed: 8, status: 0xF0 };
    let done = wb.with_done(true);
    assert!(done.is_done());
    assert_eq!(done.status, 0xF1);
    let cleared = done.with_done(false);
    assert!(!cleared.is_done());
    assert_eq!(cleared, wb);
    let cell = AdvTxDesc::from_write(done);
    assert!(cell.write().is_done());
    assert_eq!(cell.write(), done);
}

#[test]
fn rx_wb_from_zero_bytes_is_idle() {
    let wb = AdvRxDesc::from_le_bytes(&[0u8; 16]).write();
    assert!(!wb.is_done());
    assert!(!wb.has_errors());
}

#[test]
fn cells_in_little_endian_bytes() {
    let mut bytes = [0u8; 16];
    for (i, b) in bytes.iter_mut().enumerate() {
        *b = i as u8;
    }
    let cell = AdvRxDesc::from_le_bytes(&bytes);
    assert_eq!(cell.lo, 0x0706_0504_0302_0100);
    assert_eq!(cell.hi, 0x0F0E_0D0C_0B0A_0908);
    assert_eq!(cell.to_le_bytes(), bytes);
    let wb = cell.write();
    assert_eq!(wb.lo_dword.rss_hash_or_csum_ip, 0x0302_0100);
    assert_eq!(wb.lo_dword.hdr_status, 0x0706_0504);
    assert_eq!(wb.hi_dword.error_type_status, 0x0B0A_0908);
    assert_eq!(wb.hi_dword.vlan_length, 0x0F0E_0D0C);
    let tx = AdvTxDesc::from_le_bytes(&bytes);
    assert_eq!(tx.write().status, 0x0F0E_0D0C);
    assert_eq!(tx.to_le_bytes(), bytes);
}
