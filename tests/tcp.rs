use tcp_stack::frame::{process_frame, DropReason, FrameOutcome};
use tcp_stack::ident::IdentifyingTCB;
use tcp_stack::table::ConnectionTable;
use tcp_stack::tcb::{Reply, Segment, TcpState, TCB};
use tcp_stack::wire::{is_ipv4_ethertype, is_tcp_protocol};

fn segment(syn: bool, ack: bool, fin: bool, seq: u32, ack_no: u32) -> Segment {
    Segment {
        syn,
        ack,
        fin,
        rst: false,
        sequence_number: seq,
        acknowledgment_number: ack_no,
        window_size: 1024,
        payload_len: 0,
    }
}

fn block(state: TcpState, seq: u32, ack: u32) -> TCB {
    TCB::with_values(IdentifyingTCB::default(), seq, ack, 512, state)
}

/// A tunnel frame holding an IPv4 header and a TCP header, no payload.
fn tcp_frame(ethertype: [u8; 2], protocol: u8, flags: u8, seq: u32, ack: u32) -> Vec<u8> {
    let mut f = vec![0u8, 0u8, ethertype[0], ethertype[1]];
    f.extend_from_slice(&[0x45, 0, 0, 40, 0, 0, 0x40, 0, 64, protocol, 0, 0]);
    f.extend_from_slice(&[10, 0, 0, 1]);
    f.extend_from_slice(&[192, 168, 1, 136]);
    f.extend_from_slice(&40000u16.to_be_bytes());
    f.extend_from_slice(&80u16.to_be_bytes());
    f.extend_from_slice(&seq.to_be_bytes());
    f.extend_from_slice(&ack.to_be_bytes());
    f.extend_from_slice(&[0x50, flags, 0x10, 0x00, 0, 0, 0, 0]);
    f
}

#[test]
fn pack_unpack_tcb_test() {
    let original_tcb = IdentifyingTCB {
        local_address: [192, 168, 1, 1],
        remote_address: [10, 0, 0, 1],
        local_port: 12345,
        remote_port: 54321,
    };

    let packed = original_tcb.pack_tcb();
    let unpacked_tcb = IdentifyingTCB::unpack_tcb(packed);

    println!("Original TCB: {:?}", original_tcb);
    println!("Unpacked TCB: {:?}", unpacked_tcb);

    assert_eq!(original_tcb, unpacked_tcb);
}

#[test]
fn pack_layout_literal() {
    let id = IdentifyingTCB::new([192, 168, 1, 1], [10, 0, 0, 1], 12345, 54321);
    let expected = (0xC0A80101u128 << 64) | (0x0A000001u128 << 32) | (54321u128 << 16) | 12345u128;
    assert_eq!(id.pack_tcb(), expected);
}

#[test]
fn unpack_reads_each_field() {
    let packed = (0x01020304u128 << 64) | (0xFFFFFFFFu128 << 32) | (0xABCDu128 << 16) | 0x0001u128;
    let id = IdentifyingTCB::unpack_tcb(packed);
    assert_eq!(id.local_address, [1, 2, 3, 4]);
    assert_eq!(id.remote_address, [255, 255, 255, 255]);
    assert_eq!(id.remote_port, 0xABCD);
    assert_eq!(id.local_port, 1);
    assert_eq!(IdentifyingTCB::unpack_tcb(id.pack_tcb()), id);
}

#[test]
fn pack_round_trip_extremes() {
    let zero = IdentifyingTCB::default();
    assert_eq!(zero.pack_tcb(), 0);
    assert_eq!(IdentifyingTCB::unpack_tcb(0), zero);
    let full = IdentifyingTCB::new([255; 4], [255; 4], u16::MAX, u16::MAX);
    assert_eq!(full.pack_tcb(), (1u128 << 96) - 1);
    assert_eq!(IdentifyingTCB::unpack_tcb(full.pack_tcb()), full);
}

#[test]
fn new_block_is_listening() {
    let t = TCB::new();
    assert_eq!(t.state, TcpState::Listen);
    assert_eq!(t.sequence_number, 0);
    assert_eq!(t.acknowledgment_number, 0);
    assert_eq!(t.window_size, 0);
    assert_eq!(t.identifier, IdentifyingTCB::default());
    assert_eq!(TCB::default().state, TcpState::Listen);
    assert_eq!(TcpState::default(), TcpState::Listen);
}

#[test]
fn listen_answers_syn_with_syn_ack() {
    let mut t = block(TcpState::Listen, 0, 0);
    let r = t.on_packet(&segment(true, false, false, 1000, 0));
    assert_eq!(r, Some(Reply { syn: true, ack: true, fin: false }));
    assert_eq!(t.state, TcpState::SynReceived);
    assert_eq!(t.acknowledgment_number, 1001);
}

#[test]
fn listen_syn_at_top_of_sequence_space_wraps() {
    let mut t = block(TcpState::Listen, 0, 0);
    let r = t.on_packet(&segment(true, false, false, u32::MAX, 0));
    assert_eq!(r, Some(Reply { syn: true, ack: true, fin: false }));
    assert_eq!(t.acknowledgment_number, 0);
}

#[test]
fn listen_ignores_segment_without_syn() {
    let mut t = block(TcpState::Listen, 7, 9);
    let r = t.on_packet(&segment(false, true, false, 1000, 5));
    assert_eq!(r, None);
    assert_eq!(t.state, TcpState::Listen);
    assert_eq!(t.sequence_number, 7);
    assert_eq!(t.acknowledgment_number, 9);
}

#[test]
fn listen_ignores_syn_ack() {
    let mut t = block(TcpState::Listen, 0, 0);
    assert_eq!(t.on_packet(&segment(true, true, false, 1000, 1)), None);
    assert_eq!(t.state, TcpState::Listen);
}

#[test]
fn syn_received_needs_matching_ack() {
    let mut t = block(TcpState::SynReceived, 300, 1001);
    assert_eq!(t.on_packet(&segment(false, true, false, 1001, 300)), None);
    assert_eq!(t.state, TcpState::SynReceived);
    assert_eq!(t.sequence_number, 300);
    assert_eq!(t.on_packet(&segment(false, true, false, 1001, 301)), None);
    assert_eq!(t.state, TcpState::Established);
    assert_eq!(t.sequence_number, 301);
}

#[test]
fn syn_outside_listen_is_dropped() {
    let mut t = block(TcpState::Established, 5, 6);
    assert_eq!(t.on_packet(&segment(true, false, true, 1, 1)), None);
    assert_eq!(t.state, TcpState::Established);
    assert_eq!(t.sequence_number, 5);
    assert_eq!(t.acknowledgment_number, 6);
}

#[test]
fn syn_sent_completes_on_syn_ack() {
    let mut t = block(TcpState::SynSent, 100, 0);
    let r = t.on_packet(&segment(true, true, false, 5000, 101));
    assert_eq!(r, Some(Reply { syn: false, ack: true, fin: false }));
    assert_eq!(t.state, TcpState::Established);
    assert_eq!(t.sequence_number, 101);
    assert_eq!(t.acknowledgment_number, 5001);
}

#[test]
fn established_fin_moves_to_close_wait() {
    let mut t = block(TcpState::Established, 301, 1001);
    let mut seg = segment(false, true, true, 1001, 301);
    seg.payload_len = 10;
    let r = t.on_packet(&seg);
    assert_eq!(r, Some(Reply { syn: false, ack: true, fin: false }));
    assert_eq!(t.state, TcpState::CloseWait);
    assert_eq!(t.acknowledgment_number, 1012);
}

#[test]
fn established_plain_ack_changes_nothing() {
    let mut t = block(TcpState::Established, 301, 1001);
    assert_eq!(t.on_packet(&segment(false, true, false, 1001, 301)), None);
    assert_eq!(t.state, TcpState::Established);
}

#[test]
fn active_close_path() {
    let mut t = block(TcpState::Established, 301, 1001);
    assert_eq!(t.close(), Some(Reply { syn: false, ack: true, fin: true }));
    assert_eq!(t.state, TcpState::FinWait1);
    assert_eq!(t.on_packet(&segment(false, true, false, 1001, 302)), None);
    assert_eq!(t.state, TcpState::FinWait2);
    let r = t.on_packet(&segment(false, true, true, 1001, 302));
    assert_eq!(r, Some(Reply { syn: false, ack: true, fin: false }));
    assert_eq!(t.state, TcpState::TimeWait);
    assert_eq!(t.acknowledgment_number, 1002);
    t.on_timeout();
    assert_eq!(t.state, TcpState::Closed);
}

#[test]
fn simultaneous_close_path() {
    let mut t = block(TcpState::FinWait1, 301, 1001);
    let r = t.on_packet(&segment(false, true, true, 1001, 301));
    assert_eq!(r, Some(Reply { syn: false, ack: true, fin: false }));
    assert_eq!(t.state, TcpState::Closing);
    assert_eq!(t.on_packet(&segment(false, true, false, 1002, 302)), None);
    assert_eq!(t.state, TcpState::TimeWait);
}

#[test]
fn passive_close_path() {
    let mut t = block(TcpState::CloseWait, 301, 1002);
    assert_eq!(t.close(), Some(Reply { syn: false, ack: true, fin: true }));
    assert_eq!(t.state, TcpState::LastAck);
    assert_eq!(t.on_packet(&segment(false, true, false, 1002, 302)), None);
    assert_eq!(t.state, TcpState::Closed);
    assert_eq!(t.on_packet(&segment(true, false, false, 1, 0)), None);
    assert_eq!(t.state, TcpState::Closed);
}

#[test]
fn close_and_timeout_elsewhere_do_nothing() {
    let mut t = block(TcpState::Listen, 0, 0);
    assert_eq!(t.close(), None);
    t.on_timeout();
    assert_eq!(t.state, TcpState::Listen);
}

#[test]
fn get_or_create_returns_same_block() {
    let mut table = ConnectionTable::new();
    let id = IdentifyingTCB::new([192, 168, 1, 1], [10, 0, 0, 1], 80, 40000);
    {
        let t = table.get_or_create(&id);
        assert_eq!(t.state, TcpState::Listen);
        assert_eq!(t.identifier, id);
        t.window_size = 4096;
        t.state = TcpState::Established;
    }
    let t = table.get_or_create(&id);
    assert_eq!(t.window_size, 4096);
    assert_eq!(t.state, TcpState::Established);
    assert_eq!(table.len(), 1);
    let other = IdentifyingTCB::new([192, 168, 1, 1], [10, 0, 0, 1], 80, 40001);
    assert_eq!(table.get_or_create(&other).state, TcpState::Listen);
    assert_eq!(table.len(), 2);
    assert!(table.get(&id).is_some());
}

#[test]
fn syn_frame_gets_syn_ack_frame() {
    let mut table = ConnectionTable::new();
    let frame = tcp_frame([0x08, 0x00], 6, 0x02, 1000, 0);
    let out = match process_frame(&mut table, &frame) {
        FrameOutcome::Handled(Some(out)) => out,
        other => panic!("unexpected outcome {:?}", other),
    };
    assert_eq!(out.len(), 44);
    assert_eq!(&out[0..4], &[0, 0, 0x08, 0x00]);
    let ip = &out[4..24];
    assert_eq!(ip[0], 0x45);
    assert_eq!(u16::from_be_bytes([ip[2], ip[3]]), 40);
    assert_eq!(ip[8], 64);
    assert_eq!(ip[9], 6);
    assert_eq!(&ip[12..16], &[192, 168, 1, 136]);
    assert_eq!(&ip[16..20], &[10, 0, 0, 1]);
    let tcp = &out[24..44];
    assert_eq!(u16::from_be_bytes([tcp[0], tcp[1]]), 80);
    assert_eq!(u16::from_be_bytes([tcp[2], tcp[3]]), 40000);
    assert_eq!(u32::from_be_bytes([tcp[4], tcp[5], tcp[6], tcp[7]]), 0);
    assert_eq!(u32::from_be_bytes([tcp[8], tcp[9], tcp[10], tcp[11]]), 1001);
    assert_eq!(tcp[12], 0x50);
    assert_eq!(tcp[13], 0x12);
    let id = IdentifyingTCB::new([192, 168, 1, 136], [10, 0, 0, 1], 80, 40000);
    let t = table.get(&id).unwrap();
    assert_eq!(t.state, TcpState::SynReceived);
    assert_eq!(t.acknowledgment_number, 1001);
}

#[test]
fn handshake_over_frames() {
    let mut table = ConnectionTable::new();
    let id = IdentifyingTCB::new([192, 168, 1, 136], [10, 0, 0, 1], 80, 40000);
    process_frame(&mut table, &tcp_frame([0x08, 0x00], 6, 0x02, 1000, 0));
    let wrong = process_frame(&mut table, &tcp_frame([0x08, 0x00], 6, 0x10, 1001, 7));
    assert!(matches!(wrong, FrameOutcome::Handled(None)));
    assert_eq!(table.get(&id).unwrap().state, TcpState::SynReceived);
    let right = process_frame(&mut table, &tcp_frame([0x08, 0x00], 6, 0x10, 1001, 1));
    assert!(matches!(right, FrameOutcome::Handled(None)));
    assert_eq!(table.get(&id).unwrap().state, TcpState::Established);
    let fin = process_frame(&mut table, &tcp_frame([0x08, 0x00], 6, 0x11, 1001, 1));
    match fin {
        FrameOutcome::Handled(Some(out)) => assert_eq!(out[24 + 13], 0x10),
        other => panic!("unexpected outcome {:?}", other),
    }
    assert_eq!(table.get(&id).unwrap().state, TcpState::CloseWait);
    assert_eq!(table.len(), 1);
}

#[test]
fn unsupported_ethertype_and_transport_are_dropped() {
    let mut table = ConnectionTable::new();
    let ipv6 = process_frame(&mut table, &tcp_frame([0x86, 0xDD], 6, 0x02, 1, 0));
    assert!(matches!(ipv6, FrameOutcome::Dropped(DropReason::UnsupportedEthertype)));
    let udp = process_frame(&mut table, &tcp_frame([0x08, 0x00], 17, 0x02, 1, 0));
    assert!(matches!(udp, FrameOutcome::Dropped(DropReason::UnsupportedTransport)));
    assert_eq!(table.len(), 0);
}

#[test]
fn dropping_leaves_existing_blocks_alone() {
    let mut table = ConnectionTable::new();
    let id = IdentifyingTCB::new([192, 168, 1, 136], [10, 0, 0, 1], 80, 40000);
    process_frame(&mut table, &tcp_frame([0x08, 0x00], 6, 0x02, 1000, 0));
    process_frame(&mut table, &tcp_frame([0x08, 0x06], 6, 0x10, 1001, 1));
    process_frame(&mut table, &tcp_frame([0x08, 0x00], 17, 0x10, 1001, 1));
    let t = table.get(&id).unwrap();
    assert_eq!(t.state, TcpState::SynReceived);
    assert_eq!(t.acknowledgment_number, 1001);
    assert_eq!(table.len(), 1);
}

#[test]
fn malformed_frames_are_dropped() {
    let mut table = ConnectionTable::new();
    assert!(matches!(
        process_frame(&mut table, &[0, 0, 8]),
        FrameOutcome::Dropped(DropReason::Truncated)
    ));
    let short_ip = tcp_frame([0x08, 0x00], 6, 0x02, 1, 0)[..20].to_vec();
    assert!(matches!(
        process_frame(&mut table, &short_ip),
        FrameOutcome::Dropped(DropReason::MalformedIpv4)
    ));
    let mut version6 = tcp_frame([0x08, 0x00], 6, 0x02, 1, 0);
    version6[4] = 0x65;
    assert!(matches!(
        process_frame(&mut table, &version6),
        FrameOutcome::Dropped(DropReason::MalformedIpv4)
    ));
    let short_tcp = tcp_frame([0x08, 0x00], 6, 0x02, 1, 0)[..34].to_vec();
    assert!(matches!(
        process_frame(&mut table, &short_tcp),
        FrameOutcome::Dropped(DropReason::MalformedTcp)
    ));
    let mut small_offset = tcp_frame([0x08, 0x00], 6, 0x02, 1, 0);
    small_offset[24 + 12] = 0x40;
    assert!(matches!(
        process_frame(&mut table, &small_offset),
        FrameOutcome::Dropped(DropReason::MalformedTcp)
    ));
    assert_eq!(table.len(), 0);
}

#[test]
fn ethertype_and_protocol_checks() {
    assert!(is_ipv4_ethertype(0x08, 0x00));
    assert!(!is_ipv4_ethertype(0x86, 0xDD));
    assert!(!is_ipv4_ethertype(0x00, 0x08));
    assert!(!is_ipv4_ethertype(0x08, 0x06));
    assert!(is_tcp_protocol(6));
    assert!(!is_tcp_protocol(17));
    assert!(!is_tcp_protocol(255));
}
