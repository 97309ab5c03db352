use netsniff::dissect::{
    dissect, handle_arp_packet, handle_ethernet_packet, handle_ip_next_header_protocols,
    handle_udp_packet,
};
use netsniff::packet_data::{
    ArpPacketInfo, CompletePacket, EthernetPacketInfo, IcmpPacketInfo, Icmpv6PacketInfo,
    Ipv4PacketInfo, Ipv6PacketInfo, PacketsData, TcpOption, TcpPacketInfo, UdpPacketInfo,
};

const DST: [u8; 6] = [0xaa, 0xbb, 0xcc, 0xdd, 0xee, 0xff];
const SRC: [u8; 6] = [0x11, 0x22, 0x33, 0x44, 0x55, 0x66];

fn ethernet(ethertype: u16, payload: &[u8]) -> Vec<u8> {
    let mut frame = Vec::new();
    frame.extend_from_slice(&DST);
    frame.extend_from_slice(&SRC);
    frame.extend_from_slice(&ethertype.to_be_bytes());
    frame.extend_from_slice(payload);
    frame
}

fn ipv4(header_words: u8, total_length: u16, protocol: u8, rest: &[u8]) -> Vec<u8> {
    let mut packet = vec![
        0x40 | header_words, 0xb9,
        (total_length >> 8) as u8, (total_length & 0xff) as u8,
        0x12, 0x34, 0x41, 0x23, 64, protocol, 0xab, 0xcd,
        192, 168, 1, 10,
        10, 0, 0, 1,
    ];
    packet.extend_from_slice(rest);
    packet
}

fn ipv4_info(header_words: u8, total_length: u16, protocol: u8, length: usize) -> Ipv4PacketInfo {
    Ipv4PacketInfo {
        version: 4,
        header_length: header_words,
        dscp: 46,
        ecn: 1,
        total_length,
        identification: 0x1234,
        flags: 2,
        fragment_offset: 0x0123,
        ttl: 64,
        next_level_protocol: protocol,
        checksum: 0xabcd,
        source: [192, 168, 1, 10],
        destination: [10, 0, 0, 1],
        length,
    }
}

fn tcp_header(data_offset_and_reserved: u8) -> Vec<u8> {
    vec![
        0x01, 0xbb, 0xc7, 0x38,
        0x01, 0x02, 0x03, 0x04,
        0x0a, 0x0b, 0x0c, 0x0d,
        data_offset_and_reserved, 0x18, 0x72, 0x10,
        0xbe, 0xef, 0x00, 0x01,
    ]
}

fn tcp_info(
    data_offset: u8,
    reserved: u8,
    options: Vec<TcpOption>,
    length: usize,
) -> TcpPacketInfo {
    TcpPacketInfo {
        source: 443,
        destination: 51000,
        sequence: 0x01020304,
        acknowledgement: 0x0a0b0c0d,
        data_offset,
        reserved,
        flags: 0x18,
        window: 0x7210,
        checksum: 0xbeef,
        urgent_ptr: 1,
        options,
        length,
    }
}

fn arp_request() -> Vec<u8> {
    vec![
        0x00, 0x01, 0x08, 0x00, 6, 4, 0x00, 0x01,
        0x11, 0x22, 0x33, 0x44, 0x55, 0x66,
        192, 168, 1, 10,
        0, 0, 0, 0, 0, 0,
        192, 168, 1, 1,
    ]
}

fn arp_info() -> ArpPacketInfo {
    ArpPacketInfo {
        hardware_type: 1,
        protocol_type: 0x0800,
        hw_addr_len: 6,
        proto_addr_len: 4,
        operation: 1,
        sender_hw_addr: SRC,
        sender_proto_addr: [192, 168, 1, 10],
        target_hw_addr: [0; 6],
        target_proto_addr: [192, 168, 1, 1],
        length: 0,
    }
}

fn link(ethertype: u16, payload: &[u8]) -> Option<PacketsData> {
    Some(PacketsData::EthernetPacket(EthernetPacketInfo {
        destination: DST,
        source: SRC,
        ethertype,
        payload: payload.to_vec(),
    }))
}

#[test]
fn arp_request_of_42_bytes_has_link_and_arp_layers() {
    let frame = ethernet(0x0806, &arp_request());
    assert_eq!(frame.len(), 42);
    let packet = dissect(1, &frame);
    assert_eq!(
        packet,
        CompletePacket {
            id: 1,
            layer_1: link(0x0806, &arp_request()),
            layer_2: Some(PacketsData::ArpPacket(arp_info())),
            layer_3: None,
        }
    );
}

#[test]
fn arp_frame_with_trailing_bytes_has_no_transport_layer() {
    let mut body = arp_request();
    body.extend_from_slice(&tcp_header(0x50));
    body.extend_from_slice(&[0u8; 18]);
    let packet = dissect(9, &ethernet(0x0806, &body));
    assert_eq!(packet.layer_1, link(0x0806, &body));
    assert_eq!(packet.layer_2, Some(PacketsData::ArpPacket(arp_info())));
    assert_eq!(packet.layer_3, None);
}

#[test]
fn arp_frame_cut_short_keeps_only_the_link_layer() {
    let body = &arp_request()[..27];
    let packet = dissect(2, &ethernet(0x0806, body));
    assert_eq!(packet.layer_1, link(0x0806, body));
    assert_eq!(packet.layer_2, None);
    assert_eq!(packet.layer_3, None);
}

#[test]
fn ethernet_ipv4_tcp_has_all_three_layers() {
    let mut segment = tcp_header(0x53);
    segment.extend_from_slice(&[1, 2, 3, 4]);
    let ip = ipv4(5, 44, 6, &segment);
    let packet = dissect(7, &ethernet(0x0800, &ip));
    assert_eq!(packet.id, 7);
    assert_eq!(packet.layer_1, link(0x0800, &ip));
    assert_eq!(packet.layer_2, Some(PacketsData::Ipv4Packet(ipv4_info(5, 44, 6, 24))));
    assert_eq!(packet.layer_3, Some(PacketsData::TcpPacket(tcp_info(5, 3, vec![], 4))));
}

#[test]
fn ipv4_payload_ends_where_the_total_length_says() {
    let mut segment = tcp_header(0x50);
    segment.extend_from_slice(&[1, 2, 3, 4]);
    segment.extend_from_slice(&[0u8; 6]);
    let ip = ipv4(5, 44, 6, &segment);
    let packet = dissect(1, &ethernet(0x0800, &ip));
    assert_eq!(packet.layer_2, Some(PacketsData::Ipv4Packet(ipv4_info(5, 44, 6, 24))));
    assert_eq!(packet.layer_3, Some(PacketsData::TcpPacket(tcp_info(5, 0, vec![], 4))));
}

#[test]
fn ipv4_options_are_skipped_and_tcp_options_are_listed() {
    let mut rest = vec![0x94, 0x04, 0x00, 0x00];
    rest.extend_from_slice(&tcp_header(0x70));
    rest.extend_from_slice(&[2, 4, 0x05, 0xb4, 1, 1, 1, 0]);
    rest.extend_from_slice(&[9, 9, 9]);
    let ip = ipv4(6, 24 + 28 + 3, 6, &rest);
    let packet = dissect(3, &ethernet(0x0800, &ip));
    assert_eq!(packet.layer_2, Some(PacketsData::Ipv4Packet(ipv4_info(6, 55, 6, 31))));
    let nop = TcpOption { number: 1, length: vec![], data: vec![] };
    let options = vec![
        TcpOption { number: 2, length: vec![4], data: vec![0x05, 0xb4] },
        nop.clone(),
        nop.clone(),
        nop,
        TcpOption { number: 0, length: vec![], data: vec![] },
    ];
    assert_eq!(packet.layer_3, Some(PacketsData::TcpPacket(tcp_info(7, 0, options, 3))));
}

#[test]
fn ipv4_cut_short_of_its_header_keeps_only_the_link_layer() {
    let ip = ipv4(5, 44, 6, &[]);
    let body = &ip[..19];
    let packet = dissect(4, &ethernet(0x0800, body));
    assert_eq!(packet.layer_1, link(0x0800, body));
    assert_eq!(packet.layer_2, None);
    assert_eq!(packet.layer_3, None);
}

#[test]
fn tcp_cut_short_of_its_header_keeps_link_and_network_layers() {
    let segment = &tcp_header(0x50)[..19];
    let ip = ipv4(5, 39, 6, segment);
    let packet = dissect(4, &ethernet(0x0800, &ip));
    assert_eq!(packet.layer_1, link(0x0800, &ip));
    assert_eq!(packet.layer_2, Some(PacketsData::Ipv4Packet(ipv4_info(5, 39, 6, 19))));
    assert_eq!(packet.layer_3, None);
}

#[test]
fn ipv4_udp_has_a_udp_layer() {
    let datagram = [0x00, 0x35, 0xd4, 0x31, 0x00, 0x0c, 0x1a, 0x2b, 1, 2, 3, 4];
    let ip = ipv4(5, 32, 17, &datagram);
    let packet = dissect(5, &ethernet(0x0800, &ip));
    assert_eq!(packet.layer_2, Some(PacketsData::Ipv4Packet(ipv4_info(5, 32, 17, 12))));
    assert_eq!(
        packet.layer_3,
        Some(PacketsData::UdpPacket(UdpPacketInfo {
            source: 53,
            destination: 54321,
            length: 12,
            checksum: 0x1a2b,
        }))
    );
}

#[test]
fn ipv4_icmp_has_an_icmp_layer() {
    let message = [8, 0, 0xf7, 0xff, 0, 1, 0, 2];
    let ip = ipv4(5, 28, 1, &message);
    let packet = dissect(6, &ethernet(0x0800, &ip));
    assert_eq!(
        packet.layer_3,
        Some(PacketsData::IcmpPacket(IcmpPacketInfo {
            icmp_type: 8,
            icmp_code: 0,
            checksum: 0xf7ff,
            length: 4,
        }))
    );
}

#[test]
fn ipv4_with_an_unknown_protocol_has_no_transport_layer() {
    let ip = ipv4(5, 40, 47, &[0u8; 20]);
    let packet = dissect(6, &ethernet(0x0800, &ip));
    assert_eq!(packet.layer_2, Some(PacketsData::Ipv4Packet(ipv4_info(5, 40, 47, 20))));
    assert_eq!(packet.layer_3, None);
}

fn ipv6(payload_length: u16, next_header: u8, rest: &[u8]) -> Vec<u8> {
    let mut packet = vec![
        0x6a, 0xbc, 0xde, 0xf1,
        (payload_length >> 8) as u8, (payload_length & 0xff) as u8,
        next_header, 255,
    ];
    packet.extend_from_slice(&[0xfe, 0x80, 0, 0, 0, 0, 0, 0, 0, 0, 0, 0, 0, 0, 0, 1]);
    packet.extend_from_slice(&[0xff, 0x02, 0, 0, 0, 0, 0, 0, 0, 0, 0, 0, 0, 0, 0, 2]);
    packet.extend_from_slice(rest);
    packet
}

fn ipv6_info(payload_length: u16, next_header: u8, length: usize) -> Ipv6PacketInfo {
    Ipv6PacketInfo {
        version: 6,
        traffic_class: 0xab,
        flow_label: 0xcdef1,
        payload_length,
        next_header,
        hop_limit: 255,
        source: [0xfe, 0x80, 0, 0, 0, 0, 0, 0, 0, 0, 0, 0, 0, 0, 0, 1],
        destination: [0xff, 0x02, 0, 0, 0, 0, 0, 0, 0, 0, 0, 0, 0, 0, 0, 2],
        length,
    }
}

#[test]
fn ipv6_icmpv6_has_an_icmpv6_layer() {
    let message = [135, 0, 0x12, 0x34, 0, 0, 0, 0, 7, 7];
    let ip = ipv6(8, 58, &message);
    let packet = dissect(8, &ethernet(0x86dd, &ip));
    assert_eq!(packet.layer_1, link(0x86dd, &ip));
    assert_eq!(packet.layer_2, Some(PacketsData::Ipv6Packet(ipv6_info(8, 58, 8))));
    assert_eq!(
        packet.layer_3,
        Some(PacketsData::Icmpv6Packet(Icmpv6PacketInfo {
            icmpv6_type: 135,
            icmpv6_code: 0,
            checksum: 0x1234,
            length: 4,
        }))
    );
}

#[test]
fn ipv6_tcp_has_a_tcp_layer() {
    let mut segment = tcp_header(0x50);
    segment.extend_from_slice(&[5, 6]);
    let ip = ipv6(22, 6, &segment);
    let packet = dissect(8, &ethernet(0x86dd, &ip));
    assert_eq!(packet.layer_2, Some(PacketsData::Ipv6Packet(ipv6_info(22, 6, 22))));
    assert_eq!(packet.layer_3, Some(PacketsData::TcpPacket(tcp_info(5, 0, vec![], 2))));
}

#[test]
fn ipv6_cut_short_of_its_header_keeps_only_the_link_layer() {
    let ip = ipv6(0, 6, &[]);
    let body = &ip[..39];
    let packet = dissect(8, &ethernet(0x86dd, body));
    assert_eq!(packet.layer_1, link(0x86dd, body));
    assert_eq!(packet.layer_2, None);
    assert_eq!(packet.layer_3, None);
}

#[test]
fn frame_of_another_type_has_only_the_link_layer() {
    let body = [1u8; 46];
    let packet = dissect(10, &ethernet(0x88cc, &body));
    assert_eq!(packet.layer_1, link(0x88cc, &body));
    assert_eq!(packet.layer_2, None);
    assert_eq!(packet.layer_3, None);
}

#[test]
fn frame_shorter_than_an_ethernet_header_has_no_layer() {
    let frame = ethernet(0x0800, &[]);
    assert_eq!(dissect(11, &frame[..13]), CompletePacket::new(11));
    assert_eq!(dissect(12, &[]), CompletePacket::new(12));
}

#[test]
fn frame_of_exactly_an_ethernet_header_has_an_empty_payload() {
    let packet = dissect(13, &ethernet(0x0800, &[]));
    assert_eq!(packet.layer_1, link(0x0800, &[]));
    assert_eq!(packet.layer_2, None);
}

#[test]
fn same_bytes_give_the_same_layers() {
    let mut segment = tcp_header(0x50);
    segment.extend_from_slice(&[1, 2, 3, 4]);
    let frame = ethernet(0x0800, &ipv4(5, 44, 6, &segment));
    let first = dissect(1, &frame);
    let second = dissect(2, &frame);
    assert_eq!(first.layer_1, second.layer_1);
    assert_eq!(first.layer_2, second.layer_2);
    assert_eq!(first.layer_3, second.layer_3);
}

#[test]
fn new_packet_is_blank_and_setters_fill_one_layer_each() {
    let mut packet = CompletePacket::new(3);
    assert_eq!(packet, CompletePacket { id: 3, layer_1: None, layer_2: None, layer_3: None });
    packet.set_layer2_packet(Some(PacketsData::ArpPacket(arp_info())));
    assert_eq!(packet.layer_1, None);
    assert_eq!(packet.layer_2, Some(PacketsData::ArpPacket(arp_info())));
    packet.set_layer1_packet(link(0x0806, &[]));
    packet.set_layer3_packet(None);
    assert_eq!(packet.layer_1, link(0x0806, &[]));
    assert_eq!(packet.layer_3, None);
    assert_eq!(packet.id, 3);
}

#[test]
fn transport_handler_leaves_the_layer_alone_without_a_header() {
    let udp = UdpPacketInfo { source: 1, destination: 2, length: 8, checksum: 0 };
    let mut packet = CompletePacket::new(1);
    handle_udp_packet(udp.clone(), &mut packet);
    handle_ip_next_header_protocols(&[0u8; 7], 17, &mut packet);
    assert_eq!(packet.layer_3, Some(PacketsData::UdpPacket(udp.clone())));
    handle_ip_next_header_protocols(&[0u8; 64], 200, &mut packet);
    assert_eq!(packet.layer_3, Some(PacketsData::UdpPacket(udp)));
    handle_ip_next_header_protocols(&[3, 1, 0, 9], 1, &mut packet);
    assert_eq!(
        packet.layer_3,
        Some(PacketsData::IcmpPacket(IcmpPacketInfo {
            icmp_type: 3,
            icmp_code: 1,
            checksum: 9,
            length: 0,
        }))
    );
}

#[test]
fn ethernet_handler_fills_link_and_network_layers() {
    let mut packet = CompletePacket::new(1);
    let header = EthernetPacketInfo {
        destination: DST,
        source: SRC,
        ethertype: 0x0806,
        payload: arp_request(),
    };
    handle_ethernet_packet(header.clone(), &mut packet);
    assert_eq!(packet.layer_1, Some(PacketsData::EthernetPacket(header)));
    assert_eq!(packet.layer_2, Some(PacketsData::ArpPacket(arp_info())));
    let mut other = CompletePacket::new(2);
    handle_arp_packet(arp_info(), &mut other);
    assert_eq!(other.layer_2, packet.layer_2);
    assert_eq!(other.layer_1, None);
}

#[test]
fn icmp_messages_cut_short_give_no_transport_layer() {
    let ip = ipv4(5, 23, 1, &[8, 0, 0]);
    let packet = dissect(1, &ethernet(0x0800, &ip));
    assert_eq!(packet.layer_2, Some(PacketsData::Ipv4Packet(ipv4_info(5, 23, 1, 3))));
    assert_eq!(packet.layer_3, None);
    let ip = ipv6(3, 58, &[128, 0, 0]);
    let packet = dissect(2, &ethernet(0x86dd, &ip));
    assert_eq!(packet.layer_2, Some(PacketsData::Ipv6Packet(ipv6_info(3, 58, 3))));
    assert_eq!(packet.layer_3, None);
}

#[test]
fn ipv4_header_shorter_than_five_words_still_has_a_20_byte_header() {
    let datagram = [0x00, 0x35, 0xd4, 0x31, 0x00, 0x08, 0x1a, 0x2b];
    let ip = ipv4(3, 28, 17, &datagram);
    let packet = dissect(1, &ethernet(0x0800, &ip));
    assert_eq!(packet.layer_2, Some(PacketsData::Ipv4Packet(ipv4_info(3, 28, 17, 8))));
    assert_eq!(
        packet.layer_3,
        Some(PacketsData::UdpPacket(UdpPacketInfo {
            source: 53,
            destination: 54321,
            length: 8,
            checksum: 0x1a2b,
        }))
    );
}

#[test]
fn ipv4_total_length_under_its_header_length_gives_an_empty_payload() {
    let ip = ipv4(5, 10, 17, &[0u8; 8]);
    let packet = dissect(1, &ethernet(0x0800, &ip));
    assert_eq!(packet.layer_2, Some(PacketsData::Ipv4Packet(ipv4_info(5, 10, 17, 0))));
    assert_eq!(packet.layer_3, None);
}

#[test]
fn tcp_data_offset_behind_the_segment_gives_an_empty_payload() {
    let mut segment = tcp_header(0xf0);
    segment.extend_from_slice(&[1, 1, 1, 1]);
    let ip = ipv4(5, 44, 6, &segment);
    let packet = dissect(1, &ethernet(0x0800, &ip));
    let nop = TcpOption { number: 1, length: vec![], data: vec![] };
    let options = vec![nop.clone(), nop.clone(), nop.clone(), nop];
    assert_eq!(packet.layer_3, Some(PacketsData::TcpPacket(tcp_info(15, 0, options, 0))));
}
