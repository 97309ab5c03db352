//! The dissector: from the bytes of one frame to its layered record.
//!
//! A frame is decoded top down. Each layer that decodes is recorded; the
//! first one that does not decode ends the dissection, and what was
//! recorded above it stays.

use vstd::prelude::*;
use crate::decode::{
    decode_arp, decode_ethernet, decode_icmp, decode_icmpv6, decode_ipv4, decode_ipv6,
    decode_tcp, decode_udp,
};
use crate::packet_data::{
    ArpPacketInfo, CompletePacket, EthernetPacketInfo, IcmpPacketInfo, Icmpv6PacketInfo,
    Ipv4PacketInfo, Ipv6PacketInfo, PacketsData, TcpPacketInfo, UdpPacketInfo,
};
use crate::wire::{
    be16, has_tcp_options, ipv4_payload, ipv4_payload_start, ipv6_payload, is_arp_header,
    is_ethernet_header, is_icmp_header, is_icmpv6_header, is_ipv4_header, is_ipv6_header,
    is_tcp_header, is_udp_header, tail, ARP_HEADER_LEN, ETHERNET_HEADER_LEN, ETHERTYPE_ARP,
    ETHERTYPE_IPV4, ETHERTYPE_IPV6, ICMPV6_HEADER_LEN, ICMP_HEADER_LEN, IPV4_HEADER_LEN,
    IPV6_HEADER_LEN, PROTOCOL_ICMP, PROTOCOL_ICMPV6, PROTOCOL_TCP, PROTOCOL_UDP, TCP_HEADER_LEN,
    UDP_HEADER_LEN,
};

verus! {

/// A transport header is decoded from `payload` under this protocol number:
/// the protocol is one of the four known ones and the bytes hold its header.
pub open spec fn transport_decodes(protocol: u8, payload: Seq<u8>) -> bool {
    ||| protocol == PROTOCOL_ICMP && payload.len() >= ICMP_HEADER_LEN
    ||| protocol == PROTOCOL_ICMPV6 && payload.len() >= ICMPV6_HEADER_LEN
    ||| protocol == PROTOCOL_TCP && payload.len() >= TCP_HEADER_LEN
    ||| protocol == PROTOCOL_UDP && payload.len() >= UDP_HEADER_LEN
}

/// `d` is the transport header that `payload` starts with under this protocol number.
pub open spec fn is_transport_of(d: PacketsData, protocol: u8, payload: Seq<u8>) -> bool {
    match d {
        PacketsData::IcmpPacket(h) => protocol == PROTOCOL_ICMP && is_icmp_header(h, payload),
        PacketsData::Icmpv6Packet(h) => protocol == PROTOCOL_ICMPV6 && is_icmpv6_header(
            h,
            payload,
        ),
        PacketsData::TcpPacket(h) => protocol == PROTOCOL_TCP && is_tcp_header(h, payload)
            && has_tcp_options(h, payload),
        PacketsData::UdpPacket(h) => protocol == PROTOCOL_UDP && is_udp_header(h, payload),
        _ => false,
    }
}

/// The transport layer after a payload was looked at: the header that was
/// decoded, or what the layer held before where none was.
pub open spec fn transport_layer_of(
    protocol: u8,
    payload: Seq<u8>,
    before: Option<PacketsData>,
    after: Option<PacketsData>,
) -> bool {
    if transport_decodes(protocol, payload) {
        after matches Some(d) && is_transport_of(d, protocol, payload)
    } else {
        after == before
    }
}

/// The network and transport layers after the payload of a frame of this
/// type was looked at. ARP fills the network layer alone; IPv4 and IPv6
/// go on to the transport layer; any other type, or too few bytes, leaves
/// both layers as they were.
pub open spec fn network_layers_of(
    ethertype: u16,
    payload: Seq<u8>,
    before: CompletePacket,
    after: CompletePacket,
) -> bool {
    if ethertype == ETHERTYPE_ARP && payload.len() >= ARP_HEADER_LEN {
        &&& after.layer_2 matches Some(PacketsData::ArpPacket(h)) && is_arp_header(h, payload)
        &&& after.layer_3 == before.layer_3
    } else if ethertype == ETHERTYPE_IPV4 && payload.len() >= IPV4_HEADER_LEN {
        &&& after.layer_2 matches Some(PacketsData::Ipv4Packet(h)) && is_ipv4_header(h, payload)
        &&& transport_layer_of(payload[9], ipv4_payload(payload), before.layer_3, after.layer_3)
    } else if ethertype == ETHERTYPE_IPV6 && payload.len() >= IPV6_HEADER_LEN {
        &&& after.layer_2 matches Some(PacketsData::Ipv6Packet(h)) && is_ipv6_header(h, payload)
        &&& transport_layer_of(payload[6], ipv6_payload(payload), before.layer_3, after.layer_3)
    } else {
        &&& after.layer_2 == before.layer_2
        &&& after.layer_3 == before.layer_3
    }
}

/// `p` holds the layers of `frame`: nothing where the frame is shorter than
/// an Ethernet header, else that header and below it what the frame's
/// type and payload give.
pub open spec fn is_dissection_of(p: CompletePacket, frame: Seq<u8>) -> bool {
    if frame.len() < ETHERNET_HEADER_LEN {
        p.is_blank()
    } else {
        p.layer_1 matches Some(PacketsData::EthernetPacket(e)) && is_ethernet_header(e, frame)
            && network_layers_of(
            e.ethertype,
            tail(frame, 14),
            CompletePacket { id: p.id, layer_1: None, layer_2: None, layer_3: None },
            p,
        )
    }
}

/// Records an ICMP header as the transport layer.
pub fn handle_icmp_packet(icmp_packet: IcmpPacketInfo, complete_packet: &mut CompletePacket)
    ensures
        final(complete_packet).layer_3 == Some(PacketsData::IcmpPacket(icmp_packet)),
        final(complete_packet).id == old(complete_packet).id,
        final(complete_packet).layer_1 == old(complete_packet).layer_1,
        final(complete_packet).layer_2 == old(complete_packet).layer_2,
{
    complete_packet.set_layer3_packet(Some(PacketsData::IcmpPacket(icmp_packet)));
}

/// Records an ICMPv6 header as the transport layer.
pub fn handle_icmpv6_packet(icmpv6_packet: Icmpv6PacketInfo, complete_packet: &mut CompletePacket)
    ensures
        final(complete_packet).layer_3 == Some(PacketsData::Icmpv6Packet(icmpv6_packet)),
        final(complete_packet).id == old(complete_packet).id,
        final(complete_packet).layer_1 == old(complete_packet).layer_1,
        final(complete_packet).layer_2 == old(complete_packet).layer_2,
{
    complete_packet.set_layer3_packet(Some(PacketsData::Icmpv6Packet(icmpv6_packet)));
}

/// Records a TCP header as the transport layer.
pub fn handle_tcp_packet(tcp_packet: TcpPacketInfo, complete_packet: &mut CompletePacket)
    ensures
        final(complete_packet).layer_3 == Some(PacketsData::TcpPacket(tcp_packet)),
        final(complete_packet).id == old(complete_packet).id,
        final(complete_packet).layer_1 == old(complete_packet).layer_1,
        final(complete_packet).layer_2 == old(complete_packet).layer_2,
{
    complete_packet.set_layer3_packet(Some(PacketsData::TcpPacket(tcp_packet)));
}

/// Records a UDP header as the transport layer.
pub fn handle_udp_packet(udp_packet: UdpPacketInfo, complete_packet: &mut CompletePacket)
    ensures
        final(complete_packet).layer_3 == Some(PacketsData::UdpPacket(udp_packet)),
        final(complete_packet).id == old(complete_packet).id,
        final(complete_packet).layer_1 == old(complete_packet).layer_1,
        final(complete_packet).layer_2 == old(complete_packet).layer_2,
{
    complete_packet.set_layer3_packet(Some(PacketsData::UdpPacket(udp_packet)));
}

/// Decodes the transport header that `packet` starts with, as `protocol`
/// names it, into the transport layer. The layer is left as it was where
/// the protocol is none of ICMP, ICMPv6, TCP and UDP, or the bytes are too
/// few for its header.
pub fn handle_ip_next_header_protocols(
    packet: &[u8],
    protocol: u8,
    complete_packet: &mut CompletePacket,
)
    ensures
        transport_layer_of(
            protocol,
            packet@,
            old(complete_packet).layer_3,
            final(complete_packet).layer_3,
        ),
        final(complete_packet).id == old(complete_packet).id,
        final(complete_packet).layer_1 == old(complete_packet).layer_1,
        final(complete_packet).layer_2 == old(complete_packet).layer_2,
{
    if protocol == PROTOCOL_ICMP {
        if let Some(icmp_packet) = decode_icmp(packet) {
            handle_icmp_packet(icmp_packet, complete_packet);
        }
    } else if protocol == PROTOCOL_ICMPV6 {
        if let Some(icmpv6_packet) = decode_icmpv6(packet) {
            handle_icmpv6_packet(icmpv6_packet, complete_packet);
        }
    } else if protocol == PROTOCOL_TCP {
        if let Some(tcp_packet) = decode_tcp(packet) {
            handle_tcp_packet(tcp_packet, complete_packet);
        }
    } else if protocol == PROTOCOL_UDP {
        if let Some(udp_packet) = decode_udp(packet) {
            handle_udp_packet(udp_packet, complete_packet);
        }
    }
}

/// Records an IPv6 header as the network layer and goes on to the
/// transport header in its payload.
pub fn handle_ipv6_packet(
    ipv6_packet: Ipv6PacketInfo,
    payload: &[u8],
    complete_packet: &mut CompletePacket,
)
    ensures
        final(complete_packet).layer_2 == Some(PacketsData::Ipv6Packet(ipv6_packet)),
        transport_layer_of(
            ipv6_packet.next_header,
            payload@,
            old(complete_packet).layer_3,
            final(complete_packet).layer_3,
        ),
        final(complete_packet).id == old(complete_packet).id,
        final(complete_packet).layer_1 == old(complete_packet).layer_1,
{
    let next_header = ipv6_packet.next_header;
    complete_packet.set_layer2_packet(Some(PacketsData::Ipv6Packet(ipv6_packet)));
    handle_ip_next_header_protocols(payload, next_header, complete_packet);
}

/// Records an IPv4 header as the network layer and goes on to the
/// transport header in its payload.
pub fn handle_ipv4_packet(
    ipv4_packet: Ipv4PacketInfo,
    payload: &[u8],
    complete_packet: &mut CompletePacket,
)
    ensures
        final(complete_packet).layer_2 == Some(PacketsData::Ipv4Packet(ipv4_packet)),
        transport_layer_of(
            ipv4_packet.next_level_protocol,
            payload@,
            old(complete_packet).layer_3,
            final(complete_packet).layer_3,
        ),
        final(complete_packet).id == old(complete_packet).id,
        final(complete_packet).layer_1 == old(complete_packet).layer_1,
{
    let protocol = ipv4_packet.next_level_protocol;
    complete_packet.set_layer2_packet(Some(PacketsData::Ipv4Packet(ipv4_packet)));
    handle_ip_next_header_protocols(payload, protocol, complete_packet);
}

/// Records an ARP header as the network layer. Nothing is looked for below it.
pub fn handle_arp_packet(arp_packet: ArpPacketInfo, complete_packet: &mut CompletePacket)
    ensures
        final(complete_packet).layer_2 == Some(PacketsData::ArpPacket(arp_packet)),
        final(complete_packet).id == old(complete_packet).id,
        final(complete_packet).layer_1 == old(complete_packet).layer_1,
        final(complete_packet).layer_3 == old(complete_packet).layer_3,
{
    complete_packet.set_layer2_packet(Some(PacketsData::ArpPacket(arp_packet)));
}

/// Records an Ethernet header as the link layer and decodes its payload
/// as the header's type says.
pub fn handle_ethernet_packet(
    ethernet_packet: EthernetPacketInfo,
    complete_packet: &mut CompletePacket,
)
    ensures
        final(complete_packet).layer_1 == Some(PacketsData::EthernetPacket(ethernet_packet)),
        network_layers_of(
            ethernet_packet.ethertype,
            ethernet_packet.payload@,
            *old(complete_packet),
            *final(complete_packet),
        ),
        final(complete_packet).id == old(complete_packet).id,
{
    let ethertype = ethernet_packet.ethertype;
    if ethertype == ETHERTYPE_ARP {
        if let Some(arp_packet) = decode_arp(ethernet_packet.payload.as_slice()) {
            handle_arp_packet(arp_packet, complete_packet);
        }
    } else if ethertype == ETHERTYPE_IPV4 {
        if let Some((ipv4_packet, payload)) = decode_ipv4(ethernet_packet.payload.as_slice()) {
            handle_ipv4_packet(ipv4_packet, payload.as_slice(), complete_packet);
        }
    } else if ethertype == ETHERTYPE_IPV6 {
        if let Some((ipv6_packet, payload)) = decode_ipv6(ethernet_packet.payload.as_slice()) {
            handle_ipv6_packet(ipv6_packet, payload.as_slice(), complete_packet);
        }
    }
    complete_packet.set_layer1_packet(Some(PacketsData::EthernetPacket(ethernet_packet)));
}

/// Dissects one frame into a record with the given identifier. Every byte
/// sequence is taken: what does not decode is left empty.
pub fn dissect(id: u64, frame: &[u8]) -> (packet: CompletePacket)
    ensures
        packet.id == id,
        is_dissection_of(packet, frame@),
        packet.well_layered(),
{
    let mut complete_packet = CompletePacket::new(id);
    if let Some(ethernet_packet) = decode_ethernet(frame) {
        handle_ethernet_packet(ethernet_packet, &mut complete_packet);
    }
    complete_packet
}

/// An Ethernet frame that carries a whole IPv4 packet with a whole TCP
/// header in it: the type is IPv4, the IP header is of version 4 and at
/// least five words long, its protocol is TCP, its total length covers the
/// IP header and 20 bytes of TCP header, and the frame holds that many bytes.
pub open spec fn is_ethernet_ipv4_tcp_frame(frame: Seq<u8>) -> bool {
    &&& frame.len() >= ETHERNET_HEADER_LEN + IPV4_HEADER_LEN
    &&& be16(frame, 12) == ETHERTYPE_IPV4
    &&& frame[14] / 16 == 4
    &&& frame[14] % 16 >= 5
    &&& frame[23] == PROTOCOL_TCP
    &&& be16(frame, 16) >= (frame[14] % 16) * 4 + TCP_HEADER_LEN
    &&& frame.len() >= ETHERNET_HEADER_LEN + be16(frame, 16)
}

/// Where the TCP header starts in a frame that carries IPv4: behind the
/// Ethernet header and the IPv4 header with its options.
pub open spec fn tcp_offset_in_frame(frame: Seq<u8>) -> int {
    ETHERNET_HEADER_LEN + (frame[14] % 16) * 4
}

/// The dissection of a well-formed Ethernet, IPv4 and TCP frame has all
/// three layers: the Ethernet header, the IPv4 header with the addresses
/// that the frame holds, and the TCP header with the ports that the frame
/// holds.
pub proof fn ethernet_ipv4_tcp_dissects_fully(p: CompletePacket, frame: Seq<u8>)
    requires
        is_dissection_of(p, frame),
        is_ethernet_ipv4_tcp_frame(frame),
    ensures
        p.layer_1 matches Some(PacketsData::EthernetPacket(e)) && is_ethernet_header(e, frame),
        p.layer_2 matches Some(PacketsData::Ipv4Packet(h)) && is_ipv4_header(h, tail(frame, 14))
            && h.source@ == frame.subrange(26, 30) && h.destination@ == frame.subrange(30, 34),
        p.layer_3 matches Some(PacketsData::TcpPacket(t)) && is_tcp_header(
            t,
            ipv4_payload(tail(frame, 14)),
        ) && t.source == be16(frame, tcp_offset_in_frame(frame)) && t.destination == be16(
            frame,
            tcp_offset_in_frame(frame) + 2,
        ),
        p.well_layered(),
{
    let ip = tail(frame, 14);
    assert(ip.len() == frame.len() - 14);
    assert(forall|i: int| 0 <= i < ip.len() ==> ip[i] == frame[i + 14]);
    assert(ip.subrange(12, 16) =~= frame.subrange(26, 30));
    assert(ip.subrange(16, 20) =~= frame.subrange(30, 34));
    let start = ipv4_payload_start(ip);
    assert(start == (frame[14] % 16) * 4);
    let segment = ipv4_payload(ip);
    assert(segment.len() >= TCP_HEADER_LEN);
    assert(forall|i: int| 0 <= i < segment.len() ==> segment[i] == ip[i + start]);
    assert(transport_decodes(PROTOCOL_TCP, segment));
}

/// An IPv4 frame that is cut off before the twentieth byte of its IPv4
/// header keeps its link layer and has nothing below it.
pub proof fn truncated_ipv4_keeps_link_layer_only(p: CompletePacket, frame: Seq<u8>)
    requires
        is_dissection_of(p, frame),
        frame.len() >= ETHERNET_HEADER_LEN,
        be16(frame, 12) == ETHERTYPE_IPV4,
        frame.len() < ETHERNET_HEADER_LEN + IPV4_HEADER_LEN,
    ensures
        p.layer_1 matches Some(PacketsData::EthernetPacket(e)) && is_ethernet_header(e, frame),
        p.layer_2 is None,
        p.layer_3 is None,
{
}

/// A frame of type ARP never has a transport layer, whatever follows its
/// ARP header and whether or not that header is whole.
pub proof fn arp_has_no_transport_layer(p: CompletePacket, frame: Seq<u8>)
    requires
        is_dissection_of(p, frame),
        frame.len() >= ETHERNET_HEADER_LEN,
        be16(frame, 12) == ETHERTYPE_ARP,
    ensures
        p.layer_3 is None,
        p.layer_2 matches Some(l2) ==> l2 is ArpPacket,
{
}

/// Every dissection is well layered: no layer is populated under an empty
/// one, and none under ARP.
pub proof fn dissection_is_well_layered(p: CompletePacket, frame: Seq<u8>)
    requires
        is_dissection_of(p, frame),
    ensures
        p.well_layered(),
{
}

/// The layers of a frame are determined by its bytes: two dissections of
/// the same bytes hold the same headers in every layer.
pub proof fn dissection_is_determined(p: CompletePacket, q: CompletePacket, frame: Seq<u8>)
    requires
        is_dissection_of(p, frame),
        is_dissection_of(q, frame),
    ensures
        CompletePacket::same_layer(p.layer_1, q.layer_1),
        CompletePacket::same_layer(p.layer_2, q.layer_2),
        CompletePacket::same_layer(p.layer_3, q.layer_3),
{
    if frame.len() >= ETHERNET_HEADER_LEN {
        let a = p.layer_1->Some_0->EthernetPacket_0;
        let b = q.layer_1->Some_0->EthernetPacket_0;
        assert(a.destination =~= b.destination);
        assert(a.source =~= b.source);
        let rest = tail(frame, 14);
        link_payload_is_determined(p, q, a.ethertype, rest);
    }
}

proof fn link_payload_is_determined(
    p: CompletePacket,
    q: CompletePacket,
    ethertype: u16,
    rest: Seq<u8>,
)
    requires
        network_layers_of(
            ethertype,
            rest,
            CompletePacket { id: p.id, layer_1: None, layer_2: None, layer_3: None },
            p,
        ),
        network_layers_of(
            ethertype,
            rest,
            CompletePacket { id: q.id, layer_1: None, layer_2: None, layer_3: None },
            q,
        ),
    ensures
        CompletePacket::same_layer(p.layer_2, q.layer_2),
        CompletePacket::same_layer(p.layer_3, q.layer_3),
{
    if ethertype == ETHERTYPE_ARP && rest.len() >= ARP_HEADER_LEN {
        let a = p.layer_2->Some_0->ArpPacket_0;
        let b = q.layer_2->Some_0->ArpPacket_0;
        assert(a.sender_hw_addr =~= b.sender_hw_addr);
        assert(a.sender_proto_addr =~= b.sender_proto_addr);
        assert(a.target_hw_addr =~= b.target_hw_addr);
        assert(a.target_proto_addr =~= b.target_proto_addr);
    } else if ethertype == ETHERTYPE_IPV4 && rest.len() >= IPV4_HEADER_LEN {
        let a = p.layer_2->Some_0->Ipv4Packet_0;
        let b = q.layer_2->Some_0->Ipv4Packet_0;
        assert(a.source =~= b.source);
        assert(a.destination =~= b.destination);
        transport_is_determined(rest[9], ipv4_payload(rest), p.layer_3, q.layer_3);
    } else if ethertype == ETHERTYPE_IPV6 && rest.len() >= IPV6_HEADER_LEN {
        let a = p.layer_2->Some_0->Ipv6Packet_0;
        let b = q.layer_2->Some_0->Ipv6Packet_0;
        assert(a.source =~= b.source);
        assert(a.destination =~= b.destination);
        transport_is_determined(rest[6], ipv6_payload(rest), p.layer_3, q.layer_3);
    }
}

proof fn transport_is_determined(
    protocol: u8,
    payload: Seq<u8>,
    a: Option<PacketsData>,
    b: Option<PacketsData>,
)
    requires
        transport_layer_of(protocol, payload, None, a),
        transport_layer_of(protocol, payload, None, b),
    ensures
        CompletePacket::same_layer(a, b),
{
}

} // verus!
