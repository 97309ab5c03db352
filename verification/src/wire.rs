//! What each header record means in terms of the bytes it was read from.
//!
//! Each `is_*_header` predicate relates a header record to the byte
//! sequence that starts at the header's first byte, and fixes every field
//! of the record. The options of a TCP header are the one thing that is
//! not spelled out: they are what `tcp_options_of` names.

use vstd::prelude::*;
use crate::packet_data::{
    options_view, ArpPacketInfo, EthernetPacketInfo, IcmpPacketInfo, Icmpv6PacketInfo,
    Ipv4PacketInfo, Ipv6PacketInfo, TcpPacketInfo, UdpPacketInfo,
};

verus! {

/// The least number of bytes from which each header is read.
pub const ETHERNET_HEADER_LEN: usize = 14;
pub const ARP_HEADER_LEN: usize = 28;
pub const IPV4_HEADER_LEN: usize = 20;
pub const IPV6_HEADER_LEN: usize = 40;
pub const TCP_HEADER_LEN: usize = 20;
pub const UDP_HEADER_LEN: usize = 8;
pub const ICMP_HEADER_LEN: usize = 4;
pub const ICMPV6_HEADER_LEN: usize = 4;

/// The Ethernet types that the dissector follows.
pub const ETHERTYPE_IPV4: u16 = 0x0800;
pub const ETHERTYPE_ARP: u16 = 0x0806;
pub const ETHERTYPE_IPV6: u16 = 0x86DD;

/// The IP protocol numbers that the dissector follows.
pub const PROTOCOL_ICMP: u8 = 1;
pub const PROTOCOL_TCP: u8 = 6;
pub const PROTOCOL_UDP: u8 = 17;
pub const PROTOCOL_ICMPV6: u8 = 58;

/// The 16-bit big-endian number at `at`.
pub open spec fn be16(b: Seq<u8>, at: int) -> int {
    b[at] * 256 + b[at + 1]
}

/// The 32-bit big-endian number at `at`.
pub open spec fn be32(b: Seq<u8>, at: int) -> int {
    be16(b, at) * 65536 + be16(b, at + 2)
}

/// The bytes from `start` up to `end`, or up to the end of `b` where that
/// comes first; no bytes where `start` is at or behind the end of `b`.
pub open spec fn window(b: Seq<u8>, start: int, end: int) -> Seq<u8> {
    if b.len() <= start {
        Seq::empty()
    } else if end < b.len() {
        b.subrange(start, end)
    } else {
        b.subrange(start, b.len() as int)
    }
}

/// The bytes from `start` to the end of `b`.
pub open spec fn tail(b: Seq<u8>, start: int) -> Seq<u8> {
    window(b, start, b.len() as int)
}

/// The Ethernet header: two addresses of six bytes, the type, and every
/// byte behind them as payload.
pub open spec fn is_ethernet_header(h: EthernetPacketInfo, b: Seq<u8>) -> bool {
    &&& h.destination@ == b.subrange(0, 6)
    &&& h.source@ == b.subrange(6, 12)
    &&& h.ethertype == be16(b, 12)
    &&& h.payload@ == tail(b, 14)
}

/// The ARP record of an Ethernet/IPv4 binding. The record counts no payload:
/// bytes behind the 28 header bytes are not part of it.
pub open spec fn is_arp_header(h: ArpPacketInfo, b: Seq<u8>) -> bool {
    &&& h.hardware_type == be16(b, 0)
    &&& h.protocol_type == be16(b, 2)
    &&& h.hw_addr_len == b[4]
    &&& h.proto_addr_len == b[5]
    &&& h.operation == be16(b, 6)
    &&& h.sender_hw_addr@ == b.subrange(8, 14)
    &&& h.sender_proto_addr@ == b.subrange(14, 18)
    &&& h.target_hw_addr@ == b.subrange(18, 24)
    &&& h.target_proto_addr@ == b.subrange(24, 28)
    &&& h.length == 0
}

/// Where the payload of an IPv4 packet starts: behind the header and its
/// options, and never inside the 20 fixed bytes.
pub open spec fn ipv4_payload_start(b: Seq<u8>) -> int {
    let header = (b[0] % 16) * 4;
    if header < 20 { 20 } else { header }
}

/// How many payload bytes the IPv4 header announces: its total length less
/// its header length, and none where that would be negative.
pub open spec fn ipv4_announced_payload(b: Seq<u8>) -> int {
    let header = (b[0] % 16) * 4;
    if be16(b, 2) < header { 0 } else { be16(b, 2) - header }
}

/// The payload of an IPv4 packet: the announced bytes, as far as they are there.
pub open spec fn ipv4_payload(b: Seq<u8>) -> Seq<u8> {
    window(b, ipv4_payload_start(b), ipv4_payload_start(b) + ipv4_announced_payload(b))
}

/// The 20 fixed bytes of an IPv4 header, and the length of its payload.
pub open spec fn is_ipv4_header(h: Ipv4PacketInfo, b: Seq<u8>) -> bool {
    &&& h.version == b[0] / 16
    &&& h.header_length == b[0] % 16
    &&& h.dscp == b[1] / 4
    &&& h.ecn == b[1] % 4
    &&& h.total_length == be16(b, 2)
    &&& h.identification == be16(b, 4)
    &&& h.flags == b[6] / 32
    &&& h.fragment_offset == (b[6] % 32) * 256 + b[7]
    &&& h.ttl == b[8]
    &&& h.next_level_protocol == b[9]
    &&& h.checksum == be16(b, 10)
    &&& h.source@ == b.subrange(12, 16)
    &&& h.destination@ == b.subrange(16, 20)
    &&& h.length == ipv4_payload(b).len()
}

/// The payload of an IPv6 packet: the bytes behind the 40 header bytes that
/// the payload length announces, as far as they are there.
pub open spec fn ipv6_payload(b: Seq<u8>) -> Seq<u8> {
    window(b, 40, 40 + be16(b, 4))
}

/// The 40 bytes of an IPv6 header, and the length of its payload.
pub open spec fn is_ipv6_header(h: Ipv6PacketInfo, b: Seq<u8>) -> bool {
    &&& h.version == b[0] / 16
    &&& h.traffic_class == (b[0] % 16) * 16 + (b[1] / 16)
    &&& h.flow_label == (b[1] % 16) * 65536 + be16(b, 2)
    &&& h.payload_length == be16(b, 4)
    &&& h.next_header == b[6]
    &&& h.hop_limit == b[7]
    &&& h.source@ == b.subrange(8, 24)
    &&& h.destination@ == b.subrange(24, 40)
    &&& h.length == ipv6_payload(b).len()
}

/// Where the payload of a TCP segment starts: behind the options where the
/// data offset is over five words, else behind the 20 fixed bytes.
pub open spec fn tcp_payload_start(b: Seq<u8>) -> int {
    let words = (b[12] / 16);
    if words > 5 { words * 4 } else { 20 }
}

/// The options that a TCP segment carries between its 20 fixed bytes and
/// its payload, as `pnet` reads them: kind, length bytes and data of each.
pub uninterp spec fn tcp_options_of(segment: Seq<u8>) -> Seq<(u8, Seq<u8>, Seq<u8>)>;

/// The header lists the options that the segment carries.
pub open spec fn has_tcp_options(h: TcpPacketInfo, b: Seq<u8>) -> bool {
    options_view(h.options@) == tcp_options_of(b)
}

/// The fixed fields of a TCP header and the length of the payload behind
/// its options.
pub open spec fn is_tcp_header(h: TcpPacketInfo, b: Seq<u8>) -> bool {
    &&& h.source == be16(b, 0)
    &&& h.destination == be16(b, 2)
    &&& h.sequence == be32(b, 4)
    &&& h.acknowledgement == be32(b, 8)
    &&& h.data_offset == b[12] / 16
    &&& h.reserved == b[12] % 16
    &&& h.flags == b[13]
    &&& h.window == be16(b, 14)
    &&& h.checksum == be16(b, 16)
    &&& h.urgent_ptr == be16(b, 18)
    &&& h.length == tail(b, tcp_payload_start(b)).len()
}

/// The 8 bytes of a UDP header.
pub open spec fn is_udp_header(h: UdpPacketInfo, b: Seq<u8>) -> bool {
    &&& h.source == be16(b, 0)
    &&& h.destination == be16(b, 2)
    &&& h.length == be16(b, 4)
    &&& h.checksum == be16(b, 6)
}

/// The 4 bytes that every ICMP message starts with, and the length of
/// what follows them.
pub open spec fn is_icmp_header(h: IcmpPacketInfo, b: Seq<u8>) -> bool {
    &&& h.icmp_type == b[0]
    &&& h.icmp_code == b[1]
    &&& h.checksum == be16(b, 2)
    &&& h.length == tail(b, 4).len()
}

/// The 4 bytes that every ICMPv6 message starts with, and the length of
/// what follows them.
pub open spec fn is_icmpv6_header(h: Icmpv6PacketInfo, b: Seq<u8>) -> bool {
    &&& h.icmpv6_type == b[0]
    &&& h.icmpv6_code == b[1]
    &&& h.checksum == be16(b, 2)
    &&& h.length == tail(b, 4).len()
}

} // verus!
