//! The header decoders: one call into `pnet` for each header kind.
//!
//! Nothing in this file is proved. Each function hands the bytes to the
//! `pnet` packet type of its header and copies the fields that come back
//! into the record of this library; its contract says what `pnet` reads
//! from which bytes.

use vstd::prelude::*;
use pnet::packet::Packet;
use crate::packet_data::{
    options_view, ArpPacketInfo, EthernetPacketInfo, IcmpPacketInfo, Icmpv6PacketInfo,
    Ipv4PacketInfo, Ipv6PacketInfo, TcpOption, TcpPacketInfo, UdpPacketInfo,
};
use crate::wire::{
    ipv4_payload, ipv6_payload, is_arp_header, is_ethernet_header, is_icmp_header,
    is_icmpv6_header, is_ipv4_header, is_ipv6_header, is_tcp_header, is_udp_header,
    tcp_options_of, ARP_HEADER_LEN, ETHERNET_HEADER_LEN, ICMPV6_HEADER_LEN, ICMP_HEADER_LEN,
    IPV4_HEADER_LEN, IPV6_HEADER_LEN, TCP_HEADER_LEN, UDP_HEADER_LEN,
};

verus! {

/// `pnet::packet::ethernet::EthernetPacket::new` and its field getters:
/// a header is read from 14 bytes or more, as two addresses of six bytes
/// and a big-endian type; the payload is every byte behind them.
#[verifier::external_body]
pub(crate) fn decode_ethernet(bytes: &[u8]) -> (r: Option<EthernetPacketInfo>)
    ensures
        r is Some <==> bytes@.len() >= ETHERNET_HEADER_LEN,
        r matches Some(h) ==> is_ethernet_header(h, bytes@),
{
    match pnet::packet::ethernet::EthernetPacket::new(bytes) {
        None => None,
        Some(p) => Some(EthernetPacketInfo {
            destination: p.get_destination().octets(),
            source: p.get_source().octets(),
            ethertype: p.get_ethertype().0,
            payload: p.payload().to_vec(),
        }),
    }
}

/// `pnet::packet::arp::ArpPacket::new` and its field getters: a header is
/// read from 28 bytes or more, laid out for IPv4 over Ethernet; `pnet`
/// gives an ARP packet an empty payload, so the record's length is 0.
#[verifier::external_body]
pub(crate) fn decode_arp(bytes: &[u8]) -> (r: Option<ArpPacketInfo>)
    ensures
        r is Some <==> bytes@.len() >= ARP_HEADER_LEN,
        r matches Some(h) ==> is_arp_header(h, bytes@),
{
    match pnet::packet::arp::ArpPacket::new(bytes) {
        None => None,
        Some(p) => Some(ArpPacketInfo {
            hardware_type: p.get_hardware_type().0, protocol_type: p.get_protocol_type().0,
            hw_addr_len: p.get_hw_addr_len(), proto_addr_len: p.get_proto_addr_len(),
            operation: p.get_operation().0,
            sender_hw_addr: p.get_sender_hw_addr().octets(),
            sender_proto_addr: p.get_sender_proto_addr().octets(),
            target_hw_addr: p.get_target_hw_addr().octets(),
            target_proto_addr: p.get_target_proto_addr().octets(),
            length: p.payload().len(),
        }),
    }
}

/// `pnet::packet::ipv4::Ipv4Packet::new`, its field getters and `payload`:
/// a header is read from 20 bytes or more. The second component is a copy
/// of the payload, which starts behind the options and ends where the
/// total length says, or with the bytes.
#[verifier::external_body]
pub(crate) fn decode_ipv4(bytes: &[u8]) -> (r: Option<(Ipv4PacketInfo, Vec<u8>)>)
    ensures
        r is Some <==> bytes@.len() >= IPV4_HEADER_LEN,
        r matches Some(hp) ==> is_ipv4_header(hp.0, bytes@) && hp.1@ == ipv4_payload(bytes@),
{
    match pnet::packet::ipv4::Ipv4Packet::new(bytes) {
        None => None,
        Some(p) => Some((Ipv4PacketInfo {
            version: p.get_version(), header_length: p.get_header_length(),
            dscp: p.get_dscp(), ecn: p.get_ecn(),
            total_length: p.get_total_length(), identification: p.get_identification(),
            flags: p.get_flags(), fragment_offset: p.get_fragment_offset(),
            ttl: p.get_ttl(), next_level_protocol: p.get_next_level_protocol().0,
            checksum: p.get_checksum(),
            source: p.get_source().octets(), destination: p.get_destination().octets(),
            length: p.payload().len(),
        }, p.payload().to_vec())),
    }
}

/// `pnet::packet::ipv6::Ipv6Packet::new`, its field getters and `payload`:
/// a header is read from 40 bytes or more. The second component is a copy
/// of the payload, which ends where the payload length says, or with the
/// bytes.
#[verifier::external_body]
pub(crate) fn decode_ipv6(bytes: &[u8]) -> (r: Option<(Ipv6PacketInfo, Vec<u8>)>)
    ensures
        r is Some <==> bytes@.len() >= IPV6_HEADER_LEN,
        r matches Some(hp) ==> is_ipv6_header(hp.0, bytes@) && hp.1@ == ipv6_payload(bytes@),
{
    match pnet::packet::ipv6::Ipv6Packet::new(bytes) {
        None => None,
        Some(p) => Some((Ipv6PacketInfo {
            version: p.get_version(), traffic_class: p.get_traffic_class(),
            flow_label: p.get_flow_label(), payload_length: p.get_payload_length(),
            next_header: p.get_next_header().0, hop_limit: p.get_hop_limit(),
            source: p.get_source().octets(), destination: p.get_destination().octets(),
            length: p.payload().len(),
        }, p.payload().to_vec())),
    }
}

/// `pnet::packet::tcp::TcpPacket::new` and its field getters: a header is
/// read from 20 bytes or more. The options are those that `get_options`
/// returns, field by field.
#[verifier::external_body]
pub(crate) fn decode_tcp(bytes: &[u8]) -> (r: Option<TcpPacketInfo>)
    ensures
        r is Some <==> bytes@.len() >= TCP_HEADER_LEN,
        r matches Some(h) ==> is_tcp_header(h, bytes@)
            && options_view(h.options@) == tcp_options_of(bytes@),
{
    match pnet::packet::tcp::TcpPacket::new(bytes) {
        None => None,
        Some(p) => Some(TcpPacketInfo {
            source: p.get_source(), destination: p.get_destination(),
            sequence: p.get_sequence(), acknowledgement: p.get_acknowledgement(),
            data_offset: p.get_data_offset(), reserved: p.get_reserved(),
            flags: p.get_flags(), window: p.get_window(),
            checksum: p.get_checksum(), urgent_ptr: p.get_urgent_ptr(),
            options: p.get_options().into_iter()
                .map(|o| TcpOption { number: o.number.0, length: o.length, data: o.data })
                .collect(),
            length: p.payload().len(),
        }),
    }
}

/// `pnet::packet::udp::UdpPacket::new` and its field getters: a header is
/// read from 8 bytes or more, as four big-endian numbers.
#[verifier::external_body]
pub(crate) fn decode_udp(bytes: &[u8]) -> (r: Option<UdpPacketInfo>)
    ensures
        r is Some <==> bytes@.len() >= UDP_HEADER_LEN,
        r matches Some(h) ==> is_udp_header(h, bytes@),
{
    match pnet::packet::udp::UdpPacket::new(bytes) {
        None => None,
        Some(p) => Some(UdpPacketInfo {
            source: p.get_source(),
            destination: p.get_destination(),
            length: p.get_length(),
            checksum: p.get_checksum(),
        }),
    }
}

/// `pnet::packet::icmp::IcmpPacket::new` and its field getters: a header
/// is read from 4 bytes or more; the payload is every byte behind them.
#[verifier::external_body]
pub(crate) fn decode_icmp(bytes: &[u8]) -> (r: Option<IcmpPacketInfo>)
    ensures
        r is Some <==> bytes@.len() >= ICMP_HEADER_LEN,
        r matches Some(h) ==> is_icmp_header(h, bytes@),
{
    match pnet::packet::icmp::IcmpPacket::new(bytes) {
        None => None,
        Some(p) => Some(IcmpPacketInfo {
            icmp_type: p.get_icmp_type().0,
            icmp_code: p.get_icmp_code().0,
            checksum: p.get_checksum(),
            length: p.payload().len(),
        }),
    }
}

/// `pnet::packet::icmpv6::Icmpv6Packet::new` and its field getters: a
/// header is read from 4 bytes or more; the payload is every byte behind
/// them.
#[verifier::external_body]
pub(crate) fn decode_icmpv6(bytes: &[u8]) -> (r: Option<Icmpv6PacketInfo>)
    ensures
        r is Some <==> bytes@.len() >= ICMPV6_HEADER_LEN,
        r matches Some(h) ==> is_icmpv6_header(h, bytes@),
{
    match pnet::packet::icmpv6::Icmpv6Packet::new(bytes) {
        None => None,
        Some(p) => Some(Icmpv6PacketInfo {
            icmpv6_type: p.get_icmpv6_type().0,
            icmpv6_code: p.get_icmpv6_code().0,
            checksum: p.get_checksum(),
            length: p.payload().len(),
        }),
    }
}

} // verus!
