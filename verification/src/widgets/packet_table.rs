//! The table of captured packets: its rows and its selection.

use vstd::prelude::*;
use crate::packet_data::{CompletePacket, PacketsData};
use crate::widgets::charts::Protocol;

verus! {

/// Which row of the packet table is selected, and where its scrollbar stands.
#[derive(Clone, Copy, Debug, PartialEq, Eq)]
pub struct PacketTableState {
    pub selected: Option<usize>,
    pub scroll_position: usize,
}

/// The row below `selected` in a table of `packets_len` rows; the first
/// row below the last one, in an empty table and where nothing is selected.
pub open spec fn row_after(selected: Option<usize>, packets_len: usize) -> usize {
    match selected {
        Some(i) => if packets_len == 0 || i >= packets_len - 1 {
            0
        } else {
            (i + 1) as usize
        },
        None => 0,
    }
}

/// The row above `selected` in a table of `packets_len` rows; the last row
/// above the first one, and the first row where nothing is selected.
pub open spec fn row_before(selected: Option<usize>, packets_len: usize) -> usize {
    match selected {
        Some(i) => if i == 0 {
            if packets_len > 0 {
                (packets_len - 1) as usize
            } else {
                0
            }
        } else {
            (i - 1) as usize
        },
        None => 0,
    }
}

impl PacketTableState {
    /// The first row selected, the scrollbar at the top.
    pub fn new() -> (state: Self)
        ensures
            state.selected == Some(0usize),
            state.scroll_position == 0,
    {
        PacketTableState { selected: Some(0), scroll_position: 0 }
    }

    /// Moves the selection one row down, and the scrollbar with it.
    pub fn next_row(&mut self, packets_len: usize)
        ensures
            final(self).selected == Some(row_after(old(self).selected, packets_len)),
            final(self).scroll_position == row_after(old(self).selected, packets_len),
    {
        let i: usize = match self.selected {
            Some(i) => {
                if packets_len == 0 || i >= packets_len - 1 {
                    0
                } else {
                    i + 1
                }
            },
            None => 0,
        };
        self.selected = Some(i);
        self.scroll_position = i;
    }

    /// Moves the selection one row up, and the scrollbar with it.
    pub fn previous_row(&mut self, packets_len: usize)
        ensures
            final(self).selected == Some(row_before(old(self).selected, packets_len)),
            final(self).scroll_position == row_before(old(self).selected, packets_len),
    {
        let i: usize = match self.selected {
            Some(i) => {
                if i == 0 {
                    if packets_len > 0 {
                        packets_len - 1
                    } else {
                        0
                    }
                } else {
                    i - 1
                }
            },
            None => 0,
        };
        self.selected = Some(i);
        self.scroll_position = i;
    }

    /// The row that is selected.
    pub fn selected(&self) -> (selected: Option<usize>)
        ensures
            selected == self.selected,
    {
        self.selected
    }
}

/// In a table that has rows, a selection inside the table stays inside it
/// when it moves either way, and moving down and then up comes back to
/// where it was.
pub proof fn selection_stays_in_table(selected: usize, packets_len: usize)
    requires
        selected < packets_len,
    ensures
        row_after(Some(selected), packets_len) < packets_len,
        row_before(Some(selected), packets_len) < packets_len,
        row_before(Some(row_after(Some(selected), packets_len)), packets_len) == selected,
        row_after(Some(row_before(Some(selected), packets_len)), packets_len) == selected,
{
}

/// An address as a row shows it.
#[derive(Clone, Copy, Debug, PartialEq, Eq)]
pub enum Address {
    /// No address: the network layer is neither ARP nor IP.
    Unknown,
    Mac([u8; 6]),
    Ipv4([u8; 4]),
    Ipv6([u8; 16]),
}

/// One row of the packet table: identifier, protocol, source,
/// destination and length. The ports are there for TCP and UDP.
#[derive(Clone, Copy, Debug, PartialEq, Eq)]
pub struct PacketRow {
    pub id: u64,
    pub protocol: Protocol,
    pub source: Address,
    pub source_port: Option<u16>,
    pub destination: Address,
    pub destination_port: Option<u16>,
    pub length: usize,
}

/// The source and destination address of a network-layer header.
pub open spec fn addresses_of(network: PacketsData) -> (Address, Address) {
    match network {
        PacketsData::ArpPacket(h) => (
            Address::Mac(h.sender_hw_addr),
            Address::Mac(h.target_hw_addr),
        ),
        PacketsData::Ipv4Packet(h) => (Address::Ipv4(h.source), Address::Ipv4(h.destination)),
        PacketsData::Ipv6Packet(h) => (Address::Ipv6(h.source), Address::Ipv6(h.destination)),
        _ => (Address::Unknown, Address::Unknown),
    }
}

/// The row of a packet. An ARP packet has a row with its hardware
/// addresses. Any other packet has one where it has a transport layer:
/// the addresses of its network layer, the ports of TCP and UDP, and as
/// length the payload length of TCP, ICMP and ICMPv6 or the length field
/// of UDP. A packet without a network layer has no row.
pub open spec fn row_of(packet: CompletePacket) -> Option<PacketRow> {
    match packet.layer_2 {
        None => None,
        Some(PacketsData::ArpPacket(arp)) => Some(
            PacketRow {
                id: packet.id,
                protocol: Protocol::Arp,
                source: Address::Mac(arp.sender_hw_addr),
                source_port: None,
                destination: Address::Mac(arp.target_hw_addr),
                destination_port: None,
                length: arp.length,
            },
        ),
        Some(network) => match packet.layer_3 {
            Some(PacketsData::TcpPacket(tcp)) => Some(
                PacketRow {
                    id: packet.id,
                    protocol: Protocol::Tcp,
                    source: addresses_of(network).0,
                    source_port: Some(tcp.source),
                    destination: addresses_of(network).1,
                    destination_port: Some(tcp.destination),
                    length: tcp.length,
                },
            ),
            Some(PacketsData::UdpPacket(udp)) => Some(
                PacketRow {
                    id: packet.id,
                    protocol: Protocol::Udp,
                    source: addresses_of(network).0,
                    source_port: Some(udp.source),
                    destination: addresses_of(network).1,
                    destination_port: Some(udp.destination),
                    length: widened(udp.length),
                },
            ),
            Some(PacketsData::IcmpPacket(icmp)) => Some(
                PacketRow {
                    id: packet.id,
                    protocol: Protocol::Icmp,
                    source: addresses_of(network).0,
                    source_port: None,
                    destination: addresses_of(network).1,
                    destination_port: None,
                    length: icmp.length,
                },
            ),
            Some(PacketsData::Icmpv6Packet(icmpv6)) => Some(
                PacketRow {
                    id: packet.id,
                    protocol: Protocol::Icmpv6,
                    source: addresses_of(network).0,
                    source_port: None,
                    destination: addresses_of(network).1,
                    destination_port: None,
                    length: icmpv6.length,
                },
            ),
            _ => None,
        },
    }
}

/// A 16-bit length as a `usize`.
pub open spec fn widened(length: u16) -> usize {
    length as usize
}

fn widen(length: u16) -> (wide: usize)
    ensures
        wide == widened(length),
{
    length as usize
}

/// The rows of a list of packets: the row of each packet that has one, in
/// the order of the packets.
pub open spec fn rows_of(packets: Seq<CompletePacket>) -> Seq<PacketRow>
    decreases packets.len(),
{
    if packets.len() == 0 {
        Seq::empty()
    } else {
        match row_of(packets.last()) {
            Some(row) => rows_of(packets.drop_last()).push(row),
            None => rows_of(packets.drop_last()),
        }
    }
}

/// The first `n` of the packets.
pub open spec fn shown(packets: Seq<CompletePacket>, n: usize) -> Seq<CompletePacket> {
    packets.subrange(0, n as int)
}

/// One packet more adds its row, if it has one, behind the rows so far.
pub proof fn rows_grow_with_one_packet(packets: Seq<CompletePacket>, n: usize)
    requires
        n < packets.len() <= usize::MAX,
    ensures
        rows_of(shown(packets, (n + 1) as usize)) == match row_of(packets[n as int]) {
            Some(row) => rows_of(shown(packets, n)).push(row),
            None => rows_of(shown(packets, n)),
        },
{
    let longer = shown(packets, (n + 1) as usize);
    assert(longer.drop_last() =~= shown(packets, n));
    assert(longer.last() == packets[n as int]);
}

/// The table over a list of captured packets.
pub struct PacketTable<'a> {
    pub packets: &'a [CompletePacket],
}

impl<'a> PacketTable<'a> {
    /// A table over these packets.
    pub fn new(packets: &'a [CompletePacket]) -> (table: Self)
        ensures
            table.packets@ == packets@,
    {
        Self { packets }
    }

    fn addresses(network: &PacketsData) -> (pair: (Address, Address))
        ensures
            pair == addresses_of(*network),
    {
        match network {
            PacketsData::ArpPacket(h) => (
                Address::Mac(h.sender_hw_addr),
                Address::Mac(h.target_hw_addr),
            ),
            PacketsData::Ipv4Packet(h) => (Address::Ipv4(h.source), Address::Ipv4(h.destination)),
            PacketsData::Ipv6Packet(h) => (Address::Ipv6(h.source), Address::Ipv6(h.destination)),
            _ => (Address::Unknown, Address::Unknown),
        }
    }

    /// The row of one packet, if it has one.
    pub fn generate_ref_array(&self, complete_packet: &CompletePacket) -> (row: Option<PacketRow>)
        ensures
            row == row_of(*complete_packet),
    {
        if let Some(layer2) = &complete_packet.layer_2 {
            let (source, destination) = Self::addresses(layer2);
            if let PacketsData::ArpPacket(arp_packet) = layer2 {
                return Some(
                    PacketRow {
                        id: complete_packet.id,
                        protocol: Protocol::Arp,
                        source,
                        source_port: None,
                        destination,
                        destination_port: None,
                        length: arp_packet.length,
                    },
                );
            }
            if let Some(layer3) = &complete_packet.layer_3 {
                let (protocol, source_port, destination_port, length) = match layer3 {
                    PacketsData::TcpPacket(tcp) => (
                        Protocol::Tcp,
                        Some(tcp.source),
                        Some(tcp.destination),
                        tcp.length,
                    ),
                    PacketsData::UdpPacket(udp) => (
                        Protocol::Udp,
                        Some(udp.source),
                        Some(udp.destination),
                        widen(udp.length),
                    ),
                    PacketsData::IcmpPacket(icmp) => (Protocol::Icmp, None, None, icmp.length),
                    PacketsData::Icmpv6Packet(icmpv6) => (
                        Protocol::Icmpv6,
                        None,
                        None,
                        icmpv6.length,
                    ),
                    _ => {
                        return None;
                    },
                };
                return Some(
                    PacketRow {
                        id: complete_packet.id,
                        protocol,
                        source,
                        source_port,
                        destination,
                        destination_port,
                        length,
                    },
                );
            }
        }
        None
    }

    /// The rows of the table, one for each packet that has one.
    pub fn rows(&self) -> (rows: Vec<PacketRow>)
        ensures
            rows@ == rows_of(self.packets@),
    {
        let mut rows: Vec<PacketRow> = Vec::new();
        let mut i: usize = 0;
        while i < self.packets.len()
            invariant
                i <= self.packets.len(),
                rows@ == rows_of(shown(self.packets@, i)),
            decreases self.packets.len() - i,
        {
            proof {
                rows_grow_with_one_packet(self.packets@, i);
            }
            if let Some(row) = self.generate_ref_array(&self.packets[i]) {
                rows.push(row);
            }
            i = i + 1;
        }
        assert(shown(self.packets@, i) =~= self.packets@);
        rows
    }
}

} // verus!
