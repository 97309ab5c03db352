//! The layered packet record and the header records it is made of.
//!
//! Every header record holds plain values: addresses are byte arrays in
//! network order, protocol numbers are the integers found on the wire.

use vstd::prelude::*;

verus! {

/// One TCP option: its kind, the length byte where the kind has one, and its data.
#[derive(Clone, Debug, PartialEq, Eq)]
pub struct TcpOption {
    pub number: u8,
    pub length: Vec<u8>,
    pub data: Vec<u8>,
}

/// A TCP header. `length` is the length of the payload behind it.
#[derive(Clone, Debug, PartialEq, Eq)]
pub struct TcpPacketInfo {
    pub source: u16,
    pub destination: u16,
    pub sequence: u32,
    pub acknowledgement: u32,
    pub data_offset: u8,
    pub reserved: u8,
    pub flags: u8,
    pub window: u16,
    pub checksum: u16,
    pub urgent_ptr: u16,
    pub options: Vec<TcpOption>,
    pub length: usize,
}

/// A UDP header. `length` is its length field.
#[derive(Clone, Copy, Debug, PartialEq, Eq)]
pub struct UdpPacketInfo {
    pub source: u16,
    pub destination: u16,
    pub length: u16,
    pub checksum: u16,
}

/// The head of an ICMPv6 message. `length` is the length of what follows it.
#[derive(Clone, Copy, Debug, PartialEq, Eq)]
pub struct Icmpv6PacketInfo {
    pub icmpv6_type: u8,
    pub icmpv6_code: u8,
    pub checksum: u16,
    pub length: usize,
}

/// The head of an ICMP message. `length` is the length of what follows it.
#[derive(Clone, Copy, Debug, PartialEq, Eq)]
pub struct IcmpPacketInfo {
    pub icmp_type: u8,
    pub icmp_code: u8,
    pub checksum: u16,
    pub length: usize,
}

/// An Ethernet header with a copy of the payload behind it.
#[derive(Clone, Debug, PartialEq, Eq)]
pub struct EthernetPacketInfo {
    pub destination: [u8; 6],
    pub source: [u8; 6],
    pub ethertype: u16,
    pub payload: Vec<u8>,
}

/// An ARP header for IPv4 over Ethernet. `length` is 0: ARP carries no payload.
#[derive(Clone, Copy, Debug, PartialEq, Eq)]
pub struct ArpPacketInfo {
    pub hardware_type: u16,
    pub protocol_type: u16,
    pub hw_addr_len: u8,
    pub proto_addr_len: u8,
    pub operation: u16,
    pub sender_hw_addr: [u8; 6],
    pub sender_proto_addr: [u8; 4],
    pub target_hw_addr: [u8; 6],
    pub target_proto_addr: [u8; 4],
    pub length: usize,
}

/// An IPv6 header. `length` is the length of the payload behind it.
#[derive(Clone, Copy, Debug, PartialEq, Eq)]
pub struct Ipv6PacketInfo {
    pub version: u8,
    pub traffic_class: u8,
    pub flow_label: u32,
    pub payload_length: u16,
    pub next_header: u8,
    pub hop_limit: u8,
    pub source: [u8; 16],
    pub destination: [u8; 16],
    pub length: usize,
}

/// An IPv4 header. `length` is the length of the payload behind its options.
#[derive(Clone, Copy, Debug, PartialEq, Eq)]
pub struct Ipv4PacketInfo {
    pub version: u8,
    pub header_length: u8,
    pub dscp: u8,
    pub ecn: u8,
    pub total_length: u16,
    pub identification: u16,
    pub flags: u8,
    pub fragment_offset: u16,
    pub ttl: u8,
    pub next_level_protocol: u8,
    pub checksum: u16,
    pub source: [u8; 4],
    pub destination: [u8; 4],
    pub length: usize,
}

/// The header of one layer.
#[derive(Clone, Debug, PartialEq, Eq)]
pub enum PacketsData {
    EthernetPacket(EthernetPacketInfo),
    ArpPacket(ArpPacketInfo),
    Ipv4Packet(Ipv4PacketInfo),
    Ipv6Packet(Ipv6PacketInfo),
    TcpPacket(TcpPacketInfo),
    UdpPacket(UdpPacketInfo),
    IcmpPacket(IcmpPacketInfo),
    Icmpv6Packet(Icmpv6PacketInfo),
}

/// What a list of TCP options holds: kind, length bytes and data of each.
pub open spec fn options_view(options: Seq<TcpOption>) -> Seq<(u8, Seq<u8>, Seq<u8>)> {
    Seq::new(options.len(), |i: int| (options[i].number, options[i].length@, options[i].data@))
}

/// A copy of a byte vector.
pub fn copy_bytes(bytes: &Vec<u8>) -> (copy: Vec<u8>)
    ensures
        copy@ == bytes@,
{
    let mut copy: Vec<u8> = Vec::new();
    let mut i: usize = 0;
    while i < bytes.len()
        invariant
            i <= bytes.len(),
            copy@ == bytes@.subrange(0, i as int),
        decreases bytes.len() - i,
    {
        copy.push(bytes[i]);
        i = i + 1;
        assert(copy@ =~= bytes@.subrange(0, i as int));
    }
    assert(bytes@.subrange(0, i as int) =~= bytes@);
    copy
}

impl TcpOption {
    /// A copy with the same kind, length bytes and data.
    pub fn duplicate(&self) -> (copy: Self)
        ensures
            copy.number == self.number,
            copy.length@ == self.length@,
            copy.data@ == self.data@,
    {
        TcpOption {
            number: self.number,
            length: copy_bytes(&self.length),
            data: copy_bytes(&self.data),
        }
    }
}

impl TcpPacketInfo {
    /// Both headers hold the same fields and the same options.
    pub open spec fn same(self, other: Self) -> bool {
        &&& self.source == other.source
        &&& self.destination == other.destination
        &&& self.sequence == other.sequence
        &&& self.acknowledgement == other.acknowledgement
        &&& self.data_offset == other.data_offset
        &&& self.reserved == other.reserved
        &&& self.flags == other.flags
        &&& self.window == other.window
        &&& self.checksum == other.checksum
        &&& self.urgent_ptr == other.urgent_ptr
        &&& options_view(self.options@) == options_view(other.options@)
        &&& self.length == other.length
    }

    /// A copy with the same fields and options.
    pub fn duplicate(&self) -> (copy: Self)
        ensures
            self.same(copy),
    {
        let mut options: Vec<TcpOption> = Vec::new();
        let mut i: usize = 0;
        while i < self.options.len()
            invariant
                i <= self.options.len(),
                options@.len() == i,
                options_view(options@) == options_view(self.options@.subrange(0, i as int)),
            decreases self.options.len() - i,
        {
            let ghost before = options@;
            let ghost before_source = self.options@.subrange(0, i as int);
            options.push(self.options[i].duplicate());
            i = i + 1;
            proof {
                let source = self.options@.subrange(0, i as int);
                assert forall|j: int| 0 <= j < i implies options_view(options@)[j] == options_view(
                    source,
                )[j] by {
                    if j < i - 1 {
                        assert(options_view(before)[j] == options_view(before_source)[j]);
                        assert(options@[j] == before[j]);
                        assert(source[j] == before_source[j]);
                    }
                }
                assert(options_view(options@) =~= options_view(source));
            }
        }
        assert(self.options@.subrange(0, i as int) =~= self.options@);
        TcpPacketInfo {
            source: self.source,
            destination: self.destination,
            sequence: self.sequence,
            acknowledgement: self.acknowledgement,
            data_offset: self.data_offset,
            reserved: self.reserved,
            flags: self.flags,
            window: self.window,
            checksum: self.checksum,
            urgent_ptr: self.urgent_ptr,
            options,
            length: self.length,
        }
    }
}

impl EthernetPacketInfo {
    /// Both headers hold the same fields and the same payload.
    pub open spec fn same(self, other: Self) -> bool {
        &&& self.destination == other.destination
        &&& self.source == other.source
        &&& self.ethertype == other.ethertype
        &&& self.payload@ == other.payload@
    }

    /// A copy with the same fields and payload.
    pub fn duplicate(&self) -> (copy: Self)
        ensures
            self.same(copy),
    {
        EthernetPacketInfo {
            destination: self.destination,
            source: self.source,
            ethertype: self.ethertype,
            payload: copy_bytes(&self.payload),
        }
    }
}

impl PacketsData {
    /// Both are headers of one kind with the same content.
    pub open spec fn same(self, other: Self) -> bool {
        match self {
            PacketsData::EthernetPacket(h) => other matches PacketsData::EthernetPacket(o)
                && h.same(o),
            PacketsData::TcpPacket(h) => other matches PacketsData::TcpPacket(o) && h.same(o),
            _ => self == other,
        }
    }

    /// A copy of the same kind with the same content.
    pub fn duplicate(&self) -> (copy: Self)
        ensures
            self.same(copy),
    {
        match self {
            PacketsData::EthernetPacket(h) => PacketsData::EthernetPacket(h.duplicate()),
            PacketsData::ArpPacket(h) => PacketsData::ArpPacket(*h),
            PacketsData::Ipv4Packet(h) => PacketsData::Ipv4Packet(*h),
            PacketsData::Ipv6Packet(h) => PacketsData::Ipv6Packet(*h),
            PacketsData::TcpPacket(h) => PacketsData::TcpPacket(h.duplicate()),
            PacketsData::UdpPacket(h) => PacketsData::UdpPacket(*h),
            PacketsData::IcmpPacket(h) => PacketsData::IcmpPacket(*h),
            PacketsData::Icmpv6Packet(h) => PacketsData::Icmpv6Packet(*h),
        }
    }

    /// A link-layer header.
    pub open spec fn is_link(self) -> bool {
        self is EthernetPacket
    }

    /// A network-layer header.
    pub open spec fn is_network(self) -> bool {
        self is ArpPacket || self is Ipv4Packet || self is Ipv6Packet
    }

    /// A network-layer header that carries a transport payload.
    pub open spec fn is_internet(self) -> bool {
        self is Ipv4Packet || self is Ipv6Packet
    }

    /// A transport-layer header.
    pub open spec fn is_transport(self) -> bool {
        self is TcpPacket || self is UdpPacket || self is IcmpPacket || self is Icmpv6Packet
    }
}

/// One captured frame, decoded as far as its bytes allowed.
#[derive(Clone, Debug, PartialEq, Eq)]
pub struct CompletePacket {
    pub id: u64,
    pub layer_1: Option<PacketsData>,
    pub layer_2: Option<PacketsData>,
    pub layer_3: Option<PacketsData>,
}

impl CompletePacket {
    /// The layers hold headers of their own kind, and none is populated
    /// above an empty one: a network header only over a link header, a
    /// transport header only over IPv4 or IPv6 (never over ARP).
    pub open spec fn well_layered(self) -> bool {
        &&& self.layer_1 matches Some(l1) ==> l1.is_link()
        &&& self.layer_2 matches Some(l2) ==> l2.is_network() && self.layer_1 is Some
        &&& self.layer_3 matches Some(l3) ==> l3.is_transport() && self.layer_2 is Some
                && self.layer_2->Some_0.is_internet()
    }

    /// Both layers are empty, or both hold the same header.
    pub open spec fn same_layer(layer: Option<PacketsData>, other: Option<PacketsData>) -> bool {
        match layer {
            Some(d) => other matches Some(o) && d.same(o),
            None => other is None,
        }
    }

    /// Both records have the same identifier and the same layers.
    pub open spec fn same(self, other: Self) -> bool {
        &&& self.id == other.id
        &&& Self::same_layer(self.layer_1, other.layer_1)
        &&& Self::same_layer(self.layer_2, other.layer_2)
        &&& Self::same_layer(self.layer_3, other.layer_3)
    }

    fn duplicate_layer(layer: &Option<PacketsData>) -> (copy: Option<PacketsData>)
        ensures
            Self::same_layer(*layer, copy),
    {
        match layer {
            Some(d) => Some(d.duplicate()),
            None => None,
        }
    }

    /// A copy with the same identifier and layers.
    pub fn duplicate(&self) -> (copy: Self)
        ensures
            self.same(copy),
    {
        CompletePacket {
            id: self.id,
            layer_1: Self::duplicate_layer(&self.layer_1),
            layer_2: Self::duplicate_layer(&self.layer_2),
            layer_3: Self::duplicate_layer(&self.layer_3),
        }
    }

    /// No layer is populated.
    pub open spec fn is_blank(self) -> bool {
        self.layer_1 is None && self.layer_2 is None && self.layer_3 is None
    }

    /// A record with this identifier and no layer.
    pub fn new(id: u64) -> (packet: Self)
        ensures
            packet.id == id,
            packet.is_blank(),
    {
        CompletePacket { id, layer_1: None, layer_2: None, layer_3: None }
    }

    /// Sets the link layer and leaves the rest.
    pub fn set_layer1_packet(&mut self, packet: Option<PacketsData>)
        ensures
            final(self).layer_1 == packet,
            final(self).id == old(self).id,
            final(self).layer_2 == old(self).layer_2,
            final(self).layer_3 == old(self).layer_3,
    {
        self.layer_1 = packet;
    }

    /// Sets the network layer and leaves the rest.
    pub fn set_layer2_packet(&mut self, packet: Option<PacketsData>)
        ensures
            final(self).layer_2 == packet,
            final(self).id == old(self).id,
            final(self).layer_1 == old(self).layer_1,
            final(self).layer_3 == old(self).layer_3,
    {
        self.layer_2 = packet;
    }

    /// Sets the transport layer and leaves the rest.
    pub fn set_layer3_packet(&mut self, packet: Option<PacketsData>)
        ensures
            final(self).layer_3 == packet,
            final(self).id == old(self).id,
            final(self).layer_1 == old(self).layer_1,
            final(self).layer_2 == old(self).layer_2,
    {
        self.layer_3 = packet;
    }
}

} // verus!
