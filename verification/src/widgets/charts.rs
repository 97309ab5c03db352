//! The chart of captured packets by protocol: what it counts and shows.

use vstd::prelude::*;
use crate::packet_data::{CompletePacket, PacketsData};

verus! {

/// The protocols that the views name, in the order of their names.
#[derive(Clone, Copy, Debug, PartialEq, Eq)]
pub enum Protocol {
    Arp,
    Icmp,
    Icmpv6,
    Tcp,
    Udp,
}

impl Protocol {
    /// The name under which the protocol is shown.
    pub fn name(&self) -> (name: &'static str)
        ensures
            name@ == match *self {
                Protocol::Arp => "ARP"@,
                Protocol::Icmp => "ICMP"@,
                Protocol::Icmpv6 => "ICMPv6"@,
                Protocol::Tcp => "TCP"@,
                Protocol::Udp => "UDP"@,
            },
    {
        match self {
            Protocol::Arp => "ARP",
            Protocol::Icmp => "ICMP",
            Protocol::Icmpv6 => "ICMPv6",
            Protocol::Tcp => "TCP",
            Protocol::Udp => "UDP",
        }
    }
}

/// The protocol under which a packet is counted: that of its transport
/// layer where it has one, else ARP where that is its network layer.
pub open spec fn protocol_of(packet: CompletePacket) -> Option<Protocol> {
    match packet.layer_3 {
        Some(PacketsData::TcpPacket(_)) => Some(Protocol::Tcp),
        Some(PacketsData::UdpPacket(_)) => Some(Protocol::Udp),
        Some(PacketsData::IcmpPacket(_)) => Some(Protocol::Icmp),
        Some(PacketsData::Icmpv6Packet(_)) => Some(Protocol::Icmpv6),
        Some(_) => None,
        None => match packet.layer_2 {
            Some(PacketsData::ArpPacket(_)) => Some(Protocol::Arp),
            _ => None,
        },
    }
}

/// How many of the packets are counted under the protocol.
pub open spec fn count_of(packets: Seq<CompletePacket>, protocol: Protocol) -> nat
    decreases packets.len(),
{
    if packets.len() == 0 {
        0
    } else {
        let before = count_of(packets.drop_last(), protocol);
        if protocol_of(packets.last()) == Some(protocol) {
            before + 1
        } else {
            before
        }
    }
}

/// No protocol is counted more often than there are packets.
pub proof fn count_is_bounded(packets: Seq<CompletePacket>, protocol: Protocol)
    ensures
        count_of(packets, protocol) <= packets.len(),
    decreases packets.len(),
{
    if packets.len() > 0 {
        count_is_bounded(packets.drop_last(), protocol);
    }
}

/// The first `n` of the packets.
pub open spec fn first(packets: Seq<CompletePacket>, n: usize) -> Seq<CompletePacket> {
    packets.subrange(0, n as int)
}

/// One packet more is counted under its own protocol and under no other.
pub proof fn count_grows_with_one_packet(
    packets: Seq<CompletePacket>,
    n: usize,
    protocol: Protocol,
)
    requires
        n < packets.len() <= usize::MAX,
    ensures
        count_of(first(packets, (n + 1) as usize), protocol) == count_of(
            first(packets, n),
            protocol,
        ) + (if protocol_of(packets[n as int]) == Some(protocol) {
            1nat
        } else {
            0nat
        }),
        count_of(first(packets, n), protocol) <= n,
{
    let longer = first(packets, (n + 1) as usize);
    assert(longer.drop_last() =~= first(packets, n));
    assert(longer.last() == packets[n as int]);
    count_is_bounded(first(packets, n), protocol);
}

/// How many packets were captured of each protocol.
#[derive(Clone, Copy, Debug, PartialEq, Eq)]
pub struct ProtocolCounts {
    pub arp: u64,
    pub icmp: u64,
    pub icmpv6: u64,
    pub tcp: u64,
    pub udp: u64,
}

impl ProtocolCounts {
    /// The counts are those of `packets`.
    pub open spec fn counts(self, packets: Seq<CompletePacket>) -> bool {
        &&& self.arp == count_of(packets, Protocol::Arp)
        &&& self.icmp == count_of(packets, Protocol::Icmp)
        &&& self.icmpv6 == count_of(packets, Protocol::Icmpv6)
        &&& self.tcp == count_of(packets, Protocol::Tcp)
        &&& self.udp == count_of(packets, Protocol::Udp)
    }
}

/// The bar of one protocol: none where no packet was counted.
pub open spec fn bar(protocol: Protocol, count: u64) -> Seq<(Protocol, u64)> {
    if count > 0 {
        seq![(protocol, count)]
    } else {
        Seq::empty()
    }
}

/// The bars of the chart: one for each protocol that was counted, in the
/// order of the protocols' names.
pub open spec fn bars(counts: ProtocolCounts) -> Seq<(Protocol, u64)> {
    bar(Protocol::Arp, counts.arp) + bar(Protocol::Icmp, counts.icmp) + bar(
        Protocol::Icmpv6,
        counts.icmpv6,
    ) + bar(Protocol::Tcp, counts.tcp) + bar(Protocol::Udp, counts.udp)
}

/// The chart over a list of captured packets.
pub struct ChartWidget<'a> {
    pub packets: &'a [CompletePacket],
}

impl<'a> ChartWidget<'a> {
    /// A chart over these packets.
    pub fn new(packets: &'a [CompletePacket]) -> (widget: Self)
        ensures
            widget.packets@ == packets@,
    {
        Self { packets }
    }

    /// The protocol under which a packet is counted, if any.
    pub fn get_protocol_name(packet: &CompletePacket) -> (protocol: Option<Protocol>)
        ensures
            protocol == protocol_of(*packet),
    {
        if let Some(layer3) = &packet.layer_3 {
            match layer3 {
                PacketsData::TcpPacket(_) => Some(Protocol::Tcp),
                PacketsData::UdpPacket(_) => Some(Protocol::Udp),
                PacketsData::IcmpPacket(_) => Some(Protocol::Icmp),
                PacketsData::Icmpv6Packet(_) => Some(Protocol::Icmpv6),
                _ => None,
            }
        } else if let Some(layer2) = &packet.layer_2 {
            match layer2 {
                PacketsData::ArpPacket(_) => Some(Protocol::Arp),
                _ => None,
            }
        } else {
            None
        }
    }

    /// Counts the packets of the widget by protocol.
    pub fn count_protocols(&self) -> (counts: ProtocolCounts)
        ensures
            counts.counts(self.packets@),
    {
        let mut counts = ProtocolCounts { arp: 0, icmp: 0, icmpv6: 0, tcp: 0, udp: 0 };
        let mut i: usize = 0;
        while i < self.packets.len()
            invariant
                i <= self.packets.len(),
                counts.counts(first(self.packets@, i)),
            decreases self.packets.len() - i,
        {
            proof {
                count_grows_with_one_packet(self.packets@, i, Protocol::Arp);
                count_grows_with_one_packet(self.packets@, i, Protocol::Icmp);
                count_grows_with_one_packet(self.packets@, i, Protocol::Icmpv6);
                count_grows_with_one_packet(self.packets@, i, Protocol::Tcp);
                count_grows_with_one_packet(self.packets@, i, Protocol::Udp);
            }
            match Self::get_protocol_name(&self.packets[i]) {
                Some(Protocol::Arp) => {
                    counts.arp = counts.arp + 1;
                },
                Some(Protocol::Icmp) => {
                    counts.icmp = counts.icmp + 1;
                },
                Some(Protocol::Icmpv6) => {
                    counts.icmpv6 = counts.icmpv6 + 1;
                },
                Some(Protocol::Tcp) => {
                    counts.tcp = counts.tcp + 1;
                },
                Some(Protocol::Udp) => {
                    counts.udp = counts.udp + 1;
                },
                None => {},
            }
            i = i + 1;
        }
        assert(first(self.packets@, i) =~= self.packets@);
        counts
    }

    /// The bars of the chart for these counts.
    pub fn build_chart_data(&self, protocol_counts: ProtocolCounts) -> (data: Vec<(Protocol, u64)>)
        ensures
            data@ == bars(protocol_counts),
    {
        let mut data: Vec<(Protocol, u64)> = Vec::new();
        if protocol_counts.arp > 0 {
            data.push((Protocol::Arp, protocol_counts.arp));
        }
        if protocol_counts.icmp > 0 {
            data.push((Protocol::Icmp, protocol_counts.icmp));
        }
        if protocol_counts.icmpv6 > 0 {
            data.push((Protocol::Icmpv6, protocol_counts.icmpv6));
        }
        if protocol_counts.tcp > 0 {
            data.push((Protocol::Tcp, protocol_counts.tcp));
        }
        if protocol_counts.udp > 0 {
            data.push((Protocol::Udp, protocol_counts.udp));
        }
        assert(data@ =~= bars(protocol_counts));
        data
    }

    /// The height of the chart: the highest count among the bars, and 0
    /// for a chart without bars.
    pub fn max_count(chart_data: &Vec<(Protocol, u64)>) -> (max: u64)
        ensures
            forall|i: int| 0 <= i < chart_data@.len() ==> chart_data@[i].1 <= max,
            chart_data@.len() == 0 ==> max == 0,
            chart_data@.len() > 0 ==> exists|i: int|
                0 <= i < chart_data@.len() && chart_data@[i].1 == max,
    {
        let mut max: u64 = 0;
        let mut i: usize = 0;
        while i < chart_data.len()
            invariant
                i <= chart_data.len(),
                forall|j: int| 0 <= j < i ==> chart_data@[j].1 <= max,
                i == 0 ==> max == 0,
                i > 0 ==> exists|j: int| 0 <= j < i && chart_data@[j].1 == max,
            decreases chart_data.len() - i,
        {
            if i == 0 || chart_data[i].1 > max {
                max = chart_data[i].1;
            }
            i = i + 1;
        }
        max
    }
}

} // verus!
