//! The popup with the details of one packet: how its area is shared out.

use vstd::prelude::*;
use crate::packet_data::CompletePacket;

verus! {

/// How many layers of a packet are populated.
pub open spec fn populated_layers(packet: CompletePacket) -> int {
    (if packet.layer_1 is Some { 1int } else { 0int })
    + (if packet.layer_2 is Some { 1int } else { 0int })
    + (if packet.layer_3 is Some { 1int } else { 0int })
}

/// The popup over the packet whose details are shown, if any.
pub struct PopupWidget<'a> {
    pub packet: &'a Option<CompletePacket>,
}

impl<'a> PopupWidget<'a> {
    /// A popup over this packet.
    pub fn new(packet: &'a Option<CompletePacket>) -> (widget: Self)
        ensures
            widget.packet == packet,
    {
        Self { packet }
    }

    /// How many layers the popup shows for a packet.
    pub fn layers_count(packet: &CompletePacket) -> (count: u16)
        ensures
            count == populated_layers(*packet),
    {
        let mut count: u16 = 0;
        if packet.layer_1.is_some() {
            count = count + 1;
        }
        if packet.layer_2.is_some() {
            count = count + 1;
        }
        if packet.layer_3.is_some() {
            count = count + 1;
        }
        count
    }

    /// The share of the popup's height that each of `layers_count` layers
    /// gets, in percent.
    pub fn layer_percentage(layers_count: u16) -> (percentage: u16)
        requires
            layers_count > 0,
        ensures
            percentage == 100int / (layers_count as int),
    {
        100 / layers_count
    }

    /// The padding above a layer's title that puts the title in the
    /// middle of an area of this height.
    pub fn title_padding(height: u16) -> (padding: u16)
        ensures
            height % 2 == 0 && height >= 2 ==> padding == height / 2 - 1,
            height % 2 == 1 || height == 0 ==> padding == height / 2,
    {
        if height % 2 == 0 {
            if height / 2 >= 1 {
                height / 2 - 1
            } else {
                0
            }
        } else {
            height / 2
        }
    }
}

} // verus!
