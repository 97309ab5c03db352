//! The consumer: the application state, and what each event does to it.
//!
//! The consumer is the only reader of the event channel. It applies one
//! event at a time and answers with what is to be done outside: with the
//! capture thread, and whether to draw.

use vstd::prelude::*;
use crate::event::{action_of, Event, KeyAction, KeyEvent};
use crate::packet_data::CompletePacket;
use crate::sniffer::Sniffer;

verus! {

/// What is to be done with the capture thread, in this order: set the
/// cancellation flag of the session that runs, wait for its thread to
/// end, spawn a thread for a new session on an interface.
#[derive(Clone, Copy, Debug, PartialEq, Eq)]
pub struct CaptureOrder {
    pub cancel: bool,
    pub join: bool,
    pub launch: Option<usize>,
}

impl CaptureOrder {
    /// Nothing is to be done.
    pub open spec fn nothing() -> Self {
        CaptureOrder { cancel: false, join: false, launch: None }
    }

    /// The order that asks for nothing.
    pub fn none() -> (order: Self)
        ensures
            order == Self::nothing(),
    {
        CaptureOrder { cancel: false, join: false, launch: None }
    }
}

/// What the consumer asks for after one event.
#[derive(Clone, Copy, Debug, PartialEq, Eq)]
pub struct Reaction {
    pub order: CaptureOrder,
    /// The views are to be drawn.
    pub draw: bool,
}

/// The state of the application, as its one consumer thread holds it.
pub struct App {
    pub exit: bool,
    /// The row selected in the table of interfaces.
    pub selected_interface: Option<usize>,
    /// The captured packets, the most recent one first.
    pub packets: Vec<CompletePacket>,
    /// The interface in use, by its place in the list of valid interfaces.
    pub interface: Option<usize>,
    /// How many valid interfaces there are.
    pub interface_count: usize,
    pub show_popup: bool,
    pub selected_popup_packet: Option<CompletePacket>,
    pub sniffer: Sniffer,
}

impl App {
    /// The interface in use lies in the list of interfaces, the sniffer is
    /// bound to it, and the selection can move on by one row.
    pub open spec fn wf(self) -> bool {
        &&& self.selected_interface matches Some(i) ==> i < usize::MAX
        &&& self.interface matches Some(i) ==> i < self.interface_count
        &&& self.sniffer.network_interface == self.interface
    }

    /// Tells whether the application is well formed.
    pub fn is_well_formed(&self) -> (well_formed: bool)
        ensures
            well_formed == self.wf(),
    {
        let selection_fits = match self.selected_interface {
            Some(i) => i < usize::MAX,
            None => true,
        };
        let interface_fits = match self.interface {
            Some(i) => i < self.interface_count,
            None => true,
        };
        let bound = match (self.sniffer.network_interface, self.interface) {
            (Some(a), Some(b)) => a == b,
            (None, None) => true,
            _ => false,
        };
        selection_fits && interface_fits && bound
    }

    /// The interface behind the selected one, around the end of the list.
    pub open spec fn next_interface(self) -> usize
        recommends
            self.interface_count > 0,
    {
        let current = match self.selected_interface {
            Some(i) => i,
            None => 0,
        };
        ((current + 1) % (self.interface_count as int)) as usize
    }

    /// The application after a switch to the next interface: the session
    /// is stopped, and started again on the next interface where there is
    /// one; with no interface at all, none is in use and none selected.
    pub open spec fn with_next_interface(self) -> Self {
        if self.interface_count == 0 {
            App {
                interface: None,
                selected_interface: None,
                sniffer: self.sniffer.stopped(),
                ..self
            }
        } else {
            App {
                interface: Some(self.next_interface()),
                selected_interface: Some(self.next_interface()),
                sniffer: (Sniffer {
                    network_interface: Some(self.next_interface()),
                    ..self.sniffer.stopped()
                }).started(),
                ..self
            }
        }
    }

    /// What a switch to the next interface asks of the capture thread.
    pub open spec fn next_interface_order(self) -> CaptureOrder {
        CaptureOrder {
            cancel: true,
            join: self.sniffer.capture_thread_held,
            launch: if self.interface_count > 0 && self.sniffer.event_handler_registered {
                Some(self.next_interface())
            } else {
                None
            },
        }
    }

    /// The application after play or pause: a running session is stopped,
    /// a stopped one is started.
    pub open spec fn with_sniffer_toggled(self) -> Self {
        if !self.sniffer.sniffer_paused {
            App { sniffer: self.sniffer.stopped(), ..self }
        } else {
            App { sniffer: self.sniffer.started(), ..self }
        }
    }

    /// What play or pause asks of the capture thread.
    pub open spec fn toggle_order(self) -> CaptureOrder {
        if !self.sniffer.sniffer_paused {
            CaptureOrder { cancel: true, join: self.sniffer.capture_thread_held, launch: None }
        } else {
            CaptureOrder { cancel: false, join: false, launch: self.sniffer.launch_target() }
        }
    }

    /// `after` is the application after the details were opened or closed:
    /// the popup is shown if it was not, and it holds a copy of the
    /// selected packet, or none where the selection lies behind the last
    /// packet. With no selection the popup keeps what it held.
    pub open spec fn popup_toggled(self, after: Self) -> bool {
        &&& after.show_popup == !self.show_popup
        &&& match self.sniffer.packet_table_state.selected {
            Some(i) => if i < self.packets.len() {
                after.selected_popup_packet matches Some(p) && self.packets[i as int].same(p)
            } else {
                after.selected_popup_packet is None
            },
            None => after.selected_popup_packet == self.selected_popup_packet,
        }
        &&& after.exit == self.exit
        &&& after.selected_interface == self.selected_interface
        &&& after.packets == self.packets
        &&& after.interface == self.interface
        &&& after.interface_count == self.interface_count
        &&& after.sniffer == self.sniffer
    }

    /// `after` is the application after `packet` was captured: a copy of
    /// it stands first in the application's packets, the packet itself
    /// first in the sniffer's, and the earlier packets follow in their order.
    pub open spec fn packet_recorded(self, packet: CompletePacket, after: Self) -> bool {
        &&& after.packets@.len() == self.packets@.len() + 1
        &&& packet.same(after.packets@[0])
        &&& after.packets@.subrange(1, after.packets@.len() as int) == self.packets@
        &&& after.sniffer.packets@ == self.sniffer.packets@.insert(0, packet)
        &&& after.sniffer.network_interface == self.sniffer.network_interface
        &&& after.sniffer.event_handler_registered == self.sniffer.event_handler_registered
        &&& after.sniffer.sniffer_paused == self.sniffer.sniffer_paused
        &&& after.sniffer.capture_thread_held == self.sniffer.capture_thread_held
        &&& after.sniffer.packet_table_state == self.sniffer.packet_table_state
        &&& after.exit == self.exit
        &&& after.selected_interface == self.selected_interface
        &&& after.interface == self.interface
        &&& after.interface_count == self.interface_count
        &&& after.show_popup == self.show_popup
        &&& after.selected_popup_packet == self.selected_popup_packet
    }

    /// `after` and `order` are what the key event leads to.
    pub open spec fn key_handled(
        self,
        key_event: KeyEvent,
        after: Self,
        order: CaptureOrder,
    ) -> bool {
        match action_of(key_event) {
            KeyAction::Quit => after == (App { exit: true, ..self }) && order
                == CaptureOrder::nothing(),
            KeyAction::NextRow => after == (App { sniffer: self.sniffer.with_next_row(), ..self })
                && order == CaptureOrder::nothing(),
            KeyAction::PreviousRow => after == (App {
                sniffer: self.sniffer.with_previous_row(),
                ..self
            }) && order == CaptureOrder::nothing(),
            KeyAction::NextInterface => after == self.with_next_interface() && order
                == self.next_interface_order(),
            KeyAction::ToggleSniffer => after == self.with_sniffer_toggled() && order
                == self.toggle_order(),
            KeyAction::TogglePopup => self.popup_toggled(after) && order
                == CaptureOrder::nothing(),
            KeyAction::Ignore => after == self && order == CaptureOrder::nothing(),
        }
    }

    /// An application that has seen nothing yet: no interface, no packet,
    /// the sniffer stopped, the first row selected.
    pub fn new() -> (app: Self)
        ensures
            app.wf(),
            !app.exit,
            !app.show_popup,
            app.selected_interface == Some(0usize),
            app.interface is None,
            app.interface_count == 0,
            app.packets@.len() == 0,
            app.selected_popup_packet is None,
            app.sniffer.is_stopped(),
            app.sniffer.packets@.len() == 0,
            !app.sniffer.event_handler_registered,
    {
        App {
            exit: false,
            selected_interface: Some(0),
            packets: Vec::new(),
            interface: None,
            interface_count: 0,
            show_popup: false,
            selected_popup_packet: None,
            sniffer: Sniffer::new(),
        }
    }

    /// Takes the result of looking for interfaces: how many were found,
    /// and how many of them are valid. With none found the application
    /// exits. Otherwise the first valid interface is in use, an event
    /// handler is registered, and a session is started on that interface;
    /// with no valid interface nothing is captured.
    pub fn setup_interfaces(&mut self, discovered: usize, valid: usize) -> (order: CaptureOrder)
        requires
            old(self).wf(),
            valid <= discovered,
        ensures
            final(self).wf(),
            discovered == 0 ==> *final(self) == (App { exit: true, ..*old(self) }) && order
                == CaptureOrder::nothing(),
            discovered > 0 ==> {
                let first = if valid > 0 {
                    Some(0usize)
                } else {
                    None
                };
                &&& *final(self) == (App {
                    interface_count: valid,
                    interface: first,
                    sniffer: (Sniffer {
                        network_interface: first,
                        event_handler_registered: true,
                        ..old(self).sniffer
                    }).started(),
                    ..*old(self)
                })
                &&& order == (CaptureOrder { cancel: false, join: false, launch: first })
            },
    {
        if discovered == 0 {
            self.exit = true;
            return CaptureOrder::none();
        }
        self.interface_count = valid;
        self.interface = if valid > 0 {
            Some(0)
        } else {
            None
        };
        self.sniffer.network_interface = self.interface;
        self.sniffer.register_event_handler();
        let launch = self.sniffer.start();
        CaptureOrder { cancel: false, join: false, launch }
    }

    /// Starts the capture where it is stopped, and stops it where it runs.
    pub fn toggle_sniffer(&mut self) -> (order: CaptureOrder)
        ensures
            *final(self) == old(self).with_sniffer_toggled(),
            order == old(self).toggle_order(),
            old(self).wf() ==> final(self).wf(),
    {
        if !self.sniffer.sniffer_paused {
            let join = self.sniffer.stop();
            CaptureOrder { cancel: true, join, launch: None }
        } else {
            let launch = self.sniffer.start();
            CaptureOrder { cancel: false, join: false, launch }
        }
    }

    /// Opens or closes the details of the selected packet.
    pub fn toggle_popup(&mut self)
        ensures
            old(self).popup_toggled(*final(self)),
            old(self).wf() ==> final(self).wf(),
    {
        self.show_popup = !self.show_popup;
        if let Some(selected_idx) = self.sniffer.selected_packet_index() {
            if selected_idx < self.packets.len() {
                self.selected_popup_packet = Some(self.packets[selected_idx].duplicate());
            } else {
                self.selected_popup_packet = None;
            }
        }
    }

    /// Puts a captured packet in front of the packets held so far.
    pub fn handle_packet_captured(&mut self, packet: CompletePacket)
        ensures
            old(self).packet_recorded(packet, *final(self)),
            old(self).wf() ==> final(self).wf(),
    {
        let copy = packet.duplicate();
        self.packets.insert(0, copy);
        self.sniffer.packets.insert(0, packet);
        assert(self.packets@.subrange(1, self.packets@.len() as int) =~= old(self).packets@);
    }

    /// Stops the session and starts one on the next interface of the list,
    /// around its end.
    pub fn next_active_interface(&mut self) -> (order: CaptureOrder)
        requires
            old(self).wf(),
        ensures
            *final(self) == old(self).with_next_interface(),
            order == old(self).next_interface_order(),
            final(self).wf(),
    {
        let join = self.sniffer.stop();
        if self.interface_count == 0 {
            self.interface = None;
            self.selected_interface = None;
            return CaptureOrder { cancel: true, join, launch: None };
        }
        let current_idx: usize = match self.selected_interface {
            Some(i) => i,
            None => 0,
        };
        let new_idx: usize = (current_idx + 1) % self.interface_count;
        self.selected_interface = Some(new_idx);
        self.interface = Some(new_idx);
        self.sniffer.network_interface = Some(new_idx);
        let launch = self.sniffer.start();
        CaptureOrder { cancel: true, join, launch }
    }

    /// Applies one key event.
    pub fn handle_key_event(&mut self, key_event: KeyEvent) -> (order: CaptureOrder)
        requires
            old(self).wf(),
        ensures
            old(self).key_handled(key_event, *final(self), order),
            final(self).wf(),
    {
        match key_event.action() {
            KeyAction::Quit => {
                self.exit = true;
                CaptureOrder::none()
            },
            KeyAction::NextRow => {
                self.sniffer.next_row();
                CaptureOrder::none()
            },
            KeyAction::PreviousRow => {
                self.sniffer.previous_row();
                CaptureOrder::none()
            },
            KeyAction::NextInterface => self.next_active_interface(),
            KeyAction::ToggleSniffer => self.toggle_sniffer(),
            KeyAction::TogglePopup => {
                self.toggle_popup();
                CaptureOrder::none()
            },
            KeyAction::Ignore => CaptureOrder::none(),
        }
    }

    /// Applies one event from the channel. A captured packet is recorded,
    /// a key event is handled, and only a render tick asks to draw: every
    /// packet that arrived before the tick is in the buffer when it is drawn.
    pub fn handle_event(&mut self, event: Event) -> (reaction: Reaction)
        requires
            old(self).wf(),
        ensures
            final(self).wf(),
            match event {
                Event::PacketCaptured(packet) => old(self).packet_recorded(packet, *final(self))
                    && reaction == (Reaction { order: CaptureOrder::nothing(), draw: false }),
                Event::Input(key_event) => old(self).key_handled(
                    key_event,
                    *final(self),
                    reaction.order,
                ) && !reaction.draw,
                Event::Render => *final(self) == *old(self) && reaction == (Reaction {
                    order: CaptureOrder::nothing(),
                    draw: true,
                }),
            },
    {
        match event {
            Event::PacketCaptured(packet) => {
                self.handle_packet_captured(packet);
                Reaction { order: CaptureOrder::none(), draw: false }
            },
            Event::Input(key_event) => {
                let order = self.handle_key_event(key_event);
                Reaction { order, draw: false }
            },
            Event::Render => Reaction { order: CaptureOrder::none(), draw: true },
        }
    }
}

/// The packets are kept most recent first: after two packets were
/// recorded one after the other, the later one stands first, the earlier
/// one second, and what was held before follows them.
pub proof fn later_packet_stands_first(
    before: App,
    earlier: CompletePacket,
    between: App,
    later: CompletePacket,
    after: App,
)
    requires
        before.packet_recorded(earlier, between),
        between.packet_recorded(later, after),
    ensures
        after.packets@.len() == before.packets@.len() + 2,
        later.same(after.packets@[0]),
        earlier.same(after.packets@[1]),
        after.packets@.subrange(2, after.packets@.len() as int) == before.packets@,
        after.sniffer.packets@ == before.sniffer.packets@.insert(0, earlier).insert(0, later),
{
    let kept = after.packets@.subrange(1, after.packets@.len() as int);
    assert(after.packets@[1] == kept[0]);
    assert(kept.subrange(1, kept.len() as int) =~= after.packets@.subrange(
        2,
        after.packets@.len() as int,
    ));
}

} // verus!
