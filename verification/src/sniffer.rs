//! The sniffer controller: whether a capture session is running, on which
//! interface, and what was captured so far.
//!
//! The controller decides; it owns no thread. `start` and `stop` say what
//! is to be done with the capture thread, and the caller does it before
//! it goes on.

use vstd::prelude::*;
use crate::packet_data::CompletePacket;
use crate::widgets::packet_table::{row_after, row_before, PacketTableState};

verus! {

/// The controller of the capture session and the holder of what it captured.
pub struct Sniffer {
    /// The interface to capture on, by its place in the list of interfaces.
    pub network_interface: Option<usize>,
    /// A sender into the event channel was registered.
    pub event_handler_registered: bool,
    /// No capture session is running.
    pub sniffer_paused: bool,
    /// The handle of a capture thread is held.
    pub capture_thread_held: bool,
    pub packet_table_state: PacketTableState,
    pub packets: Vec<CompletePacket>,
}

impl Sniffer {
    /// The controller is stopped: no session runs and no thread is held.
    pub open spec fn is_stopped(self) -> bool {
        self.sniffer_paused && !self.capture_thread_held
    }

    /// The controller is running: a session runs and its thread is held.
    pub open spec fn is_running(self) -> bool {
        !self.sniffer_paused && self.capture_thread_held
    }

    /// The interface on which `start` launches a session: the one that is
    /// set, where an event handler is registered too.
    pub open spec fn launch_target(self) -> Option<usize> {
        if self.event_handler_registered {
            self.network_interface
        } else {
            None
        }
    }

    /// The controller after `stop`.
    pub open spec fn stopped(self) -> Self {
        Sniffer { sniffer_paused: true, capture_thread_held: false, ..self }
    }

    /// The controller after `start`: running where there is something to
    /// launch, unchanged otherwise.
    pub open spec fn started(self) -> Self {
        if self.launch_target() is Some {
            Sniffer { sniffer_paused: false, capture_thread_held: true, ..self }
        } else {
            self
        }
    }

    /// The controller with the selection moved one packet down.
    pub open spec fn with_next_row(self) -> Self {
        let row = row_after(self.packet_table_state.selected, self.packets.len());
        Sniffer {
            packet_table_state: PacketTableState { selected: Some(row), scroll_position: row },
            ..self
        }
    }

    /// The controller with the selection moved one packet up.
    pub open spec fn with_previous_row(self) -> Self {
        let row = row_before(self.packet_table_state.selected, self.packets.len());
        Sniffer {
            packet_table_state: PacketTableState { selected: Some(row), scroll_position: row },
            ..self
        }
    }

    /// A stopped controller with no interface, no event handler and no
    /// packets, the first row selected.
    pub fn new() -> (sniffer: Self)
        ensures
            sniffer.is_stopped(),
            sniffer.network_interface is None,
            !sniffer.event_handler_registered,
            sniffer.packets@.len() == 0,
            sniffer.packet_table_state == (PacketTableState {
                selected: Some(0),
                scroll_position: 0,
            }),
    {
        Sniffer {
            network_interface: None,
            event_handler_registered: false,
            sniffer_paused: true,
            capture_thread_held: false,
            packet_table_state: PacketTableState::new(),
            packets: Vec::new(),
        }
    }

    /// Stops the session. The caller sets the cancellation flag and, where
    /// `join` is true, waits for the capture thread to end before it goes
    /// on. The controller is stopped afterwards, whatever it was before.
    pub fn stop(&mut self) -> (join: bool)
        ensures
            join == old(self).capture_thread_held,
            *final(self) == old(self).stopped(),
    {
        let join = self.capture_thread_held;
        self.capture_thread_held = false;
        self.sniffer_paused = true;
        join
    }

    /// Starts a session where an event handler is registered and an
    /// interface is set: the result is that interface, on which the caller
    /// spawns a capture thread with a fresh cancellation flag, and the
    /// controller is running. Otherwise nothing changes.
    pub fn start(&mut self) -> (launch: Option<usize>)
        ensures
            launch == old(self).launch_target(),
            *final(self) == old(self).started(),
    {
        if self.event_handler_registered {
            if let Some(interface) = self.network_interface {
                self.capture_thread_held = true;
                self.sniffer_paused = false;
                return Some(interface);
            }
        }
        None
    }

    /// Moves the selection one packet down.
    pub fn next_row(&mut self)
        ensures
            *final(self) == old(self).with_next_row(),
    {
        self.packet_table_state.next_row(self.packets.len());
    }

    /// Moves the selection one packet up.
    pub fn previous_row(&mut self)
        ensures
            *final(self) == old(self).with_previous_row(),
    {
        self.packet_table_state.previous_row(self.packets.len());
    }

    /// The row that is selected in the table of packets.
    pub fn selected_packet_index(&self) -> (index: Option<usize>)
        ensures
            index == self.packet_table_state.selected,
    {
        self.packet_table_state.selected()
    }

    /// Records that a sender into the event channel is at hand for the
    /// capture thread.
    pub fn register_event_handler(&mut self)
        ensures
            *final(self) == (Sniffer { event_handler_registered: true, ..*old(self) }),
    {
        self.event_handler_registered = true;
    }
}

/// A controller is stopped after `stop` whatever it was before, and no
/// thread is held over into the next session.
pub proof fn stop_always_stops(sniffer: Sniffer)
    ensures
        sniffer.stopped().is_stopped(),
        sniffer.stopped().stopped() == sniffer.stopped(),
{
}

/// A switch of interface is a stop, a change of the interface and a start.
/// It ends in a session on the new interface where an event handler is
/// registered, and in a stopped controller otherwise.
pub proof fn switch_restarts_on_the_new_interface(sniffer: Sniffer, interface: usize)
    ensures
        ({
            let switched = Sniffer { network_interface: Some(interface), ..sniffer.stopped() };
            &&& switched.launch_target() == (if sniffer.event_handler_registered {
                Some(interface)
            } else {
                None
            })
            &&& sniffer.event_handler_registered ==> switched.started().is_running()
            &&& !sniffer.event_handler_registered ==> switched.started().is_stopped()
        }),
{
}

} // verus!
