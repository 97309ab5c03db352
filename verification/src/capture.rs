//! The decisions of one capture session.
//!
//! A capture thread opens a channel on an interface and then alternates
//! between looking at its cancellation flag and polling the channel. What
//! it does with each outcome is decided here; the thread itself only
//! performs the I/O and hands the outcomes in.

use vstd::prelude::*;
use crate::dissect::{dissect, is_dissection_of};
use crate::packet_data::CompletePacket;

verus! {

/// The identifier that a session counts from. The first captured frame
/// gets the next one.
pub const INITIAL_PACKET_ID: u64 = 0;

/// How the capture channel of a session is opened.
#[derive(Clone, Copy, Debug, PartialEq, Eq)]
pub struct CaptureConfig {
    pub promiscuous: bool,
    pub read_timeout_secs: u64,
    pub read_buffer_size: usize,
    pub write_buffer_size: usize,
}

impl CaptureConfig {
    /// Promiscuous mode, a read timeout of one second, and buffers of 4096
    /// bytes for reading and for writing.
    pub fn standard() -> (config: Self)
        ensures
            config.promiscuous,
            config.read_timeout_secs == 1,
            config.read_buffer_size == 4096,
            config.write_buffer_size == 4096,
    {
        CaptureConfig {
            promiscuous: true,
            read_timeout_secs: 1,
            read_buffer_size: 4096,
            write_buffer_size: 4096,
        }
    }
}

/// How an attempt to open the capture channel ended.
#[derive(Clone, Copy, Debug, PartialEq, Eq)]
pub enum ChannelOpen {
    /// An Ethernet channel is open.
    Ethernet,
    /// A channel came back whose link layer is not Ethernet.
    UnknownType,
    /// The channel could not be opened.
    Failed,
}

/// What one poll of the capture channel gave.
#[derive(Clone, Debug, PartialEq, Eq)]
pub enum Poll {
    /// The bytes of one frame.
    Frame(Vec<u8>),
    /// The read timeout passed with no frame.
    TimedOut,
    /// The channel failed for good.
    Failed,
}

/// What the capture thread does next.
#[derive(Clone, Debug, PartialEq, Eq)]
pub enum CaptureAction {
    /// Send the packet to the consumer as a captured-packet event, then go on.
    Emit(CompletePacket),
    /// Go on with the next round.
    Continue,
    /// Leave the loop and end the thread.
    Exit,
}

/// One capture session, from the start of its thread to its end.
#[derive(Clone, Copy, Debug, PartialEq, Eq)]
pub struct CaptureSession {
    /// The identifier given to the frame captured last.
    pub packet_id: u64,
    /// The thread is still in its loop.
    pub running: bool,
}

/// The counter after one poll: one more for a frame, unchanged otherwise.
pub open spec fn packet_id_after(packet_id: int, poll: Poll) -> int {
    if poll is Frame {
        packet_id + 1
    } else {
        packet_id
    }
}

/// The identifiers that a session gives out, in order, while it handles
/// `polls` one after the other with its counter at `packet_id`: one for
/// each frame, none for a timeout, and none at all from a failure on.
pub open spec fn emitted_ids(packet_id: int, polls: Seq<Poll>) -> Seq<int>
    decreases polls.len(),
{
    if polls.len() == 0 || polls[0] is Failed {
        Seq::empty()
    } else {
        let counter = packet_id_after(packet_id, polls[0]);
        let later = emitted_ids(counter, polls.subrange(1, polls.len() as int));
        if polls[0] is Frame {
            seq![counter] + later
        } else {
            later
        }
    }
}

impl CaptureSession {
    /// A session at its start: the counter at its initial value, the thread running.
    pub fn new() -> (session: Self)
        ensures
            session.packet_id == INITIAL_PACKET_ID,
            session.running,
    {
        CaptureSession { packet_id: INITIAL_PACKET_ID, running: true }
    }

    /// Takes the outcome of opening the channel. The session goes on only
    /// with an Ethernet channel; anything else ends it before a single poll.
    pub fn on_open(&mut self, outcome: ChannelOpen) -> (go_on: bool)
        ensures
            go_on == (old(self).running && outcome == ChannelOpen::Ethernet),
            final(self).running == go_on,
            final(self).packet_id == old(self).packet_id,
    {
        let go_on = self.running && matches!(outcome, ChannelOpen::Ethernet);
        self.running = go_on;
        go_on
    }

    /// Looks at the cancellation flag at the head of a round. The session
    /// polls once more only where the flag is not set.
    pub fn before_poll(&mut self, stop_requested: bool) -> (go_on: bool)
        ensures
            go_on == (old(self).running && !stop_requested),
            final(self).running == go_on,
            final(self).packet_id == old(self).packet_id,
    {
        let go_on = self.running && !stop_requested;
        self.running = go_on;
        go_on
    }

    /// Takes the outcome of one poll. A frame gets the next identifier, is
    /// dissected and emitted; a timeout changes nothing; a failure ends the
    /// session.
    pub fn after_poll(&mut self, poll: Poll) -> (action: CaptureAction)
        requires
            old(self).running,
            old(self).packet_id < u64::MAX,
        ensures
            final(self).packet_id == packet_id_after(old(self).packet_id as int, poll),
            final(self).running == !(poll is Failed),
            match poll {
                Poll::Frame(bytes) => action matches CaptureAction::Emit(packet) && packet.id
                    == old(self).packet_id + 1 && is_dissection_of(packet, bytes@)
                    && packet.well_layered(),
                Poll::TimedOut => action is Continue,
                Poll::Failed => action is Exit,
            },
    {
        match poll {
            Poll::Frame(bytes) => {
                self.packet_id = self.packet_id + 1;
                CaptureAction::Emit(dissect(self.packet_id, bytes.as_slice()))
            },
            Poll::TimedOut => CaptureAction::Continue,
            Poll::Failed => {
                self.running = false;
                CaptureAction::Exit
            },
        }
    }
}

/// The identifiers of one session have no gaps: the n-th packet emitted
/// after the counter stood at `packet_id` has the identifier `packet_id + n`,
/// whatever frames, timeouts and failures came in.
pub proof fn emitted_ids_are_consecutive(packet_id: int, polls: Seq<Poll>)
    ensures
        forall|i: int|
            0 <= i < emitted_ids(packet_id, polls).len() ==> #[trigger] emitted_ids(
                packet_id,
                polls,
            )[i] == packet_id + 1 + i,
    decreases polls.len(),
{
    let ids = emitted_ids(packet_id, polls);
    if polls.len() > 0 && !(polls[0] is Failed) {
        let counter = packet_id_after(packet_id, polls[0]);
        let later = emitted_ids(counter, polls.subrange(1, polls.len() as int));
        emitted_ids_are_consecutive(counter, polls.subrange(1, polls.len() as int));
        if polls[0] is Frame {
            assert(ids == seq![counter] + later);
            assert forall|i: int| 0 <= i < ids.len() implies #[trigger] ids[i] == packet_id + 1
                + i by {
                if i > 0 {
                    assert(ids[i] == later[i - 1]);
                }
            }
        } else {
            assert(ids == later);
        }
    } else {
        assert(ids.len() == 0);
    }
}

/// The identifiers of one session are strictly increasing, and the first
/// one is the one behind the session's initial value.
pub proof fn emitted_ids_strictly_increase(polls: Seq<Poll>)
    ensures
        forall|i: int, j: int|
            0 <= i < j < emitted_ids(INITIAL_PACKET_ID as int, polls).len() ==> emitted_ids(
                INITIAL_PACKET_ID as int,
                polls,
            )[i] < emitted_ids(INITIAL_PACKET_ID as int, polls)[j],
        emitted_ids(INITIAL_PACKET_ID as int, polls).len() > 0 ==> emitted_ids(
            INITIAL_PACKET_ID as int,
            polls,
        )[0] == INITIAL_PACKET_ID + 1,
{
    emitted_ids_are_consecutive(INITIAL_PACKET_ID as int, polls);
}

} // verus!
