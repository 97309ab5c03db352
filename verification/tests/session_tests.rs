use netsniff::capture::{
    CaptureAction, CaptureConfig, CaptureSession, ChannelOpen, Poll, INITIAL_PACKET_ID,
};
use netsniff::packet_data::{CompletePacket, PacketsData};
use netsniff::sniffer::Sniffer;
use netsniff::widgets::footer::Footer;
use netsniff::widgets::packet_table::PacketTableState;

#[test]
fn standard_config_is_promiscuous_with_one_second_and_4096_bytes() {
    let config = CaptureConfig::standard();
    assert_eq!(
        config,
        CaptureConfig {
            promiscuous: true,
            read_timeout_secs: 1,
            read_buffer_size: 4096,
            write_buffer_size: 4096,
        }
    );
}

#[test]
fn session_goes_on_only_with_an_ethernet_channel() {
    let mut session = CaptureSession::new();
    assert!(session.on_open(ChannelOpen::Ethernet));
    assert!(session.running);
    let mut session = CaptureSession::new();
    assert!(!session.on_open(ChannelOpen::UnknownType));
    assert!(!session.running);
    let mut session = CaptureSession::new();
    assert!(!session.on_open(ChannelOpen::Failed));
    assert!(!session.running);
}

#[test]
fn session_ends_when_the_flag_is_set() {
    let mut session = CaptureSession::new();
    assert!(session.before_poll(false));
    assert!(session.running);
    assert!(!session.before_poll(true));
    assert!(!session.running);
    assert!(!session.before_poll(false));
}

#[test]
fn ids_count_up_from_one_without_gaps() {
    let mut session = CaptureSession::new();
    assert_eq!(session.packet_id, INITIAL_PACKET_ID);
    let polls = vec![
        Poll::Frame(vec![0u8; 60]),
        Poll::TimedOut,
        Poll::Frame(vec![]),
        Poll::TimedOut,
        Poll::TimedOut,
        Poll::Frame(vec![1u8; 14]),
    ];
    let mut ids = Vec::new();
    for poll in polls {
        assert!(session.before_poll(false));
        match session.after_poll(poll) {
            CaptureAction::Emit(packet) => ids.push(packet.id),
            CaptureAction::Continue => {}
            CaptureAction::Exit => panic!("no failure was polled"),
        }
    }
    assert_eq!(ids, vec![1, 2, 3]);
    assert_eq!(session.packet_id, 3);
}

#[test]
fn frame_is_dissected_and_emitted() {
    let mut session = CaptureSession::new();
    let mut frame = vec![0xffu8; 12];
    frame.extend_from_slice(&[0x12, 0x34, 1, 2, 3]);
    match session.after_poll(Poll::Frame(frame)) {
        CaptureAction::Emit(packet) => {
            assert_eq!(packet.id, 1);
            match packet.layer_1 {
                Some(PacketsData::EthernetPacket(header)) => {
                    assert_eq!(header.ethertype, 0x1234);
                    assert_eq!(header.payload, vec![1, 2, 3]);
                }
                _ => panic!("the link layer is missing"),
            }
            assert_eq!(packet.layer_2, None);
        }
        _ => panic!("a frame is emitted"),
    }
}

#[test]
fn malformed_frame_is_still_emitted() {
    let mut session = CaptureSession::new();
    let action = session.after_poll(Poll::Frame(vec![1, 2, 3]));
    assert_eq!(action, CaptureAction::Emit(CompletePacket::new(1)));
    assert!(session.running);
}

#[test]
fn timeout_changes_nothing_and_failure_ends_the_session() {
    let mut session = CaptureSession::new();
    assert_eq!(session.after_poll(Poll::TimedOut), CaptureAction::Continue);
    assert_eq!(session, CaptureSession { packet_id: 0, running: true });
    assert_eq!(session.after_poll(Poll::Failed), CaptureAction::Exit);
    assert_eq!(session, CaptureSession { packet_id: 0, running: false });
}

#[test]
fn new_session_starts_over_at_the_initial_id() {
    let mut first = CaptureSession::new();
    let _ = first.after_poll(Poll::Frame(vec![]));
    let _ = first.after_poll(Poll::Frame(vec![]));
    assert_eq!(first.packet_id, 2);
    let mut second = CaptureSession::new();
    match second.after_poll(Poll::Frame(vec![])) {
        CaptureAction::Emit(packet) => assert_eq!(packet.id, 1),
        _ => panic!("a frame is emitted"),
    }
}

#[test]
fn table_selection_wraps_around_both_ends() {
    let mut state = PacketTableState::new();
    assert_eq!(state.selected(), Some(0));
    state.next_row(3);
    assert_eq!(state.selected(), Some(1));
    state.next_row(3);
    assert_eq!(state, PacketTableState { selected: Some(2), scroll_position: 2 });
    state.next_row(3);
    assert_eq!(state, PacketTableState { selected: Some(0), scroll_position: 0 });
    state.previous_row(3);
    assert_eq!(state, PacketTableState { selected: Some(2), scroll_position: 2 });
    state.previous_row(3);
    assert_eq!(state.selected(), Some(1));
}

#[test]
fn table_selection_in_an_empty_table_stays_on_the_first_row() {
    let mut state = PacketTableState::new();
    state.next_row(0);
    assert_eq!(state.selected(), Some(0));
    state.previous_row(0);
    assert_eq!(state.selected(), Some(0));
    let mut state = PacketTableState { selected: None, scroll_position: 7 };
    state.previous_row(5);
    assert_eq!(state, PacketTableState { selected: Some(0), scroll_position: 0 });
    let mut state = PacketTableState { selected: None, scroll_position: 7 };
    state.next_row(5);
    assert_eq!(state, PacketTableState { selected: Some(0), scroll_position: 0 });
    let mut state = PacketTableState { selected: Some(9), scroll_position: 9 };
    state.next_row(5);
    assert_eq!(state.selected(), Some(0));
}

#[test]
fn sniffer_starts_only_with_a_handler_and_an_interface() {
    let mut sniffer = Sniffer::new();
    assert!(sniffer.sniffer_paused);
    assert_eq!(sniffer.start(), None);
    assert!(sniffer.sniffer_paused);
    sniffer.network_interface = Some(2);
    assert_eq!(sniffer.start(), None);
    assert!(sniffer.sniffer_paused);
    sniffer.register_event_handler();
    assert_eq!(sniffer.start(), Some(2));
    assert!(!sniffer.sniffer_paused);
    assert!(sniffer.capture_thread_held);
}

#[test]
fn sniffer_stop_joins_the_thread_it_holds() {
    let mut sniffer = Sniffer::new();
    assert!(!sniffer.stop());
    sniffer.network_interface = Some(0);
    sniffer.register_event_handler();
    assert_eq!(sniffer.start(), Some(0));
    assert!(sniffer.stop());
    assert!(sniffer.sniffer_paused);
    assert!(!sniffer.capture_thread_held);
    assert!(!sniffer.stop());
    sniffer.network_interface = Some(1);
    assert_eq!(sniffer.start(), Some(1));
    assert!(!sniffer.sniffer_paused);
}

#[test]
fn sniffer_selection_follows_its_packets() {
    let mut sniffer = Sniffer::new();
    sniffer.next_row();
    assert_eq!(sniffer.selected_packet_index(), Some(0));
    sniffer.packets.push(CompletePacket::new(1));
    sniffer.packets.push(CompletePacket::new(2));
    sniffer.next_row();
    assert_eq!(sniffer.selected_packet_index(), Some(1));
    sniffer.next_row();
    assert_eq!(sniffer.selected_packet_index(), Some(0));
    sniffer.previous_row();
    assert_eq!(sniffer.selected_packet_index(), Some(1));
}

#[test]
fn footer_names_the_five_keys() {
    let footer = Footer::new();
    assert_eq!(
        footer.hints(),
        vec![
            "q: sair  ",
            "j/k ou \u{2193}/\u{2191}: navegar  ",
            "i: interface  ",
            "p: play/pause  ",
            "enter: detalhes",
        ]
    );
}
