use net_client::{
    Client, ClientChannel, CodecError, ConnectionState, ServerAddress, ServerChannel, TimeSpan,
    TransportError,
};

fn span(secs: u64, nanos: u32) -> TimeSpan {
    TimeSpan::new(secs, nanos).expect("a proper fraction of a second")
}

fn server_addr() -> ServerAddress {
    ServerAddress::V4 { ipv4: 0x7f00_0001, port: 5000 }
}

fn fresh() -> Client {
    Client::new(server_addr(), span(1_700_000_000, 123_456_789), span(100, 0)).1
}

#[test]
fn new_session_is_connecting() {
    let (id, client) = Client::new(server_addr(), span(1_700_000_000, 123_456_789), span(100, 0));
    assert_eq!(id.raw(), 1_700_000_000_123);
    assert_eq!(client.client_id(), 1_700_000_000_123);
    assert_eq!(client.connection_state(), ConnectionState::Connecting);
    assert_eq!(client.failure(), None);
    assert_eq!(client.last_updated(), span(100, 0));
    assert_eq!(client.dropped_messages(), 0);
    assert!(client.renet.is_connecting());
    assert!(!client.renet.is_connected());
    assert!(!client.renet.is_disconnected());
}

#[test]
fn new_session_presents_an_unsecure_descriptor() {
    let addr = ServerAddress::V6 { ipv6: 1, port: 7777, flow_info: 3, scope_id: 4 };
    let (_, client) = Client::new(addr, span(5, 0), span(0, 0));
    let auth = client.authentication();
    assert_eq!(auth.server_addr, addr);
    assert_eq!(auth.client_id, 5000);
    assert_eq!(auth.protocol_id, 7);
    assert!(auth.user_data.is_none());
}

#[test]
fn sessions_created_at_different_milliseconds_differ() {
    let (a, _) = Client::new(server_addr(), span(1_700_000_000, 5_000_000), span(0, 0));
    let (b, _) = Client::new(server_addr(), span(1_700_000_000, 6_000_000), span(0, 0));
    assert_ne!(a, b);
    assert_eq!(a.raw() + 1, b.raw());
}

#[test]
fn new_session_has_nothing_to_hand_out() {
    let mut client = fresh();
    assert_eq!(client.poll_payload(ServerChannel::Snapshot), None);
    assert_eq!(client.poll_payload(ServerChannel::Event), None);
    assert_eq!(client.poll_payload(ServerChannel::ServerMessages), None);
    assert!(client.renet.get_packets_to_send().is_empty());
}

#[test]
fn update_returns_the_time_since_the_last_tick() {
    let mut client = fresh();
    assert_eq!(client.update(span(100, 16_000_000)), Some(span(0, 16_000_000)));
    assert_eq!(client.last_updated(), span(100, 16_000_000));
    assert_eq!(client.update(span(102, 1_000_000)), Some(span(1, 985_000_000)));
    assert_eq!(client.last_updated(), span(102, 1_000_000));
    assert_eq!(client.connection_state(), ConnectionState::Connecting);
}

#[test]
fn update_with_no_time_passed_changes_nothing() {
    let mut client = fresh();
    assert_eq!(client.update(span(100, 0)), Some(TimeSpan::zero()));
    assert_eq!(client.last_updated(), span(100, 0));
    assert_eq!(client.connection_state(), ConnectionState::Connecting);
    assert_eq!(client.failure(), None);
    assert_eq!(client.update(span(100, 0)), Some(TimeSpan::zero()));
    assert_eq!(client.last_updated(), span(100, 0));
    assert_eq!(client.connection_state(), ConnectionState::Connecting);
}

#[test]
fn update_does_not_follow_a_clock_that_goes_back() {
    let mut client = fresh();
    assert_eq!(client.update(span(99, 999_999_999)), Some(TimeSpan::zero()));
    assert_eq!(client.last_updated(), span(100, 0));
    assert_eq!(client.update(span(101, 0)), Some(span(1, 0)));
}

#[test]
fn update_takes_a_very_long_stall() {
    let (_, mut client) = Client::new(server_addr(), span(0, 0), TimeSpan::zero());
    let end = span(u64::MAX, 999_999_999);
    assert_eq!(client.update(end), Some(end));
    assert_eq!(client.last_updated(), end);
    assert_eq!(client.update(end), Some(TimeSpan::zero()));
    assert_eq!(client.connection_state(), ConnectionState::Connecting);
}

#[test]
fn update_advances_the_engine_clock() {
    // The engine sends a reliable message again once its clock has moved on
    // by the resend time of 300 ms, and not before.
    let mut client = fresh();
    client.send_payload(ClientChannel::Command, vec![1, 2, 3]);
    assert_eq!(client.renet.get_packets_to_send().len(), 1);
    client.update(span(100, 299_999_999));
    assert!(client.renet.get_packets_to_send().is_empty());
    client.update(span(100, 300_000_000));
    assert_eq!(client.renet.get_packets_to_send().len(), 1);
}

#[test]
fn update_with_no_time_passed_sends_nothing_again() {
    let mut client = fresh();
    client.send_payload(ClientChannel::Command, vec![1, 2, 3]);
    client.update(span(100, 0));
    assert_eq!(client.renet.get_packets_to_send().len(), 1);
    client.update(span(100, 0));
    assert!(client.renet.get_packets_to_send().is_empty());
    client.update(span(100, 0));
    assert!(client.renet.get_packets_to_send().is_empty());
}

#[test]
fn good_transport_step_follows_the_engine() {
    let mut client = fresh();
    assert!(client.record_transport(Ok(())));
    assert_eq!(client.connection_state(), ConnectionState::Connecting);
    client.renet.set_connected();
    assert!(client.record_transport(Ok(())));
    assert_eq!(client.connection_state(), ConnectionState::Connected);
    assert_eq!(client.failure(), None);
}

#[test]
fn connected_session_does_not_go_back_to_connecting() {
    let mut client = fresh();
    client.renet.set_connected();
    assert!(client.record_transport(Ok(())));
    client.renet.set_connecting();
    assert!(client.record_transport(Ok(())));
    assert_eq!(client.connection_state(), ConnectionState::Connected);
}

#[test]
fn failed_transport_step_ends_the_session() {
    let mut client = fresh();
    assert!(!client.record_transport(Err(TransportError::Io)));
    assert_eq!(client.connection_state(), ConnectionState::Disconnected);
    assert_eq!(client.failure(), Some(TransportError::Io));
    assert!(client.renet.is_disconnected());
}

#[test]
fn engine_shutdown_ends_the_session() {
    let mut client = fresh();
    client.renet.set_connected();
    assert!(client.record_transport(Ok(())));
    client.renet.disconnect();
    assert!(!client.record_transport(Ok(())));
    assert_eq!(client.connection_state(), ConnectionState::Disconnected);
    assert_eq!(client.failure(), Some(TransportError::Renet));
}

#[test]
fn first_failure_stays_on_record() {
    let mut client = fresh();
    assert!(!client.record_transport(Err(TransportError::Netcode)));
    assert!(!client.record_transport(Err(TransportError::Io)));
    assert!(!client.record_transport(Ok(())));
    assert_eq!(client.connection_state(), ConnectionState::Disconnected);
    assert_eq!(client.failure(), Some(TransportError::Netcode));
}

#[test]
fn unreachable_server_ends_in_disconnected() {
    // The handshake never completes; after the timeout the transport gives up.
    let mut client = fresh();
    assert_eq!(client.connection_state(), ConnectionState::Connecting);
    let mut tick: u64 = 0;
    while tick < 15 {
        tick += 1;
        assert_eq!(client.update(span(100 + tick, 0)), Some(span(1, 0)));
        assert!(client.record_transport(Ok(())));
        assert!(client.record_transport(Ok(())));
        assert_eq!(client.connection_state(), ConnectionState::Connecting);
    }
    assert_eq!(client.update(span(116, 0)), Some(span(1, 0)));
    assert!(!client.record_transport(Err(TransportError::Netcode)));
    assert_eq!(client.connection_state(), ConnectionState::Disconnected);
    assert_eq!(client.failure(), Some(TransportError::Netcode));
    assert_eq!(client.update(span(117, 0)), None);
    assert_eq!(client.last_updated(), span(116, 0));
}

#[test]
fn ended_session_does_nothing_more() {
    let mut client = fresh();
    client.record_transport(Err(TransportError::Io));
    assert_eq!(client.update(span(200, 0)), None);
    assert_eq!(client.last_updated(), span(100, 0));
    client.send_payload(ClientChannel::Command, vec![9]);
    assert_eq!(client.poll_payload(ServerChannel::ServerMessages), None);
    let mut encoder_ran = false;
    let sent = client.send(ClientChannel::Command, 5u8, |m: u8| {
        encoder_ran = true;
        Some(vec![m])
    });
    assert_eq!(sent, Ok(()));
    assert!(!encoder_ran);
    let mut decoder_ran = false;
    let got = client.get_server_msg(|bytes: Vec<u8>| {
        decoder_ran = true;
        Some(bytes)
    });
    assert_eq!(got, Ok(None));
    assert!(!decoder_ran);
    assert_eq!(client.dropped_messages(), 0);
    assert_eq!(client.connection_state(), ConnectionState::Disconnected);
    assert_eq!(client.failure(), Some(TransportError::Io));
}

#[test]
fn refused_message_is_dropped_and_counted() {
    let mut client = fresh();
    let sent = client.send(ClientChannel::Command, 5u8, |_m: u8| None);
    assert_eq!(sent, Err(CodecError::Encode));
    assert_eq!(client.dropped_messages(), 1);
    assert_eq!(client.connection_state(), ConnectionState::Connecting);
    assert!(client.renet.get_packets_to_send().is_empty());
    let sent = client.send(ClientChannel::Command, 6u8, |m: u8| Some(vec![m]));
    assert_eq!(sent, Ok(()));
    assert_eq!(client.dropped_messages(), 1);
    assert_eq!(client.renet.get_packets_to_send().len(), 1);
}

#[test]
fn reliable_channel_takes_exactly_its_memory() {
    let mut client = fresh();
    client.send_payload(ClientChannel::Command, vec![0u8; 5 * 1024 * 1024]);
    assert_eq!(client.connection_state(), ConnectionState::Connecting);
    assert_eq!(client.renet.channel_available_memory(2u8), 0);
    client.send_payload(ClientChannel::Command, Vec::new());
    assert_eq!(client.connection_state(), ConnectionState::Connecting);
}

#[test]
fn full_reliable_channel_ends_the_session() {
    let mut client = fresh();
    client.send_payload(ClientChannel::Event, vec![0u8; 5 * 1024 * 1024]);
    assert_eq!(client.connection_state(), ConnectionState::Connecting);
    client.send_payload(ClientChannel::Event, vec![1]);
    assert_eq!(client.connection_state(), ConnectionState::Disconnected);
    assert_eq!(client.failure(), Some(TransportError::Renet));
    assert!(client.renet.is_disconnected());
    assert_eq!(client.update(span(101, 0)), None);
}

#[test]
fn full_unreliable_channel_drops_the_message() {
    let mut client = fresh();
    client.send_payload(ClientChannel::Input, vec![0u8; 5 * 1024 * 1024 - 10]);
    assert_eq!(client.renet.channel_available_memory(0u8), 10);
    client.send_payload(ClientChannel::Input, vec![1u8; 11]);
    assert_eq!(client.renet.channel_available_memory(0u8), 10);
    assert_eq!(client.connection_state(), ConnectionState::Connecting);
    assert_eq!(client.failure(), None);
    client.send_payload(ClientChannel::Input, vec![2u8; 10]);
    assert_eq!(client.renet.channel_available_memory(0u8), 0);
    assert_eq!(client.connection_state(), ConnectionState::Connecting);
}

#[test]
fn channels_do_not_share_memory() {
    let mut client = fresh();
    client.send_payload(ClientChannel::Command, vec![0u8; 1000]);
    assert_eq!(client.renet.channel_available_memory(2u8), 5 * 1024 * 1024 - 1000);
    assert_eq!(client.renet.channel_available_memory(1u8), 5 * 1024 * 1024);
    assert_eq!(client.renet.channel_available_memory(0u8), 5 * 1024 * 1024);
}
