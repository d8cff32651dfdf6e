use streamcore::driver::IceConnectionState;
use streamcore::driver::LocalPollingState;
use streamcore::driver::PeerEvent;
use streamcore::state::ConnectionState;
use streamcore::state::SharedSession;

#[test]
fn started_fires_once_media_then_connect() {
    let mut s = SharedSession::new();
    assert!(!s.on_media_added());
    assert!(s.on_ice_connected());
    assert_eq!(s.started_signals, 1);
    // A repeated connectivity notification must not signal again.
    assert!(!s.on_ice_connected());
    assert_eq!(s.started_signals, 1);
}

#[test]
fn started_fires_once_connect_then_media() {
    let mut s = SharedSession::new();
    assert!(!s.on_ice_connected());
    assert!(s.on_media_added());
    assert_eq!(s.started_signals, 1);
    assert!(!s.on_media_added());
    assert_eq!(s.started_signals, 1);
}

#[test]
fn closed_session_is_terminal() {
    let mut s = SharedSession::new();
    s.on_media_added();
    s.on_ice_disconnected();
    assert_eq!(s.state, ConnectionState::Closed);
    // Connectivity coming back must not reopen the session or signal.
    assert!(!s.on_ice_connected());
    assert_eq!(s.state, ConnectionState::Closed);
    assert_eq!(s.started_signals, 0);
}

#[test]
fn estimate_is_clamped_to_ceiling() {
    let mut s = SharedSession::new();
    s.set_estimated_bitrate(25_000_000);
    assert_eq!(s.estimated_bitrate(), 20_000_000);
    s.set_estimated_bitrate(5_000_000);
    assert_eq!(s.estimated_bitrate(), 5_000_000);
}

#[test]
fn disconnect_event_exits_the_loop() {
    let mut local = LocalPollingState::new();
    let mut shared = SharedSession::new();
    local.ice_state_changed(&mut shared, IceConnectionState::Connected);
    let outcome = local.handle_event(
        &mut shared,
        PeerEvent::IceStateChange { state: IceConnectionState::Disconnected },
    );
    assert!(outcome.exit);
    assert!(local.is_closed());
}

#[test]
fn second_media_track_is_rejected() {
    let mut local = LocalPollingState::new();
    let mut shared = SharedSession::new();
    let first = local.add_media(&mut shared, 3, 96);
    assert!(first.0);
    let second = local.add_media(&mut shared, 4, 97);
    assert!(!second.0);
    assert!(!second.1);
    match &local.track {
        Some(track) => assert_eq!(track.mid, 3),
        None => panic!("first track must stay bound"),
    }
}

#[test]
fn only_the_events_channel_is_remembered() {
    let mut local = LocalPollingState::new();
    local.add_data_channel(11, "control");
    assert!(local.events_channel.is_none());
    local.add_data_channel(12, "events");
    assert_eq!(local.events_channel, Some(12));
    // A second channel is ignored, whatever its label.
    local.add_data_channel(13, "events");
    assert_eq!(local.events_channel, Some(12));
}

#[test]
fn channel_data_traces_only_on_events_channel() {
    let mut local = LocalPollingState::new();
    let mut shared = SharedSession::new();
    local.add_data_channel(12, "events");
    let on_events = local.handle_event(&mut shared, PeerEvent::ChannelData { id: 12 });
    assert!(on_events.trace_channel_data);
    let elsewhere = local.handle_event(&mut shared, PeerEvent::ChannelData { id: 7 });
    assert!(!elsewhere.trace_channel_data);
}

#[test]
fn estimate_event_updates_both_records() {
    let mut local = LocalPollingState::new();
    let mut shared = SharedSession::new();
    local.handle_event(&mut shared, PeerEvent::EgressBitrateEstimate { bps: 30_000_000 });
    assert_eq!(local.bwe, 20_000_000);
    assert_eq!(shared.estimated_bitrate, 20_000_000);
}

#[test]
fn media_added_via_dispatch_signals_when_connected() {
    let mut local = LocalPollingState::new();
    let mut shared = SharedSession::new();
    local.handle_event(
        &mut shared,
        PeerEvent::IceStateChange { state: IceConnectionState::Completed },
    );
    let outcome = local.handle_event(
        &mut shared,
        PeerEvent::MediaAdded { mid: 0, params: 96, kind_is_video: true, is_sending: true },
    );
    assert!(outcome.signal_started);
    assert_eq!(shared.started_signals, 1);
}
