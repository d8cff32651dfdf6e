use streamcore::driver::IceConnectionState;
use streamcore::driver::LocalPollingState;
use streamcore::driver::deadline_wait;
use streamcore::state::SharedSession;

fn connected_with_track() -> LocalPollingState {
    let mut local = LocalPollingState::new();
    let mut shared = SharedSession::new();
    local.ice_state_changed(&mut shared, IceConnectionState::Connected);
    local.add_media(&mut shared, 0, 96);
    local
}

#[test]
fn first_write_has_rtp_time_zero() {
    let mut local = connected_with_track();
    let d = local.handle_frame(100, 16_666_666, 1_000_000);
    assert_eq!(d.rtp_time, Some(0));
}

#[test]
fn accumulated_time_advances_by_half_the_duration() {
    let mut local = connected_with_track();
    local.handle_frame(100, 16_666_666, 1_000_000);
    match &local.track {
        Some(track) => assert_eq!(track.accumulated_time, 8_333_333),
        None => panic!("track must stay bound"),
    }
    // The second write is stamped with the advanced time on the 90 kHz
    // clock: 8_333_333 ns * 90_000 / 1_000_000_000.
    let d = local.handle_frame(100, 16_666_666, 1_000_000);
    assert_eq!(d.rtp_time, Some(749));
    match &local.track {
        Some(track) => assert_eq!(track.accumulated_time, 16_666_666),
        None => panic!("track must stay bound"),
    }
}

#[test]
fn empty_payload_is_dropped_and_time_holds() {
    let mut local = connected_with_track();
    let d = local.handle_frame(0, 16_666_666, 1_000_000);
    assert_eq!(d.rtp_time, None);
    match &local.track {
        Some(track) => assert_eq!(track.accumulated_time, 0),
        None => panic!("track must stay bound"),
    }
}

#[test]
fn no_write_without_connection() {
    let mut local = LocalPollingState::new();
    let d = local.handle_frame(100, 16_666_666, 1_000_000);
    assert_eq!(d.rtp_time, None);
}

#[test]
fn no_write_without_track() {
    let mut local = LocalPollingState::new();
    let mut shared = SharedSession::new();
    local.ice_state_changed(&mut shared, IceConnectionState::Connected);
    let d = local.handle_frame(100, 16_666_666, 1_000_000);
    assert_eq!(d.rtp_time, None);
    assert!(!local.wants_frame());
}

#[test]
fn desired_bitrate_adds_clamped_headroom() {
    let mut local = connected_with_track();
    // A tenth of 1 Mbit/s is under the floor: add 300 kbit/s.
    let low = local.handle_frame(100, 16_666_666, 1_000_000);
    assert_eq!(low.current_bitrate, 1_000_000);
    assert_eq!(low.desired_bitrate, 1_300_000);
    // A tenth of 5 Mbit/s lies between the bounds: add it as is.
    let mid = local.handle_frame(100, 16_666_666, 5_000_000);
    assert_eq!(mid.desired_bitrate, 5_500_000);
    // A tenth of 50 Mbit/s is over the ceiling: add 3 Mbit/s.
    let high = local.handle_frame(100, 16_666_666, 50_000_000);
    assert_eq!(high.desired_bitrate, 53_000_000);
}

#[test]
fn deadline_already_reached_asks_for_timeout_input() {
    assert_eq!(deadline_wait(100, 150), None);
    assert_eq!(deadline_wait(150, 150), None);
    assert_eq!(deadline_wait(200, 150), Some(50));
}
