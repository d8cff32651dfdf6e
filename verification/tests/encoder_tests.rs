use streamcore::encoder_stage::DebugInfo;
use streamcore::encoder_stage::Encoder;

#[test]
fn debug_info_defaults_to_zero() {
    let d = DebugInfo::default();
    assert_eq!(d.current, 0);
    assert_eq!(d.estimated, 0);
}

#[test]
fn stage_remembers_its_frame_size() {
    let e = Encoder::new(1280, 720, 0);
    assert_eq!(e.size(), (1280, 720));
    assert!(!e.needs_rebuild(1280, 720));
    assert!(e.needs_rebuild(1920, 1080));
    assert!(e.needs_rebuild(1280, 721));
}

#[test]
fn packets_concatenate_in_emission_order() {
    let mut e = Encoder::new(16, 16, 0);
    let packets = vec![vec![1u8, 2], vec![], vec![3u8, 4, 5]];
    let frame = e.complete_encode(&packets, 1024, 16_666_666, 42, 1_000_000_000);
    assert_eq!(frame.data, vec![1, 2, 3, 4, 5]);
    assert_eq!(frame.duration, 16_666_666);
    assert_eq!(frame.time, 42);
}

#[test]
fn pts_counts_one_tick_per_frame() {
    let mut e = Encoder::new(16, 16, 0);
    assert_eq!(e.pts(), 0);
    e.complete_encode(&vec![vec![1u8]], 10, 1, 0, 1);
    assert_eq!(e.pts(), 1);
    e.complete_encode(&vec![vec![1u8]], 10, 1, 0, 2);
    assert_eq!(e.pts(), 2);
}

#[test]
fn reported_rate_follows_the_meter() {
    let mut e = Encoder::new(16, 16, 0);
    // The first frame's window spans no time at all: the rate saturates,
    // as an instantaneous burst.
    let first = e.complete_encode(&vec![vec![0u8]], 1000, 10, 0, 0);
    assert_eq!(first.current_bitrate, u64::MAX);
    // One second later the window holds 2000 bytes over one second.
    let second = e.complete_encode(&vec![vec![0u8]], 1000, 10, 0, 1_000_000_000);
    assert_eq!(second.current_bitrate, 16_000);
}

#[test]
fn planar_input_matches_the_converter() {
    let e = Encoder::new(2, 2, 0);
    let data = vec![0u8; 16];
    let mut yuv = Vec::new();
    e.prepare_input(&data, &mut yuv);
    assert_eq!(yuv, vec![16, 16, 16, 16, 128, 128]);
}

#[test]
fn rate_control_commits_eighty_and_hundred_percent() {
    let mut e = Encoder::new(16, 16, 0);
    // Window [10, 100] Mbit/s: mean 55 Mbit/s, ratio 5.5: commit.
    let r = e.rate_control(100_000_000, 1);
    assert_eq!(r, Some((44_000_000, 55_000_000)));
    assert_eq!(e.current_target(), 55_000_000);
    // Right after a commit, a steady estimate commits nothing.
    let none = e.rate_control(55_000_000, 2);
    assert_eq!(none, None);
}
