use streamcore::bitrate::BitrateMeasure;

#[test]
fn rate_is_zero_when_empty() {
    let m = BitrateMeasure::new(120);
    assert_eq!(m.bitrate(1_000_000_000), 0);
}

#[test]
fn rate_matches_formula_exactly() {
    // Two samples of 1000 bytes, one second apart; read one second after
    // the newest: 8 * 2000 bytes over 2 s = 8000 bit/s.
    let mut m = BitrateMeasure::new(120);
    m.push(1000, 0);
    m.push(1000, 1_000_000_000);
    assert_eq!(m.bitrate(2_000_000_000), 8000);
}

#[test]
fn rate_saturates_when_no_time_has_passed() {
    let mut m = BitrateMeasure::new(120);
    m.push(100, 5);
    assert_eq!(m.bitrate(5), u64::MAX);
}

#[test]
fn oldest_sample_is_evicted_at_capacity() {
    // Capacity two: the first sample must fall out, leaving 20 + 30 bytes
    // over the second from t=1s to t=3s: 8 * 50 / 2 = 200 bit/s.
    let mut m = BitrateMeasure::new(2);
    m.push(10, 0);
    m.push(20, 1_000_000_000);
    m.push(30, 2_000_000_000);
    assert_eq!(m.bitrate(3_000_000_000), 200);
}

#[test]
fn rate_is_nonzero_on_nonempty_recent_window() {
    let mut m = BitrateMeasure::new(60);
    m.push(1, 0);
    assert!(m.bitrate(1_000_000_000) > 0);
}
