use streamcore::pump::FRAME_PERIOD_NANOS;
use streamcore::pump::frame_duration;
use streamcore::pump::gen_frame;
use streamcore::pump::remaining_sleep;

#[test]
fn duration_is_clamped_to_the_frame_period() {
    assert_eq!(frame_duration(5_000_000), FRAME_PERIOD_NANOS);
    assert_eq!(frame_duration(FRAME_PERIOD_NANOS), FRAME_PERIOD_NANOS);
    assert_eq!(frame_duration(20_000_000), 20_000_000);
}

#[test]
fn sleep_fills_the_rest_of_the_period() {
    assert_eq!(remaining_sleep(10_000_000), 6_666_666);
    assert_eq!(remaining_sleep(FRAME_PERIOD_NANOS), 0);
    assert_eq!(remaining_sleep(20_000_000), 0);
}

#[test]
fn fast_ticks_keep_the_cadence() {
    // However fast the source, a tick spans at least one frame period:
    // render time plus the remaining sleep never undershoots it.
    for elapsed in [0u64, 1, 5_000_000, 16_666_665] {
        assert_eq!(elapsed + remaining_sleep(elapsed), FRAME_PERIOD_NANOS);
    }
}

#[test]
fn pattern_frame_has_four_bytes_per_pixel() {
    let mut seed: u32 = 2932342342;
    let pixels = gen_frame(&mut seed, 15, 15, 0);
    assert_eq!(pixels.len(), 4 * 15 * 15);
    for i in 0..(15 * 15) {
        assert_eq!(pixels[4 * i + 3], 255);
    }
}

#[test]
fn pattern_is_deterministic_in_the_seed() {
    let mut seed_a: u32 = 77;
    let mut seed_b: u32 = 77;
    let a = gen_frame(&mut seed_a, 16, 15, 3);
    let b = gen_frame(&mut seed_b, 16, 15, 3);
    assert_eq!(a, b);
    assert_eq!(seed_a, seed_b);
    assert_ne!(seed_a, 77);
}

#[test]
fn first_pixel_of_frame_zero_is_exact() {
    // For frame number 0 the first cell contributes no red or green, and
    // the blue channel carries the generator noise: seed 1 steps to
    // 1*1103515245 + 12345, whose low four bits are 6.
    let mut seed: u32 = 1;
    let pixels = gen_frame(&mut seed, 15, 15, 0);
    assert_eq!(&pixels[0..4], &[0, 0, 6, 255]);
}

#[test]
fn frame_number_shifts_the_cell_colours() {
    let mut seed: u32 = 1;
    let pixels = gen_frame(&mut seed, 15, 15, 7);
    // cell (0, 0) of frame 7: red and green are (0 * 50 + 7) % 256.
    assert_eq!(pixels[0], 7);
    assert_eq!(pixels[1], 7);
}
