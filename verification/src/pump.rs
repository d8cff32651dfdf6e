//! Frame pump cadence and the synthetic test-pattern source.
//!
//! The pump runs a fixed 60 Hz clock: each tick it asks the frame source
//! for a frame, stamps it with its render time (but never less than one
//! frame period), hands it to the encoder stage, and sleeps away whatever
//! is left of the period. The arithmetic of that loop lives here; the
//! waiting itself is the embedding program's.

use vstd::prelude::*;
use vstd::wrapping::u32_specs;

verus! {

/// One tick of the 60 Hz clock, in nanoseconds (rounded down).
pub const FRAME_PERIOD_NANOS: u64 = 16_666_666;

/// The nominal duration stamped on a frame whose rendering took `elapsed`
/// nanoseconds: the render time, clamped to at least one frame period.
pub fn frame_duration(elapsed: u64) -> (d: u64)
    ensures
        d == (if elapsed >= FRAME_PERIOD_NANOS {
            elapsed
        } else {
            FRAME_PERIOD_NANOS
        }),
        d >= FRAME_PERIOD_NANOS,
{
    if elapsed >= FRAME_PERIOD_NANOS {
        elapsed
    } else {
        FRAME_PERIOD_NANOS
    }
}

/// How long the pump sleeps after a tick that took `elapsed` nanoseconds:
/// the remainder of the frame period, or nothing when the tick overran it.
pub fn remaining_sleep(elapsed: u64) -> (s: u64)
    ensures
        s == (if elapsed < FRAME_PERIOD_NANOS {
            FRAME_PERIOD_NANOS - elapsed
        } else {
            0int
        }),
{
    if elapsed < FRAME_PERIOD_NANOS {
        FRAME_PERIOD_NANOS - elapsed
    } else {
        0
    }
}

/// One step of the per-pixel pseudo-random generator.
pub open spec fn seed_step(seed: u32, frame_number: u32) -> u32 {
    u32_specs::wrapping_add(
        u32_specs::wrapping_mul(seed, 1103515245),
        (12345 + frame_number) as u32,
    )
}

/// The generator state after `i` pixels of a frame, starting from `seed0`.
pub open spec fn seed_at(seed0: u32, frame_number: u32, i: nat) -> u32
    decreases i,
{
    if i == 0 {
        seed0
    } else {
        seed_step(seed_at(seed0, frame_number, (i - 1) as nat), frame_number)
    }
}

/// The colour of pixel `k` (row-major) given the generator state `s` at
/// that pixel: a 15-by-15 grid of cells, each with a distinct colour that
/// drifts with the frame number, plus per-pixel noise in the blue channel.
pub open spec fn spec_pixel_colors(s: u32, width: u32, height: u32, frame_number: u32, k: int) -> (
    u8,
    u8,
    u8,
) {
    let x = k % width as int;
    let y = k / width as int;
    let cell_x = x / (width as int / 15);
    let cell_y = y / (height as int / 15);
    (
        (((cell_x * 50 + frame_number) % 256) as u8),
        (((cell_y * 50 + frame_number) % 256) as u8),
        ((((s as int % 16) + cell_x + cell_y) % 256) as u8),
    )
}

/// The colour of pixel `k` of the whole frame, with the generator advanced
/// once per pixel.
pub open spec fn spec_pattern_pixel(
    seed0: u32,
    width: u32,
    height: u32,
    frame_number: u32,
    k: int,
) -> (u8, u8, u8) {
    spec_pixel_colors(seed_at(seed0, frame_number, (k + 1) as nat), width, height, frame_number, k)
}

/// Compute the colour of one pixel from the generator state `s`.
fn pattern_pixel(s: u32, k: u32, width: u32, height: u32, frame_number: u32) -> (rgb: (u8, u8, u8))
    requires
        15 <= width,
        15 <= height,
        k < width as int * height as int,
        50 * (width - 1) + frame_number <= u32::MAX,
        50 * (height - 1) + frame_number <= u32::MAX,
    ensures
        rgb == spec_pixel_colors(s, width, height, frame_number, k as int),
{
    let grid_width: u32 = width / 15;
    let grid_height: u32 = height / 15;
    let x: u32 = k % width;
    let y: u32 = k / width;
    let cell_x: u32 = x / grid_width;
    let cell_y: u32 = y / grid_height;
    proof {
        assert(y < height && cell_x <= x && cell_y <= y) by (nonlinear_arith)
            requires
                k < width as int * height as int,
                x == k as int % width as int,
                y == k as int / width as int,
                cell_x == x as int / grid_width as int,
                cell_y == y as int / grid_height as int,
                15 <= width,
                15 <= height,
                grid_width == width as int / 15,
                grid_height == height as int / 15,
        ;
    }
    let r: u8 = ((cell_x * 50 + frame_number) % 256) as u8;
    let g: u8 = ((cell_y * 50 + frame_number) % 256) as u8;
    let b: u8 = (((s % 16) + cell_x + cell_y) % 256) as u8;
    (r, g, b)
}

/// The first `k` pixels of the test pattern, each as red, green, blue and
/// full alpha.
pub open spec fn spec_pattern_prefix(
    seed0: u32,
    width: u32,
    height: u32,
    frame_number: u32,
    k: nat,
) -> Seq<u8>
    decreases k,
{
    if k == 0 {
        Seq::empty()
    } else {
        let p = spec_pattern_pixel(seed0, width, height, frame_number, k - 1);
        spec_pattern_prefix(seed0, width, height, frame_number, (k - 1) as nat) + seq![
            p.0,
            p.1,
            p.2,
            255u8,
        ]
    }
}

/// The whole test-pattern frame: the pixels in row-major order, each as
/// red, green, blue and full alpha.
pub open spec fn spec_pattern_frame(
    seed0: u32,
    width: u32,
    height: u32,
    frame_number: u32,
) -> Seq<u8> {
    spec_pattern_prefix(seed0, width, height, frame_number, (width * height) as nat)
}

/// The pattern prefix holds four bytes for each of its pixels.
pub proof fn lemma_pattern_prefix_len(seed0: u32, width: u32, height: u32, frame_number: u32, k: nat)
    ensures
        spec_pattern_prefix(seed0, width, height, frame_number, k).len() == 4 * k,
    decreases k,
{
    if k > 0 {
        lemma_pattern_prefix_len(seed0, width, height, frame_number, (k - 1) as nat);
    }
}

/// Generate one RGBA frame of the synthetic test pattern, advancing the
/// generator seed by one step per pixel.
pub fn gen_frame(seed: &mut u32, width: u32, height: u32, frame_number: u32) -> (pixels: Vec<u8>)
    requires
        15 <= width,
        15 <= height,
        width as int * height as int <= u32::MAX,
        4 * (width as int * height as int) <= usize::MAX,
        12345 + frame_number <= u32::MAX,
        50 * (width - 1) + frame_number <= u32::MAX,
        50 * (height - 1) + frame_number <= u32::MAX,
    ensures
        pixels@ == spec_pattern_frame(*old(seed), width, height, frame_number),
        *final(seed) == seed_at(*old(seed), frame_number, (width * height) as nat),
{
    let ghost seed0 = *seed;

    let mut pixels: Vec<u8> = Vec::new();

    let count: u32 = width * height;
    proof {
        assert(width * height <= u32::MAX) by (nonlinear_arith)
            requires
                width as int * height as int <= u32::MAX,
        ;
    }

    let mut k: u32 = 0;
    while k < count
        invariant
            15 <= width,
            15 <= height,
            count == width as int * height as int,
            count <= u32::MAX,
            4 * (width as int * height as int) <= usize::MAX,
            12345 + frame_number <= u32::MAX,
            50 * (width - 1) + frame_number <= u32::MAX,
            50 * (height - 1) + frame_number <= u32::MAX,
            k <= count,
            pixels@ == spec_pattern_prefix(seed0, width, height, frame_number, k as nat),
            *seed == seed_at(seed0, frame_number, k as nat),
        decreases count - k,
    {
        proof {
            lemma_pattern_prefix_len(seed0, width, height, frame_number, k as nat);
        }
        *seed = seed.wrapping_mul(1103515245).wrapping_add(12345 + frame_number);
        proof {
            assert(*seed == seed_at(seed0, frame_number, (k + 1) as nat));
        }

        let rgb = pattern_pixel(*seed, k, width, height, frame_number);

        pixels.push(rgb.0);
        pixels.push(rgb.1);
        pixels.push(rgb.2);
        pixels.push(255);

        proof {
            assert(spec_pattern_pixel(seed0, width, height, frame_number, k as int) == rgb);
            assert(pixels@ =~= spec_pattern_prefix(
                seed0,
                width,
                height,
                frame_number,
                (k + 1) as nat,
            ));
        }

        k = k + 1;
    }
    pixels
}

} // verus!
