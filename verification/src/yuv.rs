//! Colourspace conversion from 32-bit packed BGRA to planar I420.
//!
//! The destination buffer is filled with three appended planes: a full-size
//! luma plane followed by the two half-resolution chroma planes, sampled on
//! every second row and column.

use vstd::prelude::*;

verus! {

/// Clip an intermediate colour value to the representable range of a byte.
pub open spec fn spec_clip(x: int) -> u8 {
    if x < 0 {
        0u8
    } else if x > 255 {
        255u8
    } else {
        x as u8
    }
}

/// Truncating (round-toward-zero) division by 256; the chroma formulas apply
/// it to intermediates that may be negative.
pub open spec fn div256_trunc(n: int) -> int {
    if n >= 0 {
        n / 256
    } else {
        -((-n) / 256)
    }
}

/// Luma of one pixel given its blue, green and red components.
pub open spec fn spec_luma(b: u8, g: u8, r: u8) -> u8 {
    spec_clip((66 * r + 129 * g + 25 * b + 128) / 256 + 16)
}

/// Blue-difference chroma of one pixel.
pub open spec fn spec_chroma_u(b: u8, g: u8, r: u8) -> u8 {
    spec_clip(div256_trunc(-38 * r - 74 * g + 112 * b + 128) + 128)
}

/// Red-difference chroma of one pixel.
pub open spec fn spec_chroma_v(b: u8, g: u8, r: u8) -> u8 {
    spec_clip(div256_trunc(112 * r - 94 * g - 18 * b + 128) + 128)
}

/// Chroma samples taken along an axis of `n` pixels: every second one,
/// starting at the first.
pub open spec fn half_up(n: nat) -> nat {
    (n + 1) / 2
}

/// Byte `c` (0 = blue, 1 = green, 2 = red, 3 = alpha) of the pixel at
/// column `x`, row `y` of a packed BGRA buffer that is `width` pixels wide.
pub open spec fn px(src: Seq<u8>, width: nat, x: int, y: int, c: int) -> u8 {
    src[4 * (y * width + x) + c]
}

/// The luma plane: one byte per source pixel, in row-major order.
pub open spec fn spec_y_plane(src: Seq<u8>, width: nat, height: nat) -> Seq<u8> {
    Seq::new(
        width * height,
        |i: int|
            spec_luma(
                px(src, width, i % width as int, i / width as int, 0),
                px(src, width, i % width as int, i / width as int, 1),
                px(src, width, i % width as int, i / width as int, 2),
            ),
    )
}

/// The blue-difference plane: one byte per pixel of every second row and
/// column, in row-major order.
pub open spec fn spec_u_plane(src: Seq<u8>, width: nat, height: nat) -> Seq<u8> {
    Seq::new(
        half_up(width) * half_up(height),
        |i: int|
            spec_chroma_u(
                px(src, width, 2 * (i % half_up(width) as int), 2 * (i / half_up(width) as int), 0),
                px(src, width, 2 * (i % half_up(width) as int), 2 * (i / half_up(width) as int), 1),
                px(src, width, 2 * (i % half_up(width) as int), 2 * (i / half_up(width) as int), 2),
            ),
    )
}

/// The red-difference plane, sampled like the blue-difference plane.
pub open spec fn spec_v_plane(src: Seq<u8>, width: nat, height: nat) -> Seq<u8> {
    Seq::new(
        half_up(width) * half_up(height),
        |i: int|
            spec_chroma_v(
                px(src, width, 2 * (i % half_up(width) as int), 2 * (i / half_up(width) as int), 0),
                px(src, width, 2 * (i % half_up(width) as int), 2 * (i / half_up(width) as int), 1),
                px(src, width, 2 * (i % half_up(width) as int), 2 * (i / half_up(width) as int), 2),
            ),
    )
}

/// The whole I420 buffer: luma plane, then the two chroma planes.
pub open spec fn spec_i420(src: Seq<u8>, width: nat, height: nat) -> Seq<u8> {
    spec_y_plane(src, width, height) + spec_u_plane(src, width, height) + spec_v_plane(
        src,
        width,
        height,
    )
}

/// The converted buffer has exactly the planar I420 length
/// `w*h + 2*ceil(w/2)*ceil(h/2)`, and every byte of it lies in `[0, 255]`.
pub proof fn lemma_i420_shape(src: Seq<u8>, width: nat, height: nat)
    ensures
        spec_i420(src, width, height).len() == width * height + 2 * (half_up(width) * half_up(
            height,
        )),
        forall|i: int|
            0 <= i < spec_i420(src, width, height).len() ==> 0 <= #[trigger] spec_i420(
                src,
                width,
                height,
            )[i] <= 255,
{
}

/// Clip a colour intermediate to a byte at run time.
pub fn clamp(x: i32) -> (r: u8)
    ensures
        r == spec_clip(x as int),
{
    if x < 0 {
        0
    } else if x > 255 {
        255
    } else {
        x as u8
    }
}

/// Luma of one pixel.
fn luma(b: u8, g: u8, r: u8) -> (res: u8)
    ensures
        res == spec_luma(b, g, r),
{
    let acc: u32 = 66 * (r as u32) + 129 * (g as u32) + 25 * (b as u32) + 128;
    clamp((acc / 256 + 16) as i32)
}

/// Blue-difference chroma of one pixel.
fn chroma_u(b: u8, g: u8, r: u8) -> (res: u8)
    ensures
        res == spec_chroma_u(b, g, r),
{
    let pos: u32 = 112 * (b as u32) + 128;
    let neg: u32 = 38 * (r as u32) + 74 * (g as u32);
    if pos >= neg {
        let q: u32 = (pos - neg) / 256;
        clamp((q + 128) as i32)
    } else {
        let q: u32 = (neg - pos) / 256;
        clamp(128 - (q as i32))
    }
}

/// Red-difference chroma of one pixel.
fn chroma_v(b: u8, g: u8, r: u8) -> (res: u8)
    ensures
        res == spec_chroma_v(b, g, r),
{
    let pos: u32 = 112 * (r as u32) + 128;
    let neg: u32 = 94 * (g as u32) + 18 * (b as u32);
    if pos >= neg {
        let q: u32 = (pos - neg) / 256;
        clamp((q + 128) as i32)
    } else {
        let q: u32 = (neg - pos) / 256;
        clamp(128 - (q as i32))
    }
}

/// Convert a packed BGRA buffer of `width * height` pixels into planar I420,
/// replacing the previous contents of `dest`.
pub fn argb_to_i420(width: usize, height: usize, src: &[u8], dest: &mut Vec<u8>)
    requires
        src@.len() == 4 * width * height,
        4 * width * height <= usize::MAX,
    ensures
        final(dest)@ == spec_i420(src@, width as nat, height as nat),
{
    let ghost w = width as nat;
    let ghost h = height as nat;
    let ghost yp = spec_y_plane(src@, w, h);
    let ghost up = spec_u_plane(src@, w, h);
    let ghost vp = spec_v_plane(src@, w, h);

    dest.clear();

    let mut y: usize = 0;
    while y < height
        invariant
            src@.len() == 4 * width * height,
            4 * width * height <= usize::MAX,
            y <= height,
            yp == spec_y_plane(src@, w, h),
            w == width as nat,
            h == height as nat,
            dest@ =~= yp.take(y as int * width as int),
        decreases height - y,
    {
        let mut x: usize = 0;
        while x < width
            invariant
                src@.len() == 4 * width * height,
                4 * width * height <= usize::MAX,
                y < height,
                x <= width,
                yp == spec_y_plane(src@, w, h),
                w == width as nat,
                h == height as nat,
                dest@ =~= yp.take(y as int * width as int + x as int),
            decreases width - x,
        {
            proof {
                assert(y * width + x < width * height && 4 * (y * width + x) + 3 < 4 * width
                    * height) by (nonlinear_arith)
                    requires
                        y < height,
                        x < width,
                ;
            }
            let o: usize = 4 * (y * width + x);
            let value: u8 = luma(src[o], src[o + 1], src[o + 2]);
            proof {
                let k = y as int * width as int + x as int;
                assert(0 <= k < yp.len()) by (nonlinear_arith)
                    requires
                        k == y as int * width as int + x as int,
                        0 <= y < height as int,
                        0 <= x < width as int,
                        yp.len() == width as int * height as int,
                ;
                assert(k % width as int == x as int && k / width as int == y as int)
                    by (nonlinear_arith)
                    requires
                        0 <= x < width as int,
                        0 <= y,
                        k == y as int * width as int + x as int,
                ;
                assert(yp[k] == value);
                assert(yp.take(k + 1) =~= yp.take(k).push(yp[k]));
            }
            dest.push(value);
            x = x + 1;
        }
        y = y + 1;
        proof {
            assert(y as int * width as int == (y - 1) as int * width as int + width as int)
                by (nonlinear_arith);
        }
    }
    proof {
        assert(h * w == w * h) by (nonlinear_arith);
        assert(dest@ =~= yp);
    }

    let cw: usize = width / 2 + width % 2;
    let ch: usize = height / 2 + height % 2;
    proof {
        assert(cw as nat == half_up(w));
        assert(ch as nat == half_up(h));
    }

    let mut cy: usize = 0;
    while cy < ch
        invariant
            src@.len() == 4 * width * height,
            4 * width * height <= usize::MAX,
            cy <= ch,
            cw == half_up(w),
            ch == half_up(h),
            yp == spec_y_plane(src@, w, h),
            up == spec_u_plane(src@, w, h),
            w == width as nat,
            h == height as nat,
            dest@ =~= yp + up.take(cy as int * cw as int),
        decreases ch - cy,
    {
        let mut cx: usize = 0;
        while cx < cw
            invariant
                src@.len() == 4 * width * height,
                4 * width * height <= usize::MAX,
                cy < ch,
                cx <= cw,
                cw == half_up(w),
                ch == half_up(h),
                yp == spec_y_plane(src@, w, h),
                up == spec_u_plane(src@, w, h),
                w == width as nat,
                h == height as nat,
                dest@ =~= yp + up.take(cy as int * cw as int + cx as int),
            decreases cw - cx,
        {
            proof {
                assert(2 * cy < height && 2 * cx < width) by (nonlinear_arith)
                    requires
                        cy < (height + 1) / 2,
                        cx < (width + 1) / 2,
                ;
                assert((2 * cy) * width + 2 * cx < width * height && 4 * ((2 * cy) * width + 2
                    * cx) + 3 < 4 * width * height) by (nonlinear_arith)
                    requires
                        2 * cy < height,
                        2 * cx < width,
                ;
            }
            let o: usize = 4 * ((2 * cy) * width + 2 * cx);
            let value: u8 = chroma_u(src[o], src[o + 1], src[o + 2]);
            proof {
                let k = cy as int * cw as int + cx as int;
                assert(0 <= k < up.len()) by (nonlinear_arith)
                    requires
                        k == cy as int * cw as int + cx as int,
                        0 <= cy < ch as int,
                        0 <= cx < cw as int,
                        up.len() == cw as int * ch as int,
                ;
                assert(k % cw as int == cx as int && k / cw as int == cy as int)
                    by (nonlinear_arith)
                    requires
                        0 <= cx < cw as int,
                        0 <= cy,
                        k == cy as int * cw as int + cx as int,
                ;
                assert(up[k] == value);
                assert(up.take(k + 1) =~= up.take(k).push(up[k]));
            }
            dest.push(value);
            cx = cx + 1;
        }
        cy = cy + 1;
        proof {
            assert(cy as int * cw as int == (cy - 1) as int * cw as int + cw as int)
                by (nonlinear_arith);
        }
    }
    proof {
        assert(ch as int * cw as int == cw as int * ch as int) by (nonlinear_arith);
        assert(dest@ =~= yp + up);
    }

    let mut cy: usize = 0;
    while cy < ch
        invariant
            src@.len() == 4 * width * height,
            4 * width * height <= usize::MAX,
            cy <= ch,
            cw == half_up(w),
            ch == half_up(h),
            yp == spec_y_plane(src@, w, h),
            up == spec_u_plane(src@, w, h),
            vp == spec_v_plane(src@, w, h),
            w == width as nat,
            h == height as nat,
            dest@ =~= yp + up + vp.take(cy as int * cw as int),
        decreases ch - cy,
    {
        let mut cx: usize = 0;
        while cx < cw
            invariant
                src@.len() == 4 * width * height,
                4 * width * height <= usize::MAX,
                cy < ch,
                cx <= cw,
                cw == half_up(w),
                ch == half_up(h),
                yp == spec_y_plane(src@, w, h),
                up == spec_u_plane(src@, w, h),
                vp == spec_v_plane(src@, w, h),
                w == width as nat,
                h == height as nat,
                dest@ =~= yp + up + vp.take(cy as int * cw as int + cx as int),
            decreases cw - cx,
        {
            proof {
                assert(2 * cy < height && 2 * cx < width) by (nonlinear_arith)
                    requires
                        cy < (height + 1) / 2,
                        cx < (width + 1) / 2,
                ;
                assert((2 * cy) * width + 2 * cx < width * height && 4 * ((2 * cy) * width + 2
                    * cx) + 3 < 4 * width * height) by (nonlinear_arith)
                    requires
                        2 * cy < height,
                        2 * cx < width,
                ;
            }
            let o: usize = 4 * ((2 * cy) * width + 2 * cx);
            let value: u8 = chroma_v(src[o], src[o + 1], src[o + 2]);
            proof {
                let k = cy as int * cw as int + cx as int;
                assert(0 <= k < vp.len()) by (nonlinear_arith)
                    requires
                        k == cy as int * cw as int + cx as int,
                        0 <= cy < ch as int,
                        0 <= cx < cw as int,
                        vp.len() == cw as int * ch as int,
                ;
                assert(k % cw as int == cx as int && k / cw as int == cy as int)
                    by (nonlinear_arith)
                    requires
                        0 <= cx < cw as int,
                        0 <= cy,
                        k == cy as int * cw as int + cx as int,
                ;
                assert(vp[k] == value);
                assert(vp.take(k + 1) =~= vp.take(k).push(vp[k]));
            }
            dest.push(value);
            cx = cx + 1;
        }
        cy = cy + 1;
        proof {
            assert(cy as int * cw as int == (cy - 1) as int * cw as int + cw as int)
                by (nonlinear_arith);
        }
    }
    proof {
        assert(ch as int * cw as int == cw as int * ch as int) by (nonlinear_arith);
        assert(dest@ =~= yp + up + vp);
    }
}

} // verus!
