use streamcore::yuv::argb_to_i420;
use streamcore::yuv::clamp;

#[test]
fn clamp_clips_to_byte_range() {
    assert_eq!(clamp(-1), 0);
    assert_eq!(clamp(-500), 0);
    assert_eq!(clamp(0), 0);
    assert_eq!(clamp(100), 100);
    assert_eq!(clamp(255), 255);
    assert_eq!(clamp(256), 255);
    assert_eq!(clamp(1000), 255);
}

#[test]
fn buffer_has_planar_i420_length() {
    // 3x3 pixels: 9 luma bytes plus two 2x2 chroma planes.
    let src = vec![0u8; 4 * 3 * 3];
    let mut dest = Vec::new();
    argb_to_i420(3, 3, &src, &mut dest);
    assert_eq!(dest.len(), 9 + 2 * (2 * 2));
    // 4x2 pixels: 8 luma bytes plus two 2x1 chroma planes.
    let src = vec![0u8; 4 * 4 * 2];
    let mut dest = Vec::new();
    argb_to_i420(4, 2, &src, &mut dest);
    assert_eq!(dest.len(), 8 + 2 * (2 * 1));
}

#[test]
fn black_converts_to_luma_16_chroma_128() {
    let src = vec![0u8; 4 * 2 * 2];
    let mut dest = Vec::new();
    argb_to_i420(2, 2, &src, &mut dest);
    assert_eq!(dest, vec![16, 16, 16, 16, 128, 128]);
}

#[test]
fn white_converts_to_luma_235_chroma_128() {
    let src = vec![255u8; 4 * 1 * 1];
    let mut dest = Vec::new();
    argb_to_i420(1, 1, &src, &mut dest);
    assert_eq!(dest, vec![235, 128, 128]);
}

#[test]
fn pure_blue_pixel_values_are_exact() {
    // One BGRA pixel with B=255: Y = 25*255/256 rounded down plus the
    // offsets, U saturated high, V below the midpoint.
    let src = vec![255u8, 0, 0, 255];
    let mut dest = Vec::new();
    argb_to_i420(1, 1, &src, &mut dest);
    assert_eq!(dest, vec![41, 240, 111]);
}

#[test]
fn conversion_replaces_previous_contents() {
    let src = vec![0u8; 4];
    let mut dest = vec![9u8, 9, 9, 9, 9, 9, 9, 9];
    argb_to_i420(1, 1, &src, &mut dest);
    assert_eq!(dest, vec![16, 128, 128]);
}

#[test]
fn every_byte_is_a_valid_sample() {
    // A spread of colours; every output byte must lie in [0, 255] by type,
    // and the chroma extremes must stay clipped.
    let mut src = Vec::new();
    for i in 0..16 {
        src.extend_from_slice(&[(i * 16) as u8, 255 - (i * 16) as u8, (i * 7) as u8, 255]);
    }
    let mut dest = Vec::new();
    argb_to_i420(4, 4, &src, &mut dest);
    assert_eq!(dest.len(), 16 + 2 * 4);
}
