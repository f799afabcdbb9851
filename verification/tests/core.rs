//! Tests of the scaling transform, the coordinate mapping and the pixel
//! buffer, on concrete values.

use pixels::buffer::{get_texture_format_size, PixelBuffer, TextureFormat};
use pixels::coord;
use pixels::pixels::Pixels;
use pixels::transform::ScalingTransform;

/// Texture 320x240 on a 1024x768 surface: the integer scale factor is 3,
/// since 3*320 = 960 <= 1024 but 4*320 = 1280 > 1024.
#[test]
fn integer_scale_example() {
    let t = ScalingTransform::compute(320, 240, 1024, 768);
    assert_eq!(t.scale_num, 3);
    assert_eq!(t.scale_den, 1);
}

/// The forward matrix for the example: the scaled extent over the surface
/// extent on each axis.
#[test]
fn forward_matrix_example() {
    let t = ScalingTransform::compute(320, 240, 1024, 768);
    let f = t.forward();
    assert_eq!((f.x_num, f.x_den), (960, 1024));
    assert_eq!((f.y_num, f.y_den), (720, 768));
}

/// The horizontal margin of the example is (1024 - 960) / 2 = 32 physical
/// pixels: pixel column 0 lands at 32, and the last pixel column lands at
/// 1024 - 32 = 992, inset by the same margin.
#[test]
fn corners_inset_by_margin() {
    let t = ScalingTransform::compute(320, 240, 1024, 768);
    let ((x0_num, x0_den), (y0_num, y0_den)) = t.pixel_to_surface(0, 0);
    assert_eq!(x0_num / x0_den, 32);
    assert_eq!(x0_num % x0_den, 0);
    assert_eq!(y0_num / y0_den, 24);
    assert_eq!(y0_num % y0_den, 0);
    let ((x1_num, x1_den), (y1_num, y1_den)) = t.pixel_to_surface(320, 240);
    assert_eq!(x1_num / x1_den, 1024 - 32);
    assert_eq!(x1_num % x1_den, 0);
    assert_eq!(y1_num / y1_den, 768 - 24);
    assert_eq!(y1_num % y1_den, 0);
}

/// The forward matrix entries multiplied by the inverse matrix entries give
/// exactly one on both axes.
#[test]
fn forward_inverse_is_identity() {
    for (tw, th, sw, sh) in [
        (320u32, 240u32, 1024u32, 768u32),
        (320, 240, 300, 200),
        (640, 480, 640, 480),
        (1, 1, u32::MAX, u32::MAX),
        (u32::MAX, u32::MAX, 1, 1),
        (256, 240, 1920, 1080),
    ] {
        let t = ScalingTransform::compute(tw, th, sw, sh);
        let f = t.forward();
        let i = t.inverse();
        assert_eq!(f.x_num as u128 * i.x_num as u128, f.x_den as u128 * i.x_den as u128);
        assert_eq!(f.y_num as u128 * i.y_num as u128, f.y_den as u128 * i.y_den as u128);
        assert_ne!(f.x_num, 0);
        assert_ne!(f.y_num, 0);
    }
}

/// When the surface is smaller than the texture, the scale falls back to the
/// exact ratio that fills the limiting dimension.
#[test]
fn fallback_scale_fills_limiting_dimension() {
    // Width-limited: 300/320 < 200/240 is false (0.9375 vs 0.8333), so the
    // height is limiting: scale = 200/240.
    let t = ScalingTransform::compute(320, 240, 300, 200);
    assert_eq!((t.scale_num, t.scale_den), (200, 240));
    // The scaled height fills the surface height exactly.
    assert_eq!(t.scale_num * t.texture_height as u64, t.scale_den * t.surface_height as u64);
    // The scaled width fits: 320 * 200/240 = 266.67 <= 300.
    assert!(t.scale_num * t.texture_width as u64 <= t.scale_den * t.surface_width as u64);
}

/// Across a sweep of extents the scaled texture always fits the surface,
/// and in the integer case one more scaling step would overrun some axis.
#[test]
fn scale_fits_and_is_maximal() {
    for tw in [1u32, 7, 320, 1000] {
        for th in [1u32, 9, 240, 1080] {
            for sw in [1u32, 13, 320, 1024, 5000] {
                for sh in [1u32, 17, 768, 2160] {
                    let t = ScalingTransform::compute(tw, th, sw, sh);
                    assert!(t.scale_num * tw as u64 <= t.scale_den * sw as u64);
                    assert!(t.scale_num * th as u64 <= t.scale_den * sh as u64);
                    if tw <= sw && th <= sh {
                        assert_eq!(t.scale_den, 1);
                        assert!(t.scale_num >= 1);
                        assert!(
                            (t.scale_num + 1) * tw as u64 > sw as u64
                                || (t.scale_num + 1) * th as u64 > sh as u64
                        );
                    } else {
                        assert!(t.scale_num < t.scale_den);
                        assert!(
                            t.scale_num * tw as u64 == t.scale_den * sw as u64
                                || t.scale_num * th as u64 == t.scale_den * sh as u64
                        );
                    }
                }
            }
        }
    }
}

/// After a resize, the coordinate mapping follows the new transform.
#[test]
fn window_mapping_follows_resize() {
    let mut p = pixels::Pixels::new(320, 240, 1024, 768);
    assert_eq!(p.window_pos_to_pixel((512, 384)), Ok((160, 120)));
    p.resize(320, 240);
    // Scale 1 and no margins: the mapping is the identity on x and the flip
    // `y -> 240 - y` on the vertical axis, whose top edge lands out of
    // bounds.
    assert_eq!(p.window_pos_to_pixel((160, 120)), Ok((160, 120)));
    assert_eq!(p.window_pos_to_pixel((0, 239)), Ok((0, 1)));
    assert_eq!(p.window_pos_to_pixel((0, 0)), Err((0, 240)));
}

/// Clamping the documented example positions on a 320x240 buffer: a negative
/// coordinate clamps to 0 and an overshoot clamps to the largest pixel
/// index, not to the dimension.
#[test]
fn clamp_pixel_pos_examples() {
    let p = Pixels::new(320, 240, 1024, 768);
    assert_eq!(p.clamp_pixel_pos((-19, 20)), (0, 20));
    assert_eq!(p.clamp_pixel_pos((11, 3000)), (11, 239));
}

/// Clamping an in-range position is a no-op, and a clamped position is
/// always inside the buffer.
#[test]
fn clamp_is_noop_in_range() {
    let p = Pixels::new(320, 240, 1024, 768);
    assert_eq!(p.clamp_pixel_pos((0, 0)), (0, 0));
    assert_eq!(p.clamp_pixel_pos((319, 239)), (319, 239));
    let (cx, cy) = p.clamp_pixel_pos((isize::MIN, isize::MAX));
    assert!(cx < 320 && cy < 240);
}

/// The center of the window maps to the center of the pixel buffer.
#[test]
fn window_center_maps_to_buffer_center() {
    let p = Pixels::new(320, 240, 1024, 768);
    assert_eq!(p.window_pos_to_pixel((512, 384)), Ok((160, 120)));
}

/// A position inside the margins maps to out-of-range coordinates, handed
/// back signed; the mapping floors toward negative infinity, so the window
/// origin lands at column -11, not -10. Clamping recovers an in-buffer
/// position.
#[test]
fn window_origin_is_out_of_bounds() {
    let p = Pixels::new(320, 240, 1024, 768);
    let err = p.window_pos_to_pixel((0, 0));
    assert_eq!(err, Err((-11, 248)));
    let clamped = p.clamp_pixel_pos(err.unwrap_err());
    assert_eq!(clamped, (0, 239));
}

/// An off-center in-bounds position, floored to pixel indices.
#[test]
fn window_pos_in_bounds_floors() {
    let p = Pixels::new(320, 240, 1024, 768);
    // x: ((2*100 - 1024) + 320*3) / 6 = 136 / 6 -> 22
    // y: ((768 - 2*400) + 240*3) / 6 = 688 / 6 -> 114
    assert_eq!(p.window_pos_to_pixel((100, 400)), Ok((22, 114)));
}

/// Every mapped coordinate of an ordinary setup fits the signed range; an
/// extreme downscale with an astronomically distant position does not.
#[test]
fn window_pos_fits_bounds() {
    let p = Pixels::new(320, 240, 1024, 768);
    assert!(p.window_pos_fits((0, 0)));
    assert!(p.window_pos_fits((isize::MIN, isize::MAX)));
    let t = ScalingTransform::compute(u32::MAX, 1, 1, 1);
    assert!(!coord::window_pos_fits(&t, (isize::MAX, 0)));
}

/// Texel sizes of each format class.
#[test]
fn texture_format_sizes() {
    assert_eq!(get_texture_format_size(TextureFormat::R8Unorm), 1);
    assert_eq!(get_texture_format_size(TextureFormat::Rg8Snorm), 2);
    assert_eq!(get_texture_format_size(TextureFormat::R16Float), 2);
    assert_eq!(get_texture_format_size(TextureFormat::Rgba8UnormSrgb), 4);
    assert_eq!(get_texture_format_size(TextureFormat::Bgra8UnormSrgb), 4);
    assert_eq!(get_texture_format_size(TextureFormat::Depth24PlusStencil8), 4);
    assert_eq!(get_texture_format_size(TextureFormat::Rgba16Float), 8);
    assert_eq!(get_texture_format_size(TextureFormat::Rg32Uint), 8);
    assert_eq!(get_texture_format_size(TextureFormat::Rgba32Float), 16);
}

/// A new pixel buffer holds exactly width * height * texel-size bytes, all
/// zero.
#[test]
fn pixel_buffer_zeroed_with_exact_length() {
    let buffer = PixelBuffer::new(320, 240, TextureFormat::Rgba8UnormSrgb);
    assert_eq!(buffer.byte_len(), 320 * 240 * 4);
    assert!(buffer.bytes.iter().all(|&b| b == 0));
    let single = PixelBuffer::new(7, 3, TextureFormat::R8Unorm);
    assert_eq!(single.byte_len(), 21);
}

/// The frame keeps what the caller wrote until overwritten.
#[test]
fn get_frame_retains_contents() {
    let mut p = Pixels::new(2, 2, 10, 10);
    assert_eq!(p.get_frame().len(), 16);
    p.get_frame()[0] = 0xab;
    p.get_frame()[15] = 0xcd;
    assert_eq!(p.get_frame()[0], 0xab);
    assert_eq!(p.get_frame()[15], 0xcd);
}
