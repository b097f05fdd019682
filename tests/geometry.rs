use oversee_pdf::geometry::{decode_points, one_pixel_high, target_width, PagePoints};
use oversee_pdf::options::pixel_width;
use oversee_pdf::error::RenderError;

fn points(width: f32) -> PagePoints {
    decode_points(width.to_bits()).expect("a positive finite width")
}

#[test]
fn decodes_letter_width_exactly() {
    let p = points(612.0);
    assert_eq!(p, PagePoints { mantissa: 612 * 16384, exponent: -14 });
}

#[test]
fn decodes_large_and_subnormal_widths() {
    assert_eq!(points(16777216.0 * 4.0), PagePoints { mantissa: 0x800000, exponent: 3 });
    assert_eq!(decode_points(1), Some(PagePoints { mantissa: 1, exponent: -149 }));
}

#[test]
fn rejects_widths_that_are_not_positive_lengths() {
    assert_eq!(decode_points(0.0f32.to_bits()), None);
    assert_eq!(decode_points((-0.0f32).to_bits()), None);
    assert_eq!(decode_points((-612.0f32).to_bits()), None);
    assert_eq!(decode_points(f32::INFINITY.to_bits()), None);
    assert_eq!(decode_points(f32::NAN.to_bits()), None);
}

#[test]
fn letter_page_at_default_dpi() {
    assert_eq!(pixel_width(612.0f32.to_bits(), 792.0f32.to_bits(), 150, 0), Ok(1275));
}

#[test]
fn a4_page_rounds_to_nearest_pixel() {
    assert_eq!(target_width(points(595.0), 150), Some(1240));
    assert_eq!(target_width(points(595.0), 72), Some(595));
    assert_eq!(target_width(points(595.0), 96), Some(793));
}

#[test]
fn fractional_width_scales_exactly() {
    // 595.5 points at 144 dpi is exactly 1191 pixels.
    assert_eq!(target_width(points(595.5), 144), Some(1191));
}

#[test]
fn halves_round_up() {
    // 36 points at 1 dpi is half a pixel.
    assert_eq!(target_width(points(36.0), 1), Some(1));
    assert_eq!(target_width(points(35.0), 1), None);
}

#[test]
fn doubling_the_dpi_doubles_the_width_within_rounding() {
    let p = points(595.0);
    let w1 = target_width(p, 100).unwrap() as i64;
    let w2 = target_width(p, 200).unwrap() as i64;
    assert_eq!(w1, 826);
    assert_eq!(w2, 1653);
    assert!(w1 <= w2);
    assert!((2 * (100 * w2 - 200 * w1)).abs() <= 300);
}

#[test]
fn scaling_holds_over_a_range_of_dpi() {
    let p = points(611.5);
    for d1 in 1..400i64 {
        let d2 = d1 + 37;
        let w1 = target_width(p, d1 as u32).map_or(0, |w| w as i64);
        let w2 = target_width(p, d2 as u32).map_or(0, |w| w as i64);
        assert!(w1 <= w2);
        assert!((2 * (d1 * w2 - d2 * w1)).abs() <= d1 + d2);
    }
}

#[test]
fn zero_width_image_is_refused() {
    assert!(matches!(
        pixel_width(0.1f32.to_bits(), 0.1f32.to_bits(), 1, 2),
        Err(RenderError::RasterizationFailed { page_num: 2, .. })
    ));
    assert_eq!(target_width(points(612.0), 0), None);
    assert_eq!(target_width(PagePoints { mantissa: 1, exponent: -149 }, 0x7fff_ffff), None);
}

#[test]
fn too_wide_image_is_refused() {
    assert!(matches!(
        pixel_width(f32::MAX.to_bits(), 10.0f32.to_bits(), 150, 0),
        Err(RenderError::RasterizationFailed { page_num: 0, .. })
    ));
    assert_eq!(target_width(points(1.0e9), 300), None);
}

#[test]
fn malformed_page_width_fails_rasterization() {
    assert!(matches!(
        pixel_width(f32::NAN.to_bits(), 792.0f32.to_bits(), 150, 4),
        Err(RenderError::RasterizationFailed { page_num: 4, .. })
    ));
    assert!(matches!(
        pixel_width((-10.0f32).to_bits(), 792.0f32.to_bits(), 150, 1),
        Err(RenderError::RasterizationFailed { page_num: 1, .. })
    ));
}

#[test]
fn malformed_page_height_fails_rasterization() {
    assert!(matches!(
        pixel_width(612.0f32.to_bits(), 0.0f32.to_bits(), 150, 3),
        Err(RenderError::RasterizationFailed { page_num: 3, .. })
    ));
    assert!(matches!(
        pixel_width(612.0f32.to_bits(), f32::INFINITY.to_bits(), 150, 3),
        Err(RenderError::RasterizationFailed { page_num: 3, .. })
    ));
}

#[test]
fn page_under_one_pixel_high_fails_rasterization() {
    // 612 x 0.1 points at 150 dpi: 1275 pixels wide, about 0.21 pixels high.
    assert!(matches!(
        pixel_width(612.0f32.to_bits(), 0.1f32.to_bits(), 150, 5),
        Err(RenderError::RasterizationFailed { page_num: 5, .. })
    ));
    // 612 x 0.5 points at 150 dpi is just over one pixel high.
    assert_eq!(pixel_width(612.0f32.to_bits(), 0.5f32.to_bits(), 150, 5), Ok(1275));
}

#[test]
fn one_pixel_high_compares_exactly() {
    let w = points(612.0);
    // At 612 pixels wide a page of height h points is h pixels high.
    assert!(one_pixel_high(points(1.0), w, 612));
    assert!(!one_pixel_high(points(0.999), w, 612));
    assert!(one_pixel_high(points(1.0e30), w, 1));
    assert!(!one_pixel_high(points(1.0e-30), w, 0x7fff_ffff));
    assert!(!one_pixel_high(points(1.0), w, 0));
    assert!(one_pixel_high(w, points(1.0e-30), 1));
}
