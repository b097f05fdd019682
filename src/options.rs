//! What a caller asks of a render, and how it is checked against the page.
use crate::error::RenderError;
use crate::geometry::{
    at_least_one_pixel_high, decode_points, one_pixel_high, points_of_bits, target_width,
    target_width_spec,
};
use vstd::prelude::*;

verus! {

/// Resolution used when the caller names none, in dots per inch.
pub const DEFAULT_DPI: i32 = 150;

/// A render request: which page, and at what resolution in dots per inch.
#[derive(Clone, Copy, Debug, PartialEq, Eq)]
pub struct RenderOptions {
    pub page_num: usize,
    pub dpi: Option<i32>,
}

/// The resolution a request asks for, the default where it names none.
pub open spec fn requested_dpi(dpi: Option<i32>) -> int {
    match dpi {
        Some(d) => d as int,
        None => DEFAULT_DPI as int,
    }
}

/// The resolution to render at; a resolution that is not positive is refused.
pub fn resolve_dpi(dpi: Option<i32>) -> (r: Result<u32, RenderError>)
    ensures
        requested_dpi(dpi) > 0 <==> r is Ok,
        r matches Ok(d) ==> d as int == requested_dpi(dpi),
        r is Err ==> r->Err_0 is InvalidRenderOptions,
{
    let d: i32 = match dpi {
        Some(d) => d,
        None => DEFAULT_DPI,
    };
    if d <= 0 {
        Err(RenderError::InvalidRenderOptions { reason: String::from_str("dpi must be positive") })
    } else {
        Ok(d as u32)
    }
}

/// The engine's index of page `page_num` of a document of `page_count` pages.
pub fn resolve_page(page_num: usize, page_count: u16) -> (r: Result<u16, RenderError>)
    ensures
        page_num < page_count <==> r is Ok,
        r matches Ok(i) ==> i as usize == page_num,
        r is Err ==> r == Err::<u16, RenderError>(
            RenderError::PageOutOfRange { index: page_num, page_count: page_count as usize },
        ),
{
    if page_num < page_count as usize {
        Ok(page_num as u16)
    } else {
        Err(RenderError::PageOutOfRange { index: page_num, page_count: page_count as usize })
    }
}

/// The pixel width to rasterize a page at, from the bits of its width and
/// height in points and the resolution; `None` where the page cannot give an
/// image: a width or height that is not a positive finite length, a width that
/// rounds to no pixel or exceeds what the engine takes, or a height under one
/// pixel at that width.
pub open spec fn raster_width_spec(width_bits: u32, height_bits: u32, dpi: int) -> Option<i32> {
    match (points_of_bits(width_bits), points_of_bits(height_bits)) {
        (Some(w), Some(h)) => match target_width_spec(w, dpi) {
            Some(t) => if at_least_one_pixel_high(h, w, t as int) {
                Some(t)
            } else {
                None
            },
            None => None,
        },
        _ => None,
    }
}

/// The pixel width to rasterize page `page_num` at, `round(width * dpi / 72)`;
/// a page that cannot give an image at that resolution fails to rasterize.
pub fn pixel_width(width_bits: u32, height_bits: u32, dpi: u32, page_num: usize) -> (r: Result<
    i32,
    RenderError,
>)
    ensures
        raster_width_spec(width_bits, height_bits, dpi as int) matches Some(t) ==> r == Ok::<
            i32,
            RenderError,
        >(t),
        raster_width_spec(width_bits, height_bits, dpi as int) is None ==> (r is Err && (r->Err_0 matches
            RenderError::RasterizationFailed { page_num: n, .. } && n == page_num)),
{
    let (w, h) = match (decode_points(width_bits), decode_points(height_bits)) {
        (Some(w), Some(h)) => (w, h),
        _ => {
            return Err(
                RenderError::RasterizationFailed {
                    page_num,
                    cause: String::from_str("page size is not a positive length"),
                },
            );
        },
    };
    match target_width(w, dpi) {
        Some(t) => {
            if one_pixel_high(h, w, t as u32) {
                Ok(t)
            } else {
                Err(
                    RenderError::RasterizationFailed {
                        page_num,
                        cause: String::from_str("page is under one pixel high at this resolution"),
                    },
                )
            }
        },
        None => Err(
            RenderError::RasterizationFailed {
                page_num,
                cause: String::from_str("resolution gives no usable image width for this page"),
            },
        ),
    }
}

} // verus!
