use vstd::prelude::*;

verus! {

/// Why an info or render request failed.
#[derive(Debug, PartialEq, Eq)]
pub enum RenderError {
    /// The shared engine has not been set up.
    EngineNotInitialized,
    /// The document could not be read or opened.
    DocumentLoadFailed { path: String, cause: String },
    /// The requested page lies outside the document.
    PageOutOfRange { index: usize, page_count: usize },
    /// The caller's options cannot give an image.
    InvalidRenderOptions { reason: String },
    /// The engine could not produce a bitmap for the page.
    RasterizationFailed { page_num: usize, cause: String },
    /// The bitmap could not be encoded as an image file.
    EncodingFailed { cause: String },
}

} // verus!
