//! The shared engine: set up once, then handed to every request.
use crate::engine::{PdfInfo, PdfManager};
use crate::error::RenderError;
use crate::options::{requested_dpi, RenderOptions};
use crate::payload::{base64_of, png_data_uri_spec, png_header_says, RenderedPage};
use std::sync::Arc;
use vstd::prelude::*;

verus! {

/// Holds the one engine instance that all requests share, once it is set up.
/// Setting it up again is a no-op: the engine's startup cost is paid once.
pub struct EngineRegistry {
    manager: Option<Arc<PdfManager>>,
}

impl EngineRegistry {
    /// Whether the engine has been set up.
    pub closed spec fn initialized(&self) -> bool {
        self.manager is Some
    }

    /// A registry whose engine is not yet set up.
    pub fn new() -> (r: EngineRegistry)
        ensures
            !r.initialized(),
    {
        EngineRegistry { manager: None }
    }

    /// Whether the engine has been set up.
    pub fn is_initialized(&self) -> (r: bool)
        ensures
            r == self.initialized(),
    {
        self.manager.is_some()
    }
}

/// Sets up the shared engine unless it already is; a registry that is set up
/// is left as it was.
pub fn initialize_pdfium(registry: &mut EngineRegistry) -> (r: Result<(), RenderError>)
    ensures
        r is Ok <==> final(registry).initialized(),
        r matches Err(e) ==> e is EngineNotInitialized,
        old(registry).initialized() ==> r is Ok && *final(registry) == *old(registry),
        !old(registry).initialized() && r is Err ==> *final(registry) == *old(registry),
{
    if registry.manager.is_some() {
        return Ok(());
    }
    match PdfManager::new() {
        Ok(manager) => {
            registry.manager = Some(Arc::new(manager));
            Ok(())
        },
        Err(e) => Err(e),
    }
}

/// The shared engine, once it is set up.
pub fn get_pdf_manager(registry: &EngineRegistry) -> (r: Result<Arc<PdfManager>, RenderError>)
    ensures
        r is Ok <==> registry.initialized(),
        r matches Err(e) ==> e is EngineNotInitialized,
{
    match &registry.manager {
        Some(manager) => Ok(Arc::clone(manager)),
        None => Err(RenderError::EngineNotInitialized),
    }
}

/// Reports the size of the document `contents`, read from `path`, with the
/// shared engine.
pub fn get_pdf_info(registry: &EngineRegistry, path: &str, contents: Vec<u8>) -> (r: Result<
    PdfInfo,
    RenderError,
>)
    ensures
        !registry.initialized() ==> r == Err::<PdfInfo, RenderError>(
            RenderError::EngineNotInitialized,
        ),
        registry.initialized() ==> (r matches Err(e) ==> (e matches RenderError::DocumentLoadFailed {
            path: p,
            ..
        } && p@ == path@)),
        r matches Ok(info) ==> info.path@ == path@ && info.current_page == 0,
{
    match get_pdf_manager(registry) {
        Ok(manager) => manager.get_pdf_info(path, contents),
        Err(e) => Err(e),
    }
}

/// Renders a page of the document `contents`, read from `path`, as `options`
/// ask, with the shared engine.
pub fn render_pdf_page(registry: &EngineRegistry, path: &str, contents: Vec<u8>, options: &RenderOptions) -> (r:
    Result<RenderedPage, RenderError>)
    ensures
        !registry.initialized() ==> r == Err::<RenderedPage, RenderError>(
            RenderError::EngineNotInitialized,
        ),
        r matches Err(e) ==> (e is EngineNotInitialized ==> !registry.initialized()),
        registry.initialized() ==> ((r is Err && r->Err_0 is InvalidRenderOptions) <==> requested_dpi(
            options.dpi,
        ) <= 0),
        r matches Ok(pg) ==> {
            &&& pg.page_num == options.page_num
            &&& pg.width > 0
            &&& pg.height > 0
            &&& exists|png: Seq<u8>|
                pg.image_data@ == png_data_uri_spec(base64_of(png)) && png_header_says(
                    png,
                    pg.width,
                    pg.height,
                )
        },
        r matches Err(e) ==> (e matches RenderError::DocumentLoadFailed { path: p, .. } ==> p@
            == path@),
        r matches Err(e) ==> (e matches RenderError::RasterizationFailed { page_num: n, .. } ==> n
            == options.page_num),
        r matches Err(e) ==> (e matches RenderError::PageOutOfRange { index, page_count } ==> (
        index == options.page_num && options.page_num >= page_count)),
{
    match get_pdf_manager(registry) {
        Ok(manager) => manager.render_page(path, contents, options.page_num, options.dpi),
        Err(e) => Err(e),
    }
}

} // verus!
