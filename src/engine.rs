//! The rendering engine: opening documents, resolving pages, rasterizing
//! them and reading their text.
use crate::error::RenderError;
use crate::options::{pixel_width, requested_dpi, resolve_dpi, resolve_page};
use crate::payload::{
    assemble_page, base64_encode, base64_of, png_data_uri_spec, png_header_says, RenderedPage,
};
use crate::text::{page_diagnostic, page_diagnostic_spec, text_or_empty};
use image::{DynamicImage, ImageError, ImageFormat};
use pdfium_render::prelude::{PdfBitmap, PdfDocument, PdfPage, PdfRenderConfig, Pdfium, PdfiumError};
use std::io::Cursor;
use vstd::prelude::*;

verus! {

#[verifier::external_type_specification]
#[verifier::external_body]
pub struct ExPdfium(Pdfium);

#[verifier::external_type_specification]
#[verifier::external_body]
pub struct ExPdfDocument<'a>(PdfDocument<'a>);

#[verifier::external_type_specification]
#[verifier::external_body]
pub struct ExPdfPage<'a>(PdfPage<'a>);

#[verifier::external_type_specification]
#[verifier::external_body]
pub struct ExPdfBitmap<'a>(PdfBitmap<'a>);

#[verifier::external_type_specification]
#[verifier::external_body]
pub struct ExPdfiumError(PdfiumError);

#[verifier::external_type_specification]
#[verifier::external_body]
pub struct ExDynamicImage(DynamicImage);

#[verifier::external_type_specification]
#[verifier::external_body]
pub struct ExImageError(ImageError);

/// Relies on `Pdfium::bind_to_library`, `Pdfium::bind_to_system_library` and
/// `Pdfium::new`: loads the pdfium library in the working directory, else the
/// system's, or reports why neither could be loaded.
#[verifier::external_body]
fn bind_engine() -> (r: Result<Pdfium, PdfiumError>) {
    let local = Pdfium::bind_to_library(Pdfium::pdfium_platform_library_name_at_path("./"));
    match local.or_else(|_| Pdfium::bind_to_system_library()) {
        Ok(bindings) => Ok(Pdfium::new(bindings)),
        Err(e) => Err(e),
    }
}

/// Relies on `Pdfium::load_pdf_from_byte_vec`: opens a document held in memory.
#[verifier::external_body]
fn load_document(engine: &Pdfium, contents: Vec<u8>) -> (r: Result<PdfDocument<'_>, PdfiumError>) {
    engine.load_pdf_from_byte_vec(contents, None)
}

/// Relies on `PdfDocument::pages` and `PdfPages::len`: the number of pages.
#[verifier::external_body]
fn document_page_count(document: &PdfDocument<'_>) -> (r: u16) {
    document.pages().len()
}

/// Relies on `PdfDocument::pages` and `PdfPages::get`: loads one page.
#[verifier::external_body]
fn document_page<'a>(document: &PdfDocument<'a>, index: u16) -> (r: Result<PdfPage<'a>, PdfiumError>) {
    document.pages().get(index)
}

/// Relies on `PdfPage::width`: the page width in points, as the bits of the
/// single-precision float that pdfium reports.
#[verifier::external_body]
fn page_width_bits(page: &PdfPage<'_>) -> (r: u32) {
    page.width().value.to_bits()
}

/// Relies on `PdfPage::height`: the page height in points, as the bits of the
/// single-precision float that pdfium reports.
#[verifier::external_body]
fn page_height_bits(page: &PdfPage<'_>) -> (r: u32) {
    page.height().value.to_bits()
}

/// Relies on `PdfPage::text` and `PdfPageText::all`: the page's characters in
/// document order, or the error met loading its text layer.
#[verifier::external_body]
fn page_text(page: &PdfPage<'_>) -> (r: Result<String, PdfiumError>) {
    match page.text() {
        Ok(text) => Ok(text.all()),
        Err(e) => Err(e),
    }
}

/// Relies on `PdfRenderConfig::set_target_width` and
/// `PdfPage::render_with_config`: rasterizes the page `width` pixels wide,
/// its height following from the page's aspect ratio.
#[verifier::external_body]
fn rasterize<'b>(page: &'b PdfPage<'_>, width: i32) -> (r: Result<PdfBitmap<'b>, PdfiumError>) {
    page.render_with_config(&PdfRenderConfig::new().set_target_width(width))
}

/// Relies on `PdfBitmap::as_image`: the bitmap as an image of the same size.
#[verifier::external_body]
fn bitmap_image(bitmap: &PdfBitmap<'_>) -> (r: DynamicImage) {
    bitmap.as_image()
}

/// Relies on `DynamicImage::width`, `DynamicImage::height` and
/// `DynamicImage::write_to` with `ImageFormat::Png`: the image's size, and the
/// image as the bytes of a PNG file, whose signature and header chunk the png
/// encoder writes first, with that size.
#[verifier::external_body]
fn encode_png(image: &DynamicImage) -> (r: Result<(u32, u32, Vec<u8>), ImageError>)
    ensures
        r matches Ok((w, h, b)) ==> png_header_says(b@, w, h),
{
    let mut buffer: Vec<u8> = Vec::new();
    match image.write_to(&mut Cursor::new(&mut buffer), ImageFormat::Png) {
        Ok(()) => Ok((image.width(), image.height(), buffer)),
        Err(e) => Err(e),
    }
}

/// Relies on `PdfiumError`'s `Display`: a description of the error.
#[verifier::external_body]
fn describe_engine_error(e: &PdfiumError) -> (r: String) {
    format!("{}", e)
}

/// Relies on `ImageError`'s `Display`: a description of the error.
#[verifier::external_body]
fn describe_image_error(e: &ImageError) -> (r: String) {
    format!("{}", e)
}

/// The text of a page, best effort: a page whose text layer cannot be read
/// gives the empty string.
pub fn extract_text(page: &PdfPage<'_>) -> (r: String) {
    text_or_empty(text_layer(page))
}

/// The page's text layer, `None` where it cannot be read.
fn text_layer(page: &PdfPage<'_>) -> (r: Option<String>) {
    match page_text(page) {
        Ok(text) => Some(text),
        Err(_) => None,
    }
}

/// The rendered page from what encoding its bitmap as a PNG gave: the size
/// and the PNG file, or the encoder's error. An empty bitmap is no image.
pub fn page_from_png(page_num: usize, encoded: Result<(u32, u32, Vec<u8>), ImageError>) -> (r: Result<
    RenderedPage,
    RenderError,
>)
    ensures
        encoded is Err ==> (r is Err && r->Err_0 is EncodingFailed),
        encoded matches Ok((w, h, b)) ==> match r {
            Ok(pg) => {
                &&& w > 0 && h > 0
                &&& pg.image_data@ == png_data_uri_spec(base64_of(b@))
                &&& pg.width == w
                &&& pg.height == h
                &&& pg.page_num == page_num
            },
            Err(e) => (w == 0 || h == 0) && (e matches RenderError::RasterizationFailed {
                page_num: n,
                ..
            } && n == page_num),
        },
{
    match encoded {
        Err(e) => Err(RenderError::EncodingFailed { cause: describe_image_error(&e) }),
        Ok((width, height, png)) => {
            let text = base64_encode(&png);
            assemble_page(page_num, width, height, text.as_str())
        },
    }
}

/// Encodes a rasterized page for transport: its size as rasterized, and the
/// image as a PNG, of that size, in a base64 data URI.
pub fn encode_page(image: &DynamicImage, page_num: usize) -> (r: Result<RenderedPage, RenderError>)
    ensures
        r matches Ok(pg) ==> {
            &&& pg.page_num == page_num
            &&& pg.width > 0
            &&& pg.height > 0
            &&& exists|png: Seq<u8>|
                pg.image_data@ == png_data_uri_spec(base64_of(png)) && png_header_says(
                    png,
                    pg.width,
                    pg.height,
                )
        },
        r matches Err(e) ==> (e matches RenderError::RasterizationFailed { page_num: n, .. } ==> n
            == page_num),
        r matches Err(e) ==> (e is RasterizationFailed || e is EncodingFailed),
{
    let encoded = encode_png(image);
    let ghost png = encoded->Ok_0.2@;
    let r = page_from_png(page_num, encoded);
    proof {
        if r is Ok {
            assert(png_header_says(png, r->Ok_0.width, r->Ok_0.height));
        }
    }
    r
}

#[derive(Debug, PartialEq, Eq)]
pub struct PdfInfo {
    pub path: String,
    pub page_count: usize,
    pub current_page: usize,
}

/// The facts of a document read from `path` with `count` pages, opened at
/// its first page.
pub fn pdf_info(path: &str, count: u16) -> (r: PdfInfo)
    ensures
        r.path@ == path@,
        r.page_count == count as usize,
        r.current_page == 0,
{
    PdfInfo { path: String::from_str(path), page_count: count as usize, current_page: 0 }
}

/// Owns one instance of the pdfium engine. Documents are opened afresh for
/// every request and closed when it ends.
pub struct PdfManager {
    pdfium: Pdfium,
}

impl PdfManager {
    /// Binds the system's pdfium library.
    pub fn new() -> (r: Result<PdfManager, RenderError>)
        ensures
            r matches Err(e) ==> e is EngineNotInitialized,
    {
        match bind_engine() {
            Ok(pdfium) => Ok(PdfManager { pdfium }),
            Err(_) => Err(RenderError::EngineNotInitialized),
        }
    }

    /// Opens the document `contents`, read from `path`, and reports its size.
    pub fn get_pdf_info(&self, path: &str, contents: Vec<u8>) -> (r: Result<PdfInfo, RenderError>)
        ensures
            r matches Ok(info) ==> info.path@ == path@ && info.current_page == 0,
            r matches Err(e) ==> (e matches RenderError::DocumentLoadFailed { path: p, .. } && p@
                == path@),
    {
        match load_document(&self.pdfium, contents) {
            Err(e) => Err(
                RenderError::DocumentLoadFailed {
                    path: String::from_str(path),
                    cause: describe_engine_error(&e),
                },
            ),
            Ok(document) => Ok(pdf_info(path, document_page_count(&document))),
        }
    }

    /// Renders page `page_num` of the document `contents`, read from `path`,
    /// at `dpi` dots per inch (150 where `None`): the page is rasterized
    /// `round(width in points * dpi / 72)` pixels wide, its height following
    /// from its aspect ratio, and encoded as a PNG data URI. A resolution that
    /// is not positive is refused before the document is opened; a page that
    /// would come out with no pixel of width or height fails to rasterize.
    pub fn render_page(&self, path: &str, contents: Vec<u8>, page_num: usize, dpi: Option<i32>) -> (r:
        Result<RenderedPage, RenderError>)
        ensures
            (r is Err && r->Err_0 is InvalidRenderOptions) <==> requested_dpi(dpi) <= 0,
            r matches Ok(pg) ==> {
                &&& requested_dpi(dpi) > 0
                &&& pg.page_num == page_num
                &&& pg.width > 0
                &&& pg.height > 0
                &&& exists|png: Seq<u8>|
                    pg.image_data@ == png_data_uri_spec(base64_of(png)) && png_header_says(
                        png,
                        pg.width,
                        pg.height,
                    )
            },
            r matches Err(e) ==> (e matches RenderError::PageOutOfRange { index, page_count } ==> (
            index == page_num && page_num >= page_count)),
            r matches Err(e) ==> (e matches RenderError::DocumentLoadFailed { path: p, .. } ==> p@
                == path@),
            r matches Err(e) ==> (e matches RenderError::RasterizationFailed { page_num: n, .. } ==> n
                == page_num),
            r matches Err(e) ==> !(e is EngineNotInitialized),
    {
        let dpi = match resolve_dpi(dpi) {
            Ok(d) => d,
            Err(e) => return Err(e),
        };
        let document = match load_document(&self.pdfium, contents) {
            Ok(document) => document,
            Err(e) => {
                return Err(
                    RenderError::DocumentLoadFailed {
                        path: String::from_str(path),
                        cause: describe_engine_error(&e),
                    },
                );
            },
        };
        let index = match resolve_page(page_num, document_page_count(&document)) {
            Ok(i) => i,
            Err(e) => return Err(e),
        };
        let page = match document_page(&document, index) {
            Ok(page) => page,
            Err(e) => {
                return Err(
                    RenderError::RasterizationFailed { page_num, cause: describe_engine_error(&e) },
                );
            },
        };
        let width = match pixel_width(page_width_bits(&page), page_height_bits(&page), dpi, page_num) {
            Ok(w) => w,
            Err(e) => return Err(e),
        };
        let bitmap = match rasterize(&page, width) {
            Ok(bitmap) => bitmap,
            Err(e) => {
                return Err(
                    RenderError::RasterizationFailed { page_num, cause: describe_engine_error(&e) },
                );
            },
        };
        encode_page(&bitmap_image(&bitmap), page_num)
    }

    /// The text of page `page_num` of the document `contents`, read from
    /// `path`; best effort once the page is found.
    pub fn page_text(&self, path: &str, contents: Vec<u8>, page_num: usize) -> (r: Result<String, RenderError>)
        ensures
            r matches Err(e) ==> (e matches RenderError::PageOutOfRange { index, page_count } ==> (
            index == page_num && page_num >= page_count)),
            r matches Err(e) ==> (e matches RenderError::DocumentLoadFailed { path: p, .. } ==> p@
                == path@),
            r matches Err(e) ==> (e is DocumentLoadFailed || e is PageOutOfRange || e is RasterizationFailed),
    {
        let document = match load_document(&self.pdfium, contents) {
            Ok(document) => document,
            Err(e) => {
                return Err(
                    RenderError::DocumentLoadFailed {
                        path: String::from_str(path),
                        cause: describe_engine_error(&e),
                    },
                );
            },
        };
        let index = match resolve_page(page_num, document_page_count(&document)) {
            Ok(i) => i,
            Err(e) => return Err(e),
        };
        match document_page(&document, index) {
            Ok(page) => Ok(extract_text(&page)),
            Err(e) => Err(RenderError::RasterizationFailed { page_num, cause: describe_engine_error(&e) }),
        }
    }
}

/// Reads the text layer of pages, for diagnostics.
pub struct Parse {
    pdfium: Pdfium,
}

impl Parse {
    /// Binds the system's pdfium library.
    pub fn new() -> (r: Result<Parse, RenderError>)
        ensures
            r matches Err(e) ==> e is EngineNotInitialized,
    {
        match bind_engine() {
            Ok(pdfium) => Ok(Parse { pdfium }),
            Err(_) => Err(RenderError::EngineNotInitialized),
        }
    }

    /// The diagnostic for page `page_num`: its banner, then its text, or no
    /// text where the page's text layer cannot be read.
    pub fn parse(&self, page_num: usize, page: &PdfPage<'_>) -> (r: String)
        ensures
            exists|t: Seq<char>| r@ == page_diagnostic_spec(page_num as nat, t),
    {
        let layer = text_layer(page);
        let ghost t = if layer is Some {
            layer->Some_0@
        } else {
            Seq::<char>::empty()
        };
        let r = page_diagnostic(page_num, layer);
        proof {
            assert(r@ == page_diagnostic_spec(page_num as nat, t));
        }
        r
    }
}

} // verus!
