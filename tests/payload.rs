use base64::Engine;
use image::{DynamicImage, GenericImageView};
use oversee_pdf::engine::{encode_page, page_from_png, pdf_info};
use oversee_pdf::text::{page_diagnostic, text_or_empty};
use oversee_pdf::error::RenderError;
use oversee_pdf::payload::{assemble_page, png_data_uri, RenderedPage};

const PREFIX: &str = "data:image/png;base64,";

#[test]
fn data_uri_has_png_prefix() {
    assert_eq!(png_data_uri("abc="), "data:image/png;base64,abc=");
    assert_eq!(png_data_uri(""), PREFIX);
}

#[test]
fn assembled_page_keeps_its_fields() {
    let page = assemble_page(2, 10, 20, "xyz").unwrap();
    assert_eq!(
        page,
        RenderedPage {
            image_data: String::from("data:image/png;base64,xyz"),
            width: 10,
            height: 20,
            page_num: 2
        }
    );
}

#[test]
fn empty_bitmap_is_no_image() {
    assert!(matches!(
        assemble_page(5, 0, 20, "xyz"),
        Err(RenderError::RasterizationFailed { page_num: 5, .. })
    ));
    assert!(matches!(
        assemble_page(1, 20, 0, "xyz"),
        Err(RenderError::RasterizationFailed { page_num: 1, .. })
    ));
}

#[test]
fn encoded_page_decodes_to_its_own_size() {
    let image = DynamicImage::new_rgba8(10, 7);
    let page = encode_page(&image, 3).unwrap();
    assert_eq!(page.page_num, 3);
    assert_eq!((page.width, page.height), (10, 7));
    let body = page.image_data.strip_prefix(PREFIX).expect("a PNG data URI");
    let png = base64::engine::general_purpose::STANDARD.decode(body).unwrap();
    assert!(png.starts_with(&[0x89, b'P', b'N', b'G']));
    let decoded = image::load_from_memory(&png).unwrap();
    assert_eq!(decoded.dimensions(), (10, 7));
}

#[test]
fn encoded_payload_length_matches_base64() {
    let image = DynamicImage::new_rgb8(3, 4);
    let page = encode_page(&image, 0).unwrap();
    let body = &page.image_data[PREFIX.len()..];
    assert_eq!(body.len() % 4, 0);
    assert!(!body.is_empty());
}

#[test]
fn empty_image_is_refused() {
    let image = DynamicImage::new_rgba8(0, 5);
    assert!(matches!(
        encode_page(&image, 9),
        Err(RenderError::RasterizationFailed { page_num: 9, .. })
            | Err(RenderError::EncodingFailed { .. })
    ));
}

#[test]
fn text_layer_or_empty_string() {
    assert_eq!(text_or_empty(Some(String::from("Hello, page"))), "Hello, page");
    assert_eq!(text_or_empty(Some(String::new())), "");
    assert_eq!(text_or_empty(None), "");
}

#[test]
fn encoded_png_header_gives_the_size() {
    let image = DynamicImage::new_rgb8(300, 2);
    let page = encode_page(&image, 0).unwrap();
    let png = base64::engine::general_purpose::STANDARD
        .decode(&page.image_data[PREFIX.len()..])
        .unwrap();
    assert_eq!(&png[0..8], &[0x89, 0x50, 0x4e, 0x47, 0x0d, 0x0a, 0x1a, 0x0a]);
    assert_eq!(&png[12..16], b"IHDR");
    assert_eq!(u32::from_be_bytes([png[16], png[17], png[18], png[19]]), 300);
    assert_eq!(u32::from_be_bytes([png[20], png[21], png[22], png[23]]), 2);
}

#[test]
fn page_from_png_keeps_size_and_encodes_bytes() {
    let page = page_from_png(4, Ok((2, 3, vec![1, 2, 3]))).unwrap();
    assert_eq!(page.image_data, "data:image/png;base64,AQID");
    assert_eq!((page.width, page.height, page.page_num), (2, 3, 4));
    let one = page_from_png(0, Ok((1, 1, vec![0xff]))).unwrap();
    assert_eq!(one.image_data, "data:image/png;base64,/w==");
    assert!(matches!(
        page_from_png(6, Ok((0, 3, vec![1]))),
        Err(RenderError::RasterizationFailed { page_num: 6, .. })
    ));
}

#[test]
fn pdf_info_reports_count_and_first_page() {
    assert_eq!(
        pdf_info("a/b.pdf", 3),
        oversee_pdf::engine::PdfInfo { path: String::from("a/b.pdf"), page_count: 3, current_page: 0 }
    );
}

#[test]
fn diagnostic_has_banner_and_text() {
    assert_eq!(
        page_diagnostic(0, Some(String::from("Hello"))),
        "=============== Page 0 ===============\nHello\n"
    );
    assert_eq!(
        page_diagnostic(1207, Some(String::from("a\nb"))),
        "=============== Page 1207 ===============\na\nb\n"
    );
}

#[test]
fn diagnostic_without_text_layer_has_empty_text() {
    assert_eq!(page_diagnostic(10, None), "=============== Page 10 ===============\n\n");
    assert_eq!(
        page_diagnostic(usize::MAX, None),
        format!("=============== Page {} ===============\n\n", usize::MAX)
    );
}
