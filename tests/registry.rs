use oversee_pdf::error::RenderError;
use oversee_pdf::options::RenderOptions;
use oversee_pdf::registry::{
    get_pdf_info, get_pdf_manager, initialize_pdfium, render_pdf_page, EngineRegistry,
};

#[test]
fn new_registry_is_not_initialized() {
    let registry = EngineRegistry::new();
    assert!(!registry.is_initialized());
    assert!(matches!(get_pdf_manager(&registry), Err(RenderError::EngineNotInitialized)));
}

#[test]
fn render_before_initialization_fails() {
    let registry = EngineRegistry::new();
    let options = RenderOptions { page_num: 0, dpi: None };
    assert_eq!(
        render_pdf_page(&registry, "doc.pdf", b"%PDF-1.4".to_vec(), &options),
        Err(RenderError::EngineNotInitialized)
    );
    assert_eq!(
        get_pdf_info(&registry, "doc.pdf", Vec::new()),
        Err(RenderError::EngineNotInitialized)
    );
}

#[test]
fn initialization_outcome_is_reflected_and_kept() {
    let mut registry = EngineRegistry::new();
    let first = initialize_pdfium(&mut registry);
    assert_eq!(first.is_ok(), registry.is_initialized());
    if registry.is_initialized() {
        assert_eq!(initialize_pdfium(&mut registry), Ok(()));
        assert!(registry.is_initialized());
        let options = RenderOptions { page_num: 0, dpi: Some(0) };
        assert!(matches!(
            render_pdf_page(&registry, "doc.pdf", Vec::new(), &options),
            Err(RenderError::InvalidRenderOptions { .. })
        ));
        assert!(matches!(
            get_pdf_info(&registry, "missing.pdf", Vec::new()),
            Err(RenderError::DocumentLoadFailed { .. })
        ));
    } else {
        assert_eq!(first, Err(RenderError::EngineNotInitialized));
    }
}
