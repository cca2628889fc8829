use filegrid::document::{background_document, render_document, SvgDocument, SvgRectangle};

#[test]
fn background_covers_full_canvas() {
    let d = background_document();
    assert_eq!(d.viewbox_width_px, 10560);
    assert_eq!(d.viewbox_height_px, 16320);
    assert_eq!(d.background.width_px, d.viewbox_width_px);
    assert_eq!(d.background.height_px, d.viewbox_height_px);
}

#[test]
fn renders_page_document_exactly() {
    let text = render_document(&background_document());
    assert_eq!(
        text,
        "<svg viewBox=\"0 0 10560 16320\" xmlns=\"http://www.w3.org/2000/svg\">\n\
         <rect fill=\"white\" height=\"16320\" width=\"10560\"/>\n\
         </svg>"
    );
}

#[test]
fn rendered_text_reflects_document_fields() {
    let d = SvgDocument {
        viewbox_width_px: 12,
        viewbox_height_px: 34,
        background: SvgRectangle { width_px: 56, height_px: 78 },
    };
    let text = render_document(&d);
    assert!(text.contains("viewBox=\"0 0 12 34\""));
    assert!(text.contains("width=\"56\""));
    assert!(text.contains("height=\"78\""));
    assert!(text.contains("fill=\"white\""));
    assert!(text.starts_with("<svg"));
    assert!(text.ends_with("</svg>"));
}
