//! Builds the output document: a page-sized canvas holding one white
//! background rectangle, rendered to SVG text.

use vstd::prelude::*;

verus! {

/// A filled rectangle, sized in pixels. Its fill colour is fixed to white
/// when the document is rendered.
#[derive(Clone, Copy, Debug, PartialEq, Eq, Structural)]
pub struct SvgRectangle {
    pub width_px: u64,
    pub height_px: u64,
}

/// The output document: a view box and a single background rectangle.
#[derive(Clone, Copy, Debug, PartialEq, Eq, Structural)]
pub struct SvgDocument {
    pub viewbox_width_px: u64,
    pub viewbox_height_px: u64,
    pub background: SvgRectangle,
}

/// The background document for the fixed page: the view box equals the page
/// pixel dimensions, and the rectangle covers the full canvas. The grid
/// parameters play no part here: the drawn document depends on the page
/// alone.
pub fn background_document() -> (d: SvgDocument)
    ensures
        d.viewbox_width_px == crate::geometry::spec_page_width_px(),
        d.viewbox_height_px == crate::geometry::spec_page_height_px(),
        d.background.width_px == d.viewbox_width_px,
        d.background.height_px == d.viewbox_height_px,
{
    let w: u64 = crate::geometry::page_width_px();
    let h: u64 = crate::geometry::page_height_px();
    SvgDocument {
        viewbox_width_px: w,
        viewbox_height_px: h,
        background: SvgRectangle { width_px: w, height_px: h },
    }
}

/// The SVG text of a document whose view box is `0 0 vw vh` and whose one
/// child is a `rect` of size `rw` x `rh` filled with `fill`, as the svg
/// crate renders it.
pub uninterp spec fn svg_text(vw: int, vh: int, rw: int, rh: int, fill: Seq<char>) -> Seq<char>;

/// Relies on svg::Document, svg::node::element::Rectangle and their Display
/// impls: an element writes its attributes sorted by name and its children
/// in order, so the text is a function of the attribute values alone.
#[verifier::external_body]
fn render_svg(vw: u64, vh: u64, rw: u64, rh: u64, fill: &str) -> (r: String)
    ensures
        r@ == svg_text(vw as int, vh as int, rw as int, rh as int, fill@),
{
    let background = svg::node::element::Rectangle::new()
        .set("width", rw)
        .set("height", rh)
        .set("fill", fill);
    let document = svg::Document::new()
        .set("viewBox", (0u64, 0u64, vw, vh))
        .add(background);
    document.to_string()
}

/// The fill colour of the background rectangle.
pub open spec fn white_fill() -> Seq<char> {
    "white"@
}

/// Renders the document to SVG text: the view box is `0 0` followed by the
/// view box dimensions, and the one child is the background rectangle,
/// filled white.
pub fn render_document(d: &SvgDocument) -> (r: String)
    ensures
        r@ == svg_text(
            d.viewbox_width_px as int,
            d.viewbox_height_px as int,
            d.background.width_px as int,
            d.background.height_px as int,
            white_fill(),
        ),
{
    render_svg(
        d.viewbox_width_px,
        d.viewbox_height_px,
        d.background.width_px,
        d.background.height_px,
        "white",
    )
}

} // verus!
