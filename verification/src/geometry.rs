//! Converts the fixed physical page size to pixels and divides the canvas
//! into grid cells, all in exact integer and rational arithmetic.

use vstd::prelude::*;

verus! {

/// Page width: 279.4 physical units, kept in tenths so it is an integer.
pub const PAGE_WIDTH_TENTHS: u64 = 2794;

/// Page height: 431.8 physical units, kept in tenths so it is an integer.
pub const PAGE_HEIGHT_TENTHS: u64 = 4318;

/// One inch is 2.54 physical units, kept in hundredths so it is an integer.
pub const UNITS_PER_INCH_HUNDREDTHS: u64 = 254;

/// One inch is 96 pixels.
pub const PIXELS_PER_INCH: u64 = 96;

/// The page width in pixels: 279.4 * 96 / 2.54, scaled to integers.
pub open spec fn spec_page_width_px() -> int {
    PAGE_WIDTH_TENTHS * PIXELS_PER_INCH * 10 / (UNITS_PER_INCH_HUNDREDTHS as int)
}

/// The page height in pixels: 431.8 * 96 / 2.54, scaled to integers.
pub open spec fn spec_page_height_px() -> int {
    PAGE_HEIGHT_TENTHS * PIXELS_PER_INCH * 10 / (UNITS_PER_INCH_HUNDREDTHS as int)
}

/// Law: the conversion of the page size to pixels is exact. The integer
/// divisions in `spec_page_width_px` and `spec_page_height_px` leave no
/// remainder, so the pixel dimensions satisfy the conversion equations
/// `width_px * 2.54 == 279.4 * 96` and `height_px * 2.54 == 431.8 * 96`
/// as exact equalities, not merely to rounding.
pub proof fn lemma_page_pixels_exact()
    ensures
        spec_page_width_px() * UNITS_PER_INCH_HUNDREDTHS == PAGE_WIDTH_TENTHS * PIXELS_PER_INCH
            * 10,
        spec_page_height_px() * UNITS_PER_INCH_HUNDREDTHS == PAGE_HEIGHT_TENTHS * PIXELS_PER_INCH
            * 10,
        spec_page_width_px() == 10560,
        spec_page_height_px() == 16320,
{
}

/// The page width in pixels, as a machine integer.
pub fn page_width_px() -> (w: u64)
    ensures
        w == spec_page_width_px(),
{
    PAGE_WIDTH_TENTHS * PIXELS_PER_INCH * 10 / UNITS_PER_INCH_HUNDREDTHS
}

/// The page height in pixels, as a machine integer.
pub fn page_height_px() -> (h: u64)
    ensures
        h == spec_page_height_px(),
{
    PAGE_HEIGHT_TENTHS * PIXELS_PER_INCH * 10 / UNITS_PER_INCH_HUNDREDTHS
}

/// An exact, non-negative ratio of pixels, kept as numerator over denominator.
#[derive(Clone, Copy, Debug, PartialEq, Eq, Structural)]
pub struct PixelFraction {
    pub num: u64,
    pub den: u64,
}

/// A fraction stands for a pixel quantity only when its denominator is
/// positive.
pub open spec fn fraction_wf(f: PixelFraction) -> bool {
    f.den > 0
}

/// The canvas size in pixels together with the exact per-cell dimensions for
/// a rows x columns grid.
#[derive(Clone, Copy, Debug, PartialEq, Eq, Structural)]
pub struct GridGeometry {
    pub width_px: u64,
    pub height_px: u64,
    pub column_width: PixelFraction,
    pub row_height: PixelFraction,
}

/// Computes the canvas pixel dimensions and the exact cell dimensions:
/// the column width is the page width in pixels divided by `columns`, and
/// the row height is the page height in pixels divided by `rows`, both as
/// exact fractions.
pub fn grid_geometry(rows: u32, columns: u32) -> (g: GridGeometry)
    requires
        rows > 0,
        columns > 0,
    ensures
        g.width_px == spec_page_width_px(),
        g.height_px == spec_page_height_px(),
        g.column_width.num == g.width_px,
        g.column_width.den == columns,
        g.row_height.num == g.height_px,
        g.row_height.den == rows,
        fraction_wf(g.column_width),
        fraction_wf(g.row_height),
{
    let width_px: u64 = page_width_px();
    let height_px: u64 = page_height_px();
    GridGeometry {
        width_px,
        height_px,
        column_width: PixelFraction { num: width_px, den: columns as u64 },
        row_height: PixelFraction { num: height_px, den: rows as u64 },
    }
}

} // verus!
