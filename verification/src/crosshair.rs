use vstd::prelude::*;

verus! {

/// An axis-aligned rectangle in half-unit coordinates: every field is
/// twice its on-screen value, so the exact centre of an odd-sized
/// viewport stays representable without fractions.
#[derive(Clone, Copy, PartialEq, Eq, Structural, Debug)]
pub struct HalfUnitRect {
    pub min_x: i64,
    pub min_y: i64,
    pub max_x: i64,
    pub max_y: i64,
}

/// The three rectangles of the centered crosshair marker: the outer
/// bounding square and the vertical and horizontal bars of the cross.
#[derive(Clone, Copy, PartialEq, Eq, Structural, Debug)]
pub struct CrosshairLayout {
    pub outer: HalfUnitRect,
    pub vertical: HalfUnitRect,
    pub horizontal: HalfUnitRect,
}

/// Side length of the crosshair's bounding square, in on-screen units.
pub const CROSSHAIR_SIZE: i64 = 20;

/// Width of each bar of the cross, in on-screen units.
pub const CROSSHAIR_LINE_WIDTH: i64 = 2;

/// Pure function of the current viewport size: a 20-unit square centered
/// on the viewport, crossed by two 2-unit-wide bars that span it. All
/// coordinates come back in half-units (twice the on-screen value), so a
/// viewport centre at half a unit is exact; the drawing shell halves them
/// on its own scale. No state and no interaction logic.
pub fn crosshair_layout(width: u32, height: u32) -> (r: CrosshairLayout)
    ensures
        r.outer.min_x == width - CROSSHAIR_SIZE,
        r.outer.min_y == height - CROSSHAIR_SIZE,
        r.outer.max_x == width + CROSSHAIR_SIZE,
        r.outer.max_y == height + CROSSHAIR_SIZE,
        r.vertical.min_x == width - CROSSHAIR_LINE_WIDTH,
        r.vertical.min_y == height - CROSSHAIR_SIZE,
        r.vertical.max_x == width + CROSSHAIR_LINE_WIDTH,
        r.vertical.max_y == height + CROSSHAIR_SIZE,
        r.horizontal.min_x == width - CROSSHAIR_SIZE,
        r.horizontal.min_y == height - CROSSHAIR_LINE_WIDTH,
        r.horizontal.max_x == width + CROSSHAIR_SIZE,
        r.horizontal.max_y == height + CROSSHAIR_LINE_WIDTH,
{
    let cx: i64 = width as i64;
    let cy: i64 = height as i64;
    CrosshairLayout {
        outer: HalfUnitRect {
            min_x: cx - CROSSHAIR_SIZE,
            min_y: cy - CROSSHAIR_SIZE,
            max_x: cx + CROSSHAIR_SIZE,
            max_y: cy + CROSSHAIR_SIZE,
        },
        vertical: HalfUnitRect {
            min_x: cx - CROSSHAIR_LINE_WIDTH,
            min_y: cy - CROSSHAIR_SIZE,
            max_x: cx + CROSSHAIR_LINE_WIDTH,
            max_y: cy + CROSSHAIR_SIZE,
        },
        horizontal: HalfUnitRect {
            min_x: cx - CROSSHAIR_SIZE,
            min_y: cy - CROSSHAIR_LINE_WIDTH,
            max_x: cx + CROSSHAIR_SIZE,
            max_y: cy + CROSSHAIR_LINE_WIDTH,
        },
    }
}

} // verus!
