use client_lifecycle::crosshair_layout;

#[test]
fn crosshair_is_centered_in_an_800_by_600_viewport() {
    // all coordinates are in half-units: twice the on-screen value
    let r = crosshair_layout(800, 600);
    assert_eq!((r.outer.min_x, r.outer.min_y), (780, 580));
    assert_eq!((r.outer.max_x, r.outer.max_y), (820, 620));
    // the vertical bar: 2 units wide, spanning the square's height
    assert_eq!((r.vertical.min_x, r.vertical.max_x), (798, 802));
    assert_eq!((r.vertical.min_y, r.vertical.max_y), (580, 620));
    // the horizontal bar: 2 units tall, spanning the square's width
    assert_eq!((r.horizontal.min_x, r.horizontal.max_x), (780, 820));
    assert_eq!((r.horizontal.min_y, r.horizontal.max_y), (598, 602));
}

#[test]
fn crosshair_center_of_odd_viewport_is_exact_in_half_units() {
    let r = crosshair_layout(801, 601);
    // the on-screen centre (400.5, 300.5) doubles to whole numbers
    assert_eq!(r.vertical.min_x, 799);
    assert_eq!(r.vertical.max_x, 803);
    assert_eq!(r.horizontal.min_y, 599);
    assert_eq!(r.horizontal.max_y, 603);
}

#[test]
fn crosshair_square_is_20_units_and_bars_2_units() {
    let r = crosshair_layout(1920, 1080);
    // half-unit spans are twice the on-screen 20 and 2
    assert_eq!(r.outer.max_x - r.outer.min_x, 40);
    assert_eq!(r.outer.max_y - r.outer.min_y, 40);
    assert_eq!(r.vertical.max_x - r.vertical.min_x, 4);
    assert_eq!(r.horizontal.max_y - r.horizontal.min_y, 4);
}

#[test]
fn crosshair_handles_the_largest_viewport() {
    let r = crosshair_layout(u32::MAX, u32::MAX);
    assert_eq!(r.outer.max_x, u32::MAX as i64 + 20);
    assert_eq!(r.outer.min_x, u32::MAX as i64 - 20);
}

#[test]
fn crosshair_handles_a_tiny_viewport() {
    // smaller than the marker: coordinates simply go negative
    let r = crosshair_layout(8, 8);
    assert_eq!(r.outer.min_x, -12);
    assert_eq!(r.outer.max_x, 28);
}
