use boba_cat::placement::{
    available_width, bottom_placement, clamp_horizontal_position, horizontal_span,
    position_from_offset,
};

#[test]
fn clamps_dragging_to_the_monitor_width() {
    assert_eq!(clamp_horizontal_position(0, 2880, 256, -100), 0);
    assert_eq!(clamp_horizontal_position(0, 2880, 256, 1200), 1200);
    assert_eq!(clamp_horizontal_position(0, 2880, 256, 3000), 2624);
    assert_eq!(clamp_horizontal_position(-1920, 1920, 256, 0), -256);
}

#[test]
fn clamps_when_the_window_is_wider_than_the_monitor() {
    assert_eq!(available_width(100, 256), 0);
    assert_eq!(clamp_horizontal_position(50, 100, 256, 500), 50);
    assert_eq!(clamp_horizontal_position(50, 100, 256, -500), 50);
}

#[test]
fn clamp_saturates_at_the_integer_bounds() {
    assert_eq!(clamp_horizontal_position(i32::MAX - 10, u32::MAX, 0, i32::MAX), i32::MAX);
    assert_eq!(clamp_horizontal_position(i32::MIN, u32::MAX, 0, i32::MAX), -1);
    assert_eq!(clamp_horizontal_position(0, 2880, 256, i32::MAX), 2624);
}

#[test]
fn span_reports_offset_within_free_width() {
    let span = horizontal_span(0, 2880, 256, 1312);
    assert_eq!(span.offset, 1312);
    assert_eq!(span.available, 2624);
    let span = horizontal_span(-1920, 1920, 256, 5000);
    assert_eq!(span.offset, 1664);
    assert_eq!(span.available, 1664);
    let span = horizontal_span(10, 5, 10, 3);
    assert_eq!(span.offset, 0);
    assert_eq!(span.available, 0);
}

#[test]
fn offset_round_trips_to_the_clamped_position() {
    for requested in [-5000, 0, 17, 1312, 2624, 4000, i32::MAX, i32::MIN] {
        let x = clamp_horizontal_position(-1920, 2880, 256, requested);
        let span = horizontal_span(-1920, 2880, 256, requested);
        assert_eq!(position_from_offset(-1920, span.offset as i32), x);
    }
}

#[test]
fn restores_from_offsets_with_saturation() {
    assert_eq!(position_from_offset(0, 896), 896);
    assert_eq!(position_from_offset(-1920, 1664), -256);
    assert_eq!(position_from_offset(i32::MAX, 5), i32::MAX);
    assert_eq!(position_from_offset(i32::MIN, -5), i32::MIN);
}

#[test]
fn places_the_window_on_the_bottom_edge() {
    let p = bottom_placement(0, 0, 2880, 1800, 256, 256, 3000);
    assert_eq!(p.x, 2624);
    assert_eq!(p.y, 1544);
    assert_eq!(p.span.offset, 2624);
    assert_eq!(p.span.available, 2624);
    let p = bottom_placement(-1920, 200, 1920, 1080, 128, 128, i32::MAX);
    assert_eq!(p.x, -128);
    assert_eq!(p.y, 1152);
    let p = bottom_placement(0, 10, 100, 100, 128, 300, 0);
    assert_eq!(p.y, 10);
}

#[test]
fn stores_and_restores_position_as_a_resolution_independent_fraction() {
    let span = horizontal_span(0, 2880, 256, 1312);
    let fraction = if span.available == 0 {
        0.0
    } else {
        (f64::from(span.offset) / f64::from(span.available)).clamp(0.0, 1.0)
    };
    assert_eq!(fraction, 0.5);

    let restored =
        position_from_offset(0, (f64::from(available_width(1920, 128)) * 0.5f64).round() as i32);
    assert_eq!(restored, 896);

    let restored =
        position_from_offset(-1920, (f64::from(available_width(1920, 256)) * 1.0f64).round() as i32);
    assert_eq!(restored, -256);
}
