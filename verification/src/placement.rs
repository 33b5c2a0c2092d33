//! Horizontal placement of the pet window along the bottom edge of a monitor.

use vstd::prelude::*;

verus! {

/// Width left over for the window's left edge to move in: the monitor width
/// minus the window width, or zero when the window is wider than the monitor.
pub open spec fn spec_available_width(monitor_width: u32, window_width: u32) -> int {
    if monitor_width >= window_width {
        monitor_width - window_width
    } else {
        0
    }
}

/// The right-most left edge the window may take, saturated at `i32::MAX`
/// (the free width counts at most `i32::MAX`).
pub open spec fn spec_max_left_edge(monitor_x: i32, monitor_width: u32, window_width: u32) -> int {
    let free = spec_available_width(monitor_width, window_width);
    let step = if free <= i32::MAX { free } else { i32::MAX as int };
    if monitor_x + step <= i32::MAX {
        monitor_x + step
    } else {
        i32::MAX as int
    }
}

/// `requested_x` clamped to the range `[monitor_x, spec_max_left_edge(..)]`.
pub open spec fn spec_clamped_x(
    monitor_x: i32,
    monitor_width: u32,
    window_width: u32,
    requested_x: i32,
) -> int {
    let max_x = spec_max_left_edge(monitor_x, monitor_width, window_width);
    if requested_x < monitor_x {
        monitor_x as int
    } else if requested_x > max_x {
        max_x
    } else {
        requested_x as int
    }
}

/// The monitor width minus the window width, saturating at zero.
pub fn available_width(monitor_width: u32, window_width: u32) -> (r: u32)
    ensures
        r == spec_available_width(monitor_width, window_width),
{
    monitor_width.saturating_sub(window_width)
}

/// Clamps a requested left edge so that the window stays on the monitor
/// horizontally: no further left than the monitor's left edge, and no further
/// right than the point where the window touches the monitor's right edge.
pub fn clamp_horizontal_position(
    monitor_x: i32,
    monitor_width: u32,
    window_width: u32,
    requested_x: i32,
) -> (r: i32)
    ensures
        r == spec_clamped_x(monitor_x, monitor_width, window_width, requested_x),
        monitor_x <= r <= spec_max_left_edge(monitor_x, monitor_width, window_width),
{
    let available: u32 = available_width(monitor_width, window_width);
    let step: i32 = if available <= 0x7fff_ffff { available as i32 } else { i32::MAX };
    let max_x: i32 = match monitor_x.checked_add(step) {
        Some(v) => v,
        None => i32::MAX,
    };
    if requested_x < monitor_x {
        monitor_x
    } else if requested_x > max_x {
        max_x
    } else {
        requested_x
    }
}

/// `monitor_x + offset`, saturated to the range of `i32`.
pub open spec fn spec_saturating_add_i32(monitor_x: i32, offset: i32) -> int {
    let sum = monitor_x + offset;
    if sum > i32::MAX {
        i32::MAX as int
    } else if sum < i32::MIN {
        i32::MIN as int
    } else {
        sum
    }
}

/// A `u32` reinterpreted as an `i32` with the same bits (what `as i32` gives).
pub open spec fn spec_u32_bits_as_i32(v: u32) -> int {
    if v <= i32::MAX {
        v as int
    } else {
        v - 0x1_0000_0000
    }
}

/// The top edge that puts a window of `window_height` on the bottom edge of
/// a monitor, before the addition is checked against the range of `i32`.
pub open spec fn spec_bottom_y(monitor_y: i32, monitor_height: u32, window_height: u32) -> int {
    let room: u32 = if monitor_height >= window_height {
        (monitor_height - window_height) as u32
    } else {
        0
    };
    monitor_y + spec_u32_bits_as_i32(room)
}

/// Where a clamped left edge lies within the free width of the monitor: the
/// pair from which the pet's position is stored as a fraction
/// `offset / available` (zero when nothing is free).
pub struct HorizontalSpan {
    /// Distance of the clamped left edge from the monitor's left edge.
    pub offset: u32,
    /// The monitor width minus the window width, saturating at zero.
    pub available: u32,
}

/// The whole placement of the window on the bottom edge of a monitor.
pub struct BottomPlacement {
    /// Clamped left edge.
    pub x: i32,
    /// Top edge that makes the window touch the monitor's bottom edge.
    pub y: i32,
    /// The left edge relative to the free width.
    pub span: HorizontalSpan,
}

/// Places a requested left edge within the monitor and reports it relative to
/// the free width, the integer part of turning a position into a fraction.
pub fn horizontal_span(
    monitor_x: i32,
    monitor_width: u32,
    window_width: u32,
    requested_x: i32,
) -> (r: HorizontalSpan)
    ensures
        r.offset == spec_clamped_x(monitor_x, monitor_width, window_width, requested_x)
            - monitor_x,
        r.available == spec_available_width(monitor_width, window_width),
        r.offset <= r.available,
        r.offset <= i32::MAX,
{
    let available: u32 = available_width(monitor_width, window_width);
    let x: i32 = clamp_horizontal_position(monitor_x, monitor_width, window_width, requested_x);
    let offset: i64 = x as i64 - monitor_x as i64;
    HorizontalSpan { offset: offset as u32, available }
}

/// Turns an offset from the monitor's left edge back into a left edge,
/// saturating at the bounds of `i32`: a sum above `i32::MAX` gives `i32::MAX`
/// and one below `i32::MIN` gives `i32::MIN`.
pub fn position_from_offset(monitor_x: i32, offset: i32) -> (r: i32)
    ensures
        r == spec_saturating_add_i32(monitor_x, offset),
{
    match monitor_x.checked_add(offset) {
        Some(v) => v,
        None => if offset < 0 {
            i32::MIN
        } else {
            i32::MAX
        },
    }
}

/// Moves the window along the bottom edge: the requested left edge is
/// clamped onto the monitor, the top edge is chosen so that the window's
/// bottom meets the monitor's bottom, and the left edge is reported relative
/// to the free width.
pub fn bottom_placement(
    monitor_x: i32,
    monitor_y: i32,
    monitor_width: u32,
    monitor_height: u32,
    window_width: u32,
    window_height: u32,
    requested_x: i32,
) -> (r: BottomPlacement)
    requires
        i32::MIN <= spec_bottom_y(monitor_y, monitor_height, window_height) <= i32::MAX,
    ensures
        r.x == spec_clamped_x(monitor_x, monitor_width, window_width, requested_x),
        r.y == spec_bottom_y(monitor_y, monitor_height, window_height),
        r.span.offset == r.x - monitor_x,
        r.span.available == spec_available_width(monitor_width, window_width),
{
    let x: i32 = clamp_horizontal_position(monitor_x, monitor_width, window_width, requested_x);
    let room: u32 = monitor_height.saturating_sub(window_height);
    let room_bits: i32 = room as i32;
    assert(room_bits == spec_u32_bits_as_i32(room)) by (bit_vector)
        requires
            room_bits == room as i32,
    ;
    let y: i32 = monitor_y + room_bits;
    let span: HorizontalSpan = horizontal_span(monitor_x, monitor_width, window_width, requested_x);
    BottomPlacement { x, y, span }
}

/// Clamping is idempotent: a position that was clamped once is left where it
/// is by a second clamp.
pub proof fn lemma_clamp_idempotent(
    monitor_x: i32,
    monitor_width: u32,
    window_width: u32,
    requested_x: i32,
)
    ensures
        ({
            let once = spec_clamped_x(monitor_x, monitor_width, window_width, requested_x);
            spec_clamped_x(monitor_x, monitor_width, window_width, once as i32) == once
        }),
{
}

/// Requesting the largest position, as "Move to bottom-right" does, puts the
/// window at the right-most left edge.
pub proof fn lemma_far_right_request_reaches_right_edge(
    monitor_x: i32,
    monitor_width: u32,
    window_width: u32,
)
    ensures
        spec_clamped_x(monitor_x, monitor_width, window_width, i32::MAX) == spec_max_left_edge(
            monitor_x,
            monitor_width,
            window_width,
        ),
{
}

/// When the window fits on the monitor, the free width and the monitor's
/// right edge are within `i32`, the right-most left edge is exactly where the window touches
/// the monitor's right edge, and every position from the monitor's left edge
/// up to it is reachable unchanged.
pub proof fn lemma_right_edge_touches_monitor_edge(
    monitor_x: i32,
    monitor_width: u32,
    window_width: u32,
    requested_x: i32,
)
    requires
        window_width <= monitor_width,
        monitor_x + monitor_width <= i32::MAX,
        monitor_width - window_width <= i32::MAX,
    ensures
        spec_max_left_edge(monitor_x, monitor_width, window_width) == monitor_x + monitor_width
            - window_width,
        spec_clamped_x(monitor_x, monitor_width, window_width, i32::MAX) + window_width
            == monitor_x + monitor_width,
        monitor_x <= requested_x <= monitor_x + monitor_width - window_width ==> spec_clamped_x(
            monitor_x,
            monitor_width,
            window_width,
            requested_x,
        ) == requested_x,
        requested_x > monitor_x + monitor_width - window_width ==> spec_clamped_x(
            monitor_x,
            monitor_width,
            window_width,
            requested_x,
        ) == monitor_x + monitor_width - window_width,
{
}

/// A requested position that already lies on the monitor is kept unchanged.
pub proof fn lemma_clamp_keeps_positions_on_monitor(
    monitor_x: i32,
    monitor_width: u32,
    window_width: u32,
    requested_x: i32,
)
    requires
        monitor_x <= requested_x <= spec_max_left_edge(monitor_x, monitor_width, window_width),
    ensures
        spec_clamped_x(monitor_x, monitor_width, window_width, requested_x) == requested_x,
{
}

/// Clamping preserves the order of positions: dragging further right never
/// moves the window further left.
pub proof fn lemma_clamp_monotone(
    monitor_x: i32,
    monitor_width: u32,
    window_width: u32,
    a: i32,
    b: i32,
)
    requires
        a <= b,
    ensures
        spec_clamped_x(monitor_x, monitor_width, window_width, a) <= spec_clamped_x(
            monitor_x,
            monitor_width,
            window_width,
            b,
        ),
{
}

/// When the window is no wider than the monitor, the clamped window lies
/// wholly within the monitor: its right edge never passes the monitor's.
pub proof fn lemma_clamped_window_fits_monitor(
    monitor_x: i32,
    monitor_width: u32,
    window_width: u32,
    requested_x: i32,
)
    requires
        window_width <= monitor_width,
    ensures
        monitor_x <= spec_clamped_x(monitor_x, monitor_width, window_width, requested_x),
        spec_clamped_x(monitor_x, monitor_width, window_width, requested_x) + window_width
            <= monitor_x + monitor_width,
{
}

/// Storing a position as its offset within the free width and restoring it
/// on the same monitor gives back the clamped position.
pub proof fn lemma_offset_round_trip(
    monitor_x: i32,
    monitor_width: u32,
    window_width: u32,
    requested_x: i32,
)
    ensures
        ({
            let x = spec_clamped_x(monitor_x, monitor_width, window_width, requested_x);
            let offset = x - monitor_x;
            &&& 0 <= offset <= spec_available_width(monitor_width, window_width)
            &&& offset <= i32::MAX
            &&& spec_saturating_add_i32(monitor_x, offset as i32) == x
        }),
{
}

/// When the window is no taller than the monitor and the arithmetic stays in
/// range, the window's bottom edge meets the monitor's bottom edge.
pub proof fn lemma_bottom_edges_meet(monitor_y: i32, monitor_height: u32, window_height: u32)
    requires
        window_height <= monitor_height,
        monitor_height - window_height <= i32::MAX,
    ensures
        spec_bottom_y(monitor_y, monitor_height, window_height) + window_height == monitor_y
            + monitor_height,
{
}

} // verus!
