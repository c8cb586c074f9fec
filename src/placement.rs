use vstd::prelude::*;

verus! {

/// The unsigned difference `a - b`, or zero when `b` exceeds `a`.
pub open spec fn saturating_diff(a: u32, b: u32) -> int {
    if a >= b {
        a - b
    } else {
        0
    }
}

/// The offset along one axis that centres a span of `inner` pixels on a
/// monitor span of `outer` pixels starting at `origin`.
pub open spec fn centred_offset(outer: u32, inner: u32, origin: i32) -> int {
    saturating_diff(outer, inner) / 2 + origin
}

/// The outer position that centres a window on its monitor.
///
/// Each axis takes half of what the monitor has to spare beyond the window
/// (rounded down, and zero when the window is the larger), added to the
/// monitor's origin.
pub fn center_position(
    monitor_width: u32,
    monitor_height: u32,
    monitor_x: i32,
    monitor_y: i32,
    window_width: u32,
    window_height: u32,
) -> (r: (i64, i64))
    ensures
        r.0 == centred_offset(monitor_width, window_width, monitor_x),
        r.1 == centred_offset(monitor_height, window_height, monitor_y),
{
    let spare_x: u32 = monitor_width.saturating_sub(window_width);
    let spare_y: u32 = monitor_height.saturating_sub(window_height);
    let x: i64 = (spare_x / 2) as i64 + monitor_x as i64;
    let y: i64 = (spare_y / 2) as i64 + monitor_y as i64;
    (x, y)
}

} // verus!
