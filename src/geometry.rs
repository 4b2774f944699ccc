use vstd::prelude::*;

verus! {

/// An axis-aligned rectangle on the screen.
#[derive(Clone, Copy, Debug, PartialEq, Eq, Structural)]
pub struct Rect {
    pub x: i32,
    pub y: i32,
    pub width: i32,
    pub height: i32,
}

/// Where the popout goes, given the tray icon's area, whether the panel is
/// vertical, the popout's size and the monitor's area: beside the icon on a
/// vertical panel, below it on a horizontal one, flipped or pushed back
/// when it would leave the monitor.
pub open spec fn position_spec(icon: Rect, vertical: bool, width: int, height: int, monitor: Rect) -> (
    int,
    int,
) {
    let right = monitor.x + monitor.width;
    let bottom = monitor.y + monitor.height;
    if vertical {
        let x = if icon.x + icon.width + width <= right {
            icon.x + icon.width
        } else {
            icon.x - width
        };
        let y = if icon.y + height <= bottom {
            icon.y as int
        } else {
            bottom - height
        };
        (x, y)
    } else {
        let y = if icon.y + icon.height + height <= bottom {
            icon.y + icon.height
        } else {
            icon.y - height
        };
        let x = if icon.x + width <= right {
            icon.x as int
        } else {
            right - width
        };
        (x, y)
    }
}

/// Computes where the popout window is placed next to the tray icon.
pub fn popout_position(icon: Rect, vertical: bool, width: i32, height: i32, monitor: Rect) -> (r: (
    i64,
    i64,
))
    ensures
        (r.0 as int, r.1 as int) == position_spec(icon, vertical, width as int, height as int, monitor),
{
    let ix = icon.x as i64;
    let iy = icon.y as i64;
    let iw = icon.width as i64;
    let ih = icon.height as i64;
    let w = width as i64;
    let h = height as i64;
    let right = monitor.x as i64 + monitor.width as i64;
    let bottom = monitor.y as i64 + monitor.height as i64;
    if vertical {
        let x = if ix + iw + w <= right {
            ix + iw
        } else {
            ix - w
        };
        let y = if iy + h <= bottom {
            iy
        } else {
            bottom - h
        };
        (x, y)
    } else {
        let y = if iy + ih + h <= bottom {
            iy + ih
        } else {
            iy - h
        };
        let x = if ix + w <= right {
            ix
        } else {
            right - w
        };
        (x, y)
    }
}

} // verus!
