//! The geometry calculator: a pure function from the primary window's
//! physical rectangle, the panel's logical width and the dock side to the
//! panel window's target rectangle in physical pixels.
//!
//! Scale factors are carried in thousandths (`1000` is a scale of one), so
//! that the logical-to-physical conversion is exact integer arithmetic:
//! `round(width * scale)` becomes `(width * scale_milli + 500) / 1000`.

use vstd::prelude::*;
use crate::config::{DockSide, DEFAULT_PANEL_WIDTH};

verus! {

/// Physical pixels added to the panel's width when docked on the right, so
/// that no seam shows between the two windows at fractional-DPI boundaries.
pub const RIGHT_OVERLAP: u32 = 4;

/// Physical pixels added to the panel's width when docked on the left,
/// compensating for window border and shadow geometry so the panel abuts the
/// primary window's content edge.
pub const LEFT_OVERLAP: u32 = 16;

/// The scale factor one, in thousandths.
pub const SCALE_MILLI_ONE: u32 = 1000;

/// Largest supported scale factor, in thousandths (a scale of sixteen).
pub const SCALE_MILLI_MAX: u32 = 16000;

/// A window rectangle: position and size. The engine computes in physical
/// (device pixel) space; the panel width alone enters in logical pixels and
/// is converted with the panel window's own scale factor.
#[derive(Clone, Copy, Debug, PartialEq, Eq, Structural)]
pub struct WindowRect {
    pub x: i32,
    pub y: i32,
    pub width: u32,
    pub height: u32,
}

/// The panel width in physical pixels: the logical width scaled by a factor
/// in thousandths, rounded half-up.
pub open spec fn phys_panel_width(panel_width: int, scale_milli: int) -> int {
    (panel_width * scale_milli + 500) / 1000
}

/// The panel's horizontal position when docked on the left: flush against
/// the primary's left edge, clamped to the screen's left border.
pub open spec fn left_dock_x(primary_x: int, width_phys: int) -> int {
    if primary_x - width_phys >= 0 {
        primary_x - width_phys
    } else {
        0
    }
}

/// The target rectangle for the panel window, or `None` when the primary
/// rectangle is degenerate (not yet laid out, or minimized): a degenerate
/// primary must not collapse the panel to a zero-sized rectangle.
pub open spec fn spec_target(
    primary: WindowRect,
    panel_width: int,
    side: DockSide,
    scale_milli: int,
) -> Option<WindowRect> {
    if primary.width == 0 || primary.height == 0 {
        None
    } else {
        let wp = phys_panel_width(panel_width, scale_milli);
        match side {
            DockSide::Right => Some(
                WindowRect {
                    x: (primary.x + primary.width) as i32,
                    y: primary.y,
                    width: (wp + RIGHT_OVERLAP) as u32,
                    height: primary.height,
                },
            ),
            DockSide::Left => Some(
                WindowRect {
                    x: left_dock_x(primary.x as int, wp) as i32,
                    y: primary.y,
                    width: (wp + LEFT_OVERLAP) as u32,
                    height: primary.height,
                },
            ),
        }
    }
}

/// Compute the panel window's target rectangle in physical pixels.
///
/// Top edges are aligned and heights match; the horizontal edge and the
/// applied width depend on the dock side. A degenerate primary rectangle is
/// reported as not computable rather than as a zero-sized target.
pub fn compute_target(
    primary: WindowRect,
    panel_width: u32,
    side: DockSide,
    scale_milli: u32,
) -> (r: Option<WindowRect>)
    requires
        panel_width <= DEFAULT_PANEL_WIDTH,
        1 <= scale_milli <= SCALE_MILLI_MAX,
        side == DockSide::Right ==> primary.x + primary.width <= i32::MAX,
    ensures
        r == spec_target(primary, panel_width as int, side, scale_milli as int),
        (r is Some) <==> (primary.width > 0 && primary.height > 0),
        r matches Some(t) ==> {
            let wp = phys_panel_width(panel_width as int, scale_milli as int);
            &&& t.y == primary.y
            &&& t.height == primary.height
            &&& (side == DockSide::Right ==> t.x == primary.x + primary.width && t.width == wp
                + RIGHT_OVERLAP)
            &&& (side == DockSide::Left ==> t.x == left_dock_x(primary.x as int, wp) && t.width
                == wp + LEFT_OVERLAP)
        },
{
    if primary.width == 0 || primary.height == 0 {
        return None;
    }
    proof {
        assert(panel_width * scale_milli <= DEFAULT_PANEL_WIDTH * SCALE_MILLI_MAX)
            by (nonlinear_arith)
            requires
                panel_width <= DEFAULT_PANEL_WIDTH,
                scale_milli <= SCALE_MILLI_MAX,
        ;
    }
    let scaled: u64 = (panel_width as u64) * (scale_milli as u64);
    let wp: u32 = ((scaled + 500) / 1000) as u32;
    match side {
        DockSide::Right => {
            let x64: i64 = primary.x as i64 + primary.width as i64;
            Some(
                WindowRect {
                    x: x64 as i32,
                    y: primary.y,
                    width: wp + RIGHT_OVERLAP,
                    height: primary.height,
                },
            )
        },
        DockSide::Left => {
            let x64: i64 = primary.x as i64 - wp as i64;
            let x: i32 = if x64 >= 0 {
                x64 as i32
            } else {
                0
            };
            Some(WindowRect { x, y: primary.y, width: wp + LEFT_OVERLAP, height: primary.height })
        },
    }
}

} // verus!
