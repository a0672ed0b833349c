//! Live-mutable docking configuration: the panel's logical width and the side
//! of the primary window that the panel attaches to.
//!
//! There is one authoritative `DockConfig` value per process; every geometry
//! computation reads a snapshot of it. Width changes are clamped, never
//! rejected; the side is parsed from a persisted string flag, with `Left` as
//! the silent default for absent or malformed data.

use vstd::prelude::*;
use vstd::string::StrSliceExecFns;

verus! {

/// Smallest storable panel width, in logical pixels (the collapsed state).
pub const MIN_PANEL_WIDTH: u32 = 80;

/// Largest width that an explicit width change may store, in logical pixels.
pub const MAX_PANEL_WIDTH: u32 = 150;

/// Width a fresh session starts with, before any explicit width change.
pub const DEFAULT_PANEL_WIDTH: u32 = 200;

/// Which edge of the primary window the panel window is glued to.
#[derive(Clone, Copy, Debug, PartialEq, Eq, Structural)]
pub enum DockSide {
    Left,
    Right,
}

/// The two pieces of live configuration read by every geometry computation.
#[derive(Clone, Copy, Debug, PartialEq, Eq, Structural)]
pub struct DockConfig {
    /// Panel width in logical pixels.
    pub panel_width: u32,
    /// Edge of the primary window that the panel attaches to.
    pub side: DockSide,
}

/// What a requested width is normalized to: clamped into
/// [`MIN_PANEL_WIDTH`, `MAX_PANEL_WIDTH`], never rejected.
pub open spec fn clamp_panel_width(requested: int) -> int {
    if requested < MIN_PANEL_WIDTH as int {
        MIN_PANEL_WIDTH as int
    } else if requested > MAX_PANEL_WIDTH as int {
        MAX_PANEL_WIDTH as int
    } else {
        requested
    }
}

/// True when `s` is the word "right", compared ASCII-case-insensitively.
pub open spec fn is_right_word(s: Seq<char>) -> bool {
    &&& s.len() == 5
    &&& (s[0] == 'r' || s[0] == 'R')
    &&& (s[1] == 'i' || s[1] == 'I')
    &&& (s[2] == 'g' || s[2] == 'G')
    &&& (s[3] == 'h' || s[3] == 'H')
    &&& (s[4] == 't' || s[4] == 'T')
}

/// The side a stored flag denotes: "right" (ASCII-case-insensitive) selects
/// `Right`; anything else, including absence, falls back to `Left`.
pub open spec fn spec_side_of(stored: Option<Seq<char>>) -> DockSide {
    match stored {
        Some(s) => if is_right_word(s) {
            DockSide::Right
        } else {
            DockSide::Left
        },
        None => DockSide::Left,
    }
}

/// Parse a dock-side string: "right" in any ASCII case selects `Right`,
/// every other string selects `Left`.
pub fn parse_dock_side(s: &str) -> (side: DockSide)
    ensures
        side == spec_side_of(Some(s@)),
{
    let n = s.unicode_len();
    if n != 5 {
        return DockSide::Left;
    }
    let ok = (s.get_char(0) == 'r' || s.get_char(0) == 'R')
        && (s.get_char(1) == 'i' || s.get_char(1) == 'I')
        && (s.get_char(2) == 'g' || s.get_char(2) == 'G')
        && (s.get_char(3) == 'h' || s.get_char(3) == 'H')
        && (s.get_char(4) == 't' || s.get_char(4) == 'T');
    if ok {
        DockSide::Right
    } else {
        DockSide::Left
    }
}

/// The side to start a session with, given the persisted flag if one could be
/// read. Absent or malformed data defaults to `Left` without an error.
pub fn side_from_persisted(stored: Option<&str>) -> (side: DockSide)
    ensures
        stored matches Some(s) ==> side == spec_side_of(Some(s@)),
        stored is None ==> side == DockSide::Left,
{
    match stored {
        Some(s) => parse_dock_side(s),
        None => DockSide::Left,
    }
}

impl DockConfig {
    /// Every width this type ever holds: the session default, or a value that
    /// a clamped width change stored.
    pub open spec fn wf(self) -> bool {
        MIN_PANEL_WIDTH <= self.panel_width <= DEFAULT_PANEL_WIDTH
    }

    /// A fresh session's configuration: default width, docked on the left.
    pub fn new() -> (c: DockConfig)
        ensures
            c.panel_width == DEFAULT_PANEL_WIDTH,
            c.side == DockSide::Left,
            c.wf(),
    {
        DockConfig { panel_width: DEFAULT_PANEL_WIDTH, side: DockSide::Left }
    }

    /// Store a requested panel width, clamped into the allowed range; invalid
    /// input is silently normalized, never rejected. The caller owes the user
    /// an immediate synchronous sync afterwards, bypassing the throttle.
    pub fn set_panel_width(&mut self, requested: u32)
        ensures
            final(self).panel_width == clamp_panel_width(requested as int),
            final(self).side == old(self).side,
            final(self).wf(),
    {
        self.panel_width = if requested < MIN_PANEL_WIDTH {
            MIN_PANEL_WIDTH
        } else if requested > MAX_PANEL_WIDTH {
            MAX_PANEL_WIDTH
        } else {
            requested
        };
    }

    /// Store the dock side. The caller is responsible for creating the panel
    /// window first if it does not exist yet, and for an immediate
    /// synchronous sync afterwards.
    pub fn set_dock_side(&mut self, side: DockSide)
        ensures
            final(self).side == side,
            final(self).panel_width == old(self).panel_width,
            old(self).wf() ==> final(self).wf(),
    {
        self.side = side;
    }

    /// True when the panel is docked on the right edge of the primary window.
    pub fn sidebar_on_right(&self) -> (r: bool)
        ensures
            r == (self.side == DockSide::Right),
    {
        match self.side {
            DockSide::Right => true,
            DockSide::Left => false,
        }
    }
}

} // verus!
