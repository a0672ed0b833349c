//! The sync applier: turns a sync request into a plan of window-manager
//! effects, and models what executing that plan does to the panel window.
//!
//! The shell executes a plan by applying position before size (a size change
//! repaints in place, a position change visibly jumps, so moving first
//! avoids a one-frame flash of the panel at the wrong place), then showing
//! the window, then, when asked, raising the panel's z-order and returning
//! focus to the primary. Failures of individual window-manager calls are
//! benign: the window may have been destroyed concurrently, and the next
//! event retries.

use vstd::prelude::*;
use crate::config::{DockConfig, DockSide};
use crate::geometry::{compute_target, spec_target, WindowRect, SCALE_MILLI_MAX};

verus! {

/// Why a sync cycle did nothing. None of these is surfaced to the user:
/// each degrades to "try again on the next event" or "use a sane default".
#[derive(Clone, Copy, Debug, PartialEq, Eq, Structural)]
pub enum ApplyError {
    /// The panel window does not exist; benign, the caller decides whether
    /// to create it.
    NotPresent,
    /// The primary window's rectangle could not be queried; skip this cycle
    /// entirely rather than apply a stale or zero rectangle.
    PrimaryUnavailable,
    /// A window-manager call was rejected; logged and retried on the next
    /// event.
    ApplyFailed,
    /// The persisted configuration could not be read or written; fall back
    /// to defaults, never block startup.
    ConfigIoFailed,
}

/// What one sync cycle asks the window manager to do. `target` of `None`
/// means the primary rectangle was degenerate: show the panel but keep its
/// existing geometry rather than collapse it to a zero-sized rectangle.
#[derive(Clone, Copy, Debug, PartialEq, Eq, Structural)]
pub struct SyncPlan {
    /// The rectangle to move and resize the panel to, if one is computable.
    pub target: Option<WindowRect>,
    /// Whether to raise the panel's z-order and hand focus back to the
    /// primary afterwards.
    pub raise_focus: bool,
}

/// The observable state of the panel window that a plan affects: its
/// rectangle, its visibility, and whether the primary holds focus.
#[derive(Clone, Copy, Debug, PartialEq, Eq, Structural)]
pub struct PanelModel {
    pub rect: WindowRect,
    pub visible: bool,
    pub primary_focused: bool,
}

/// What executing a plan does to the panel: the target rectangle is applied
/// if there is one, the panel becomes visible either way, and a
/// focus-raising plan leaves the primary focused.
pub open spec fn spec_apply(m: PanelModel, plan: SyncPlan) -> PanelModel {
    PanelModel {
        rect: match plan.target {
            Some(t) => t,
            None => m.rect,
        },
        visible: true,
        primary_focused: if plan.raise_focus {
            true
        } else {
            m.primary_focused
        },
    }
}

/// Decide one sync cycle: what the window manager is asked to do, given
/// whether the panel exists, what was learned of the primary's rectangle,
/// and the live configuration.
///
/// Success is owed exactly when the panel exists and the primary's rectangle
/// was available; a degenerate primary still succeeds, with a plan that only
/// shows the panel.
pub fn plan_sync(
    panel_present: bool,
    primary: Option<WindowRect>,
    config: &DockConfig,
    scale_milli: u32,
    raise_focus: bool,
) -> (r: Result<SyncPlan, ApplyError>)
    requires
        config.wf(),
        1 <= scale_milli <= SCALE_MILLI_MAX,
        primary matches Some(p) ==> (config.side == DockSide::Right ==> p.x + p.width
            <= i32::MAX),
    ensures
        !panel_present ==> r == Err::<SyncPlan, ApplyError>(ApplyError::NotPresent),
        panel_present && primary is None ==> r == Err::<SyncPlan, ApplyError>(
            ApplyError::PrimaryUnavailable,
        ),
        primary matches Some(p) ==> (panel_present ==> r == Ok::<SyncPlan, ApplyError>(
            SyncPlan {
                target: spec_target(
                    p,
                    config.panel_width as int,
                    config.side,
                    scale_milli as int,
                ),
                raise_focus: (p.width > 0 && p.height > 0) && raise_focus,
            },
        )),
{
    if !panel_present {
        return Err(ApplyError::NotPresent);
    }
    match primary {
        None => Err(ApplyError::PrimaryUnavailable),
        Some(p) => {
            let target = compute_target(p, config.panel_width, config.side, scale_milli);
            let raise = match target {
                Some(_) => raise_focus,
                None => false,
            };
            Ok(SyncPlan { target, raise_focus: raise })
        },
    }
}

/// Execute a plan against the panel model: position, then size, then show,
/// then the optional focus raise. This is the specification the shell's real
/// window calls are held to.
pub fn apply_plan(m: &mut PanelModel, plan: &SyncPlan)
    ensures
        *final(m) == spec_apply(*old(m), *plan),
{
    match plan.target {
        Some(t) => {
            m.rect.x = t.x;
            m.rect.y = t.y;
            m.rect.width = t.width;
            m.rect.height = t.height;
        },
        None => {},
    }
    m.visible = true;
    if plan.raise_focus {
        m.primary_focused = true;
    }
}

/// Law: applying the same plan twice yields no observable change after the
/// first application.
pub proof fn lemma_apply_idempotent(m: PanelModel, plan: SyncPlan)
    ensures
        spec_apply(spec_apply(m, plan), plan) == spec_apply(m, plan),
{
}

} // verus!
