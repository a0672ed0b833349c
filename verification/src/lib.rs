//! Window docking synchronization engine.
//!
//! A desktop shell keeps a secondary "panel" window visually glued to one
//! edge of a primary window while the primary is dragged, resized, shown or
//! destroyed. This crate holds the verified core of that problem: the dock
//! configuration, the pure geometry calculator, the throttle/debounce
//! scheduler with generation-based cancellation, and the apply planner. The
//! window-manager calls themselves are side effects that an unverified shell
//! performs with the plans computed here.

pub mod applier;
pub mod config;
pub mod geometry;
pub mod scheduler;
pub mod strutil;
pub mod tasks;
