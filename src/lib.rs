//! Verified capture engine for an X11 window source: geometry and visibility
//! tracking, pixel-format derivation, frame-rate negotiation, the pull-driven
//! frame producer and the decisions of the background event watcher.

pub mod caps;
pub mod engine;
pub mod format;
pub mod geometry;
pub mod visibility;
pub mod watcher;

pub use visibility::WindowVisibility;
