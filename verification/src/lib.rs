//! Interaction core of a screen-annotation overlay.
//!
//! Converts raw keyboard and pointer events into a coherent drawing session:
//! an explicit drawing-mode state machine (idle / drawing / text input), a
//! modifier-derived tool selection, per-board shape histories, and the
//! geometric normalization rules that turn a drag gesture into a finished
//! shape.  Every state transition is specified by a transition function over
//! an abstract model of the session and proved to match it.

pub mod color;
pub mod tool;
pub mod events;
pub mod geometry;
pub mod shape;
pub mod board;
pub mod state;
