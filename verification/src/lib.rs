//! Interactive selection of a rectangular desktop region.
//!
//! The user drags a crosshair across one or more monitors; the library
//! tracks pointer and keyboard events (delivered per overlay surface in
//! surface-local coordinates), maintains the selection state machine in
//! one global coordinate space, composes the per-surface overlay pixels,
//! and paces redraws to a fixed frame interval. The windowing protocol,
//! screen capture, and image decoding live outside the library; they hand
//! in plain events and take plain values back.

pub mod error;
pub mod geometry;
pub mod output;
pub mod render;
pub mod selection;
pub mod session;
pub mod surface;
pub mod tracker;
