//! Interactive core of a uniform-scale gizmo handle: fixed-point screen
//! projection, pick/update/draw control, and the nonlinear drag-to-scale
//! curve, all with machine-checked contracts.
//!
//! All coordinates, ratios and scale factors are fixed-point integers; the
//! unit constants live in [`fixed`].

pub mod fixed;
pub mod gizmo;
pub mod projection;
