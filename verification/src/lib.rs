//! Contribution-streak metrics and badge rendering.
//!
//! Turns a per-day activity count series into derived metrics — current
//! streak, longest streak, and a trailing 30-day activity window — and
//! renders those metrics into a fixed-layout SVG badge. Every function is
//! a pure, verified computation: acquisition of the raw counts and writing
//! of the rendered document are left to the caller.

pub mod badge;
pub mod date;
pub mod index;
pub mod render;
pub mod streak;
pub mod window;
