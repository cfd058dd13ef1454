//! A verified viewport / coordinate-transform engine for interactive 2-D
//! charts.
//!
//! The engine owns a rectangular viewport in chart space, regenerates the
//! geometric primitives (mesh instructions, polylines, markers) for a selected
//! chart variant, and maintains an invertible mapping from integer screen
//! pixels back to chart coordinates.  Rendering the primitives onto a real
//! surface is left to the embedding program; the engine itself works on plain
//! values only.
//!
//! Chart coordinates are held in fixed-point form: an `i64` counts quanta of
//! `1 / SCALE` chart units.  All arithmetic on them is exact and verified.

pub mod fixed;
pub mod point;
pub mod viewport;
pub mod chart;
pub mod mapper;
pub mod session;
