//! Editing state and curve bookkeeping for an interactive spline editor.
//!
//! The library keeps everything an editor decides: which spline is being
//! edited, how mouse and keyboard input changes that, which control point is
//! dragged or hovered, when a curve must be re-tessellated, how the samples
//! of a tessellated curve are laid out, and what the user interface shows.
//! Points are kept abstract (a type parameter), so that the numeric work of
//! evaluating curves and measuring distances stays with the caller.

pub mod text;
pub mod spline;
pub mod state;
pub mod laws;
pub mod ui;
pub mod render;
pub mod input;
pub mod surface;
