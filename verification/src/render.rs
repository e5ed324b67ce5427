//! How the splines and their control points are drawn.

use vstd::prelude::*;
use crate::state::{AppModel, AppState, EditMode};

verus! {

/// How a curve is drawn.
#[derive(Debug, Clone, Copy, PartialEq, Eq, Structural)]
pub enum CurveStyle {
    /// The spline being edited (drawn cyan).
    Editing,
    /// Any other spline (drawn grey).
    Inactive,
}

/// How a control point of the edited spline is drawn.
#[derive(Debug, Clone, Copy, PartialEq, Eq, Structural)]
pub enum PointStyle {
    /// Being dragged (large, yellow).
    Dragged,
    /// Under the mouse (large, orange).
    Hovered,
    /// Any other (small, off-white).
    Normal,
}

impl<P> AppModel<P> {
    /// The style of curve `i`.
    pub open spec fn curve_style(self, i: usize) -> CurveStyle {
        if self.editing() == Some(i) { CurveStyle::Editing } else { CurveStyle::Inactive }
    }

    /// The style of control point `i` of the edited spline: dragging takes
    /// precedence over hovering.
    pub open spec fn point_style(self, i: usize) -> PointStyle {
        match self.mode {
            EditMode::Editing { drag, hover, .. } =>
                if drag == Some(i) {
                    PointStyle::Dragged
                } else if hover == Some(i) {
                    PointStyle::Hovered
                } else {
                    PointStyle::Normal
                },
            EditMode::Idle => PointStyle::Normal,
        }
    }
}

impl<P> AppState<P> {
    /// The style of curve `i`: highlighted while it is edited.
    pub fn curve_style(&self, i: usize) -> (c: CurveStyle)
        ensures
            c == self@.curve_style(i),
    {
        match self.mode {
            EditMode::Editing { spline_index, .. } =>
                if spline_index == i { CurveStyle::Editing } else { CurveStyle::Inactive },
            EditMode::Idle => CurveStyle::Inactive,
        }
    }

    /// The style of control point `i` of the edited spline.
    pub fn point_style(&self, i: usize) -> (s: PointStyle)
        ensures
            s == self@.point_style(i),
    {
        match self.mode {
            EditMode::Editing { drag, hover, .. } => {
                if drag == Some(i) {
                    PointStyle::Dragged
                } else if hover == Some(i) {
                    PointStyle::Hovered
                } else {
                    PointStyle::Normal
                }
            },
            EditMode::Idle => PointStyle::Normal,
        }
    }
}

/// A tessellated curve is drawn as a line strip only when it has at least
/// two vertices.
pub fn draws_curve(vertex_count: usize) -> (b: bool)
    ensures
        b == (vertex_count >= 2),
{
    vertex_count >= 2
}

/// The two triangles covering the square with corners top-left, top-right,
/// bottom-left and bottom-right, as drawn for a control point.
pub fn quad_triangles<V: Copy>(tl: V, tr: V, bl: V, br: V) -> (r: [V; 6])
    ensures
        r@ == seq![tl, tr, bl, tr, br, bl],
{
    [tl, tr, bl, tr, br, bl]
}

} // verus!
