use vstd::prelude::*;
use crate::spline::{CurveType, Spline, SplineModel};
use crate::text::{decimal, labelled_number};

verus! {

/// What the editor is doing.
#[derive(Debug, Clone, PartialEq, Eq, Structural)]
pub enum EditMode {
    /// No spline is being edited.
    Idle,
    /// Spline `spline_index` is being edited.
    Editing {
        spline_index: usize,
        /// Index of the control point being dragged.
        drag: Option<usize>,
        /// Index of the hovered control point.
        hover: Option<usize>,
    },
}

/// The first index `i >= from`, below both `count` and the length of `near`,
/// with `near[i]` set.
pub open spec fn first_near(near: Seq<bool>, count: nat, from: nat) -> Option<nat>
    decreases count - from,
{
    if from >= count || from >= near.len() {
        None
    } else if near[from as int] {
        Some(from)
    } else {
        first_near(near, count, from + 1)
    }
}

/// The control point under the mouse among the first `count` ones: the first
/// whose entry in `near` is set. `near[i]` tells whether control point `i`
/// lies within the hit radius of the mouse.
pub open spec fn hit_point(near: Seq<bool>, count: nat) -> Option<usize> {
    match first_near(near, count, 0) {
        Some(i) => Some(i as usize),
        None => None,
    }
}

/// The name given to a spline created when `n` splines exist.
pub open spec fn line_name(n: nat) -> Seq<char> {
    "Line "@ + decimal(n)
}

/// A fresh spline named `name`.
pub open spec fn fresh_spline<P>(name: Seq<char>) -> SplineModel<P> {
    SplineModel {
        points: Seq::empty(),
        name,
        curve_type: CurveType::CatmullRom,
        cached: Seq::empty(),
        dirty: true,
    }
}

/// The first control point flagged in `near`, scanning the control points of
/// `spline` in order.
fn hit_test<P>(spline: &Spline<P>, near: &[bool]) -> (hit: Option<usize>)
    ensures
        hit == hit_point(near@, spline@.points.len()),
{
    let count = spline.point_count();
    let mut i: usize = 0;
    while i < count && i < near.len()
        invariant
            count == spline@.points.len(),
            i <= count,
            first_near(near@, count as nat, 0) == first_near(near@, count as nat, i as nat),
        decreases count - i,
    {
        if near[i] {
            return Some(i);
        }
        i = i + 1;
    }
    None
}

/// The editor's state: the splines, what is being edited, the mouse, the
/// window, and the right-click menu.
///
/// `P` is the type of a point; positions are in normalized device
/// coordinates and the window size in logical pixels.
pub struct AppState<P> {
    pub splines: Vec<Spline<P>>,
    pub mode: EditMode,
    /// Current mouse position in NDC.
    pub mouse_ndc: P,
    /// Window size in logical pixels.
    pub window_size: P,
    /// Target of the right-click context menu: (spline_index, point_index).
    pub context_menu: Option<(usize, usize)>,
    /// One-shot flag: open the context menu popup this frame.
    pub open_context_menu: bool,
}

/// What the editor's state holds, as mathematical values.
pub struct AppModel<P> {
    pub splines: Seq<SplineModel<P>>,
    pub mode: EditMode,
    pub mouse_ndc: P,
    pub window_size: P,
    pub context_menu: Option<(usize, usize)>,
    pub open_context_menu: bool,
}

impl<P> View for AppState<P> {
    type V = AppModel<P>;

    open spec fn view(&self) -> AppModel<P> {
        AppModel {
            splines: self.splines@.map_values(|s: Spline<P>| s@),
            mode: self.mode,
            mouse_ndc: self.mouse_ndc,
            window_size: self.window_size,
            context_menu: self.context_menu,
            open_context_menu: self.open_context_menu,
        }
    }
}

impl<P> AppModel<P> {
    /// The spline being edited exists.
    pub open spec fn wf(self) -> bool {
        match self.mode {
            EditMode::Editing { spline_index, .. } => spline_index < self.splines.len(),
            EditMode::Idle => true,
        }
    }

    /// A dragged control point is never hovered as well.
    pub open spec fn drag_excludes_hover(self) -> bool {
        match self.mode {
            EditMode::Editing { drag, hover, .. } => drag is Some ==> hover is None,
            EditMode::Idle => true,
        }
    }

    /// The index of the spline being edited, if any.
    pub open spec fn editing(self) -> Option<usize> {
        match self.mode {
            EditMode::Editing { spline_index, .. } => Some(spline_index),
            EditMode::Idle => None,
        }
    }

    /// The control points of spline `i`.
    pub open spec fn points_of(self, i: int) -> Seq<P> {
        self.splines[i].points
    }

    /// The same state with the context menu closed.
    pub open spec fn menu_closed(self) -> Self {
        AppModel { context_menu: None, open_context_menu: false, ..self }
    }

    /// "New Line": only when nothing is edited, a fresh spline named after the
    /// number of splines is appended and edited.
    pub open spec fn new_line(self) -> Self {
        if self.mode != EditMode::Idle {
            self
        } else {
            AppModel {
                splines: self.splines.push(fresh_spline(line_name(self.splines.len()))),
                mode: EditMode::Editing { spline_index: self.splines.len() as usize, drag: None, hover: None },
                ..self
            }
        }
    }

    /// Selecting spline `index` to edit: only when nothing is edited and the
    /// spline exists.
    pub open spec fn start_edit(self, index: usize) -> Self {
        if self.mode == EditMode::Idle && index < self.splines.len() {
            AppModel { mode: EditMode::Editing { spline_index: index, drag: None, hover: None }, ..self }
        } else {
            self
        }
    }

    /// "Done Editing" or Escape: nothing is edited and the menu is closed.
    pub open spec fn stop_edit(self) -> Self {
        AppModel { mode: EditMode::Idle, ..self.menu_closed() }
    }

    /// Left press on the canvas, `near` flagging the control points under the
    /// mouse: grab the first of them, or add a control point at the mouse.
    pub open spec fn press(self, near: Seq<bool>) -> Self {
        match self.mode {
            EditMode::Idle => self.menu_closed(),
            EditMode::Editing { spline_index: e, .. } => match hit_point(near, self.points_of(e as int).len()) {
                Some(i) => AppModel {
                    mode: EditMode::Editing { spline_index: e, drag: Some(i), hover: None },
                    ..self.menu_closed()
                },
                None => AppModel {
                    splines: self.splines.update(e as int, self.splines[e as int].with_pushed(self.mouse_ndc)),
                    ..self.menu_closed()
                },
            },
        }
    }

    /// Mouse moved to `ndc`, `near` flagging the control points under it: a
    /// grabbed point follows, otherwise the first point under it is hovered.
    pub open spec fn mouse_move(self, ndc: P, near: Seq<bool>) -> Self {
        let moved = AppModel { mouse_ndc: ndc, ..self };
        match self.mode {
            EditMode::Idle => moved,
            EditMode::Editing { spline_index: e, drag: Some(d), .. } => AppModel {
                splines: self.splines.update(e as int, self.splines[e as int].with_moved(d as int, ndc)),
                ..moved
            },
            EditMode::Editing { spline_index: e, drag: None, .. } => AppModel {
                mode: EditMode::Editing {
                    spline_index: e,
                    drag: None,
                    hover: hit_point(near, self.points_of(e as int).len()),
                },
                ..moved
            },
        }
    }

    /// Left button released: the grabbed point is let go.
    pub open spec fn release(self) -> Self {
        match self.mode {
            EditMode::Editing { spline_index, hover, .. } => AppModel {
                mode: EditMode::Editing { spline_index, drag: None, hover },
                ..self
            },
            EditMode::Idle => self,
        }
    }

    /// Right press on the canvas, `near` flagging the control points under
    /// the mouse: the menu opens on the first of them, or stays closed.
    pub open spec fn right_click(self, near: Seq<bool>) -> Self {
        match self.mode {
            EditMode::Editing { spline_index: e, .. } => match hit_point(near, self.points_of(e as int).len()) {
                Some(i) => AppModel { context_menu: Some((e, i)), open_context_menu: true, ..self },
                None => self.menu_closed(),
            },
            EditMode::Idle => self.menu_closed(),
        }
    }

    /// Control point `p` of spline `s` deleted, when it exists; then nothing
    /// is grabbed or hovered and the menu is closed.
    pub open spec fn delete_point(self, s: usize, p: usize) -> Self {
        if s < self.splines.len() && p < self.points_of(s as int).len() {
            AppModel {
                splines: self.splines.update(s as int, self.splines[s as int].with_removed(p as int)),
                mode: match self.mode {
                    EditMode::Editing { spline_index, .. } => EditMode::Editing { spline_index, drag: None, hover: None },
                    EditMode::Idle => EditMode::Idle,
                },
                ..self.menu_closed()
            }
        } else {
            self
        }
    }

    /// The window resized to `size`.
    pub open spec fn resize(self, size: P) -> Self {
        AppModel { window_size: size, ..self }
    }
}

impl<P> AppModel<P> {
    /// The spline an editing operation may change: the edited one, or none
    /// (-1) while nothing is edited.
    pub open spec fn edit_target(self) -> int {
        match self.editing() {
            Some(e) => e as int,
            None => -1,
        }
    }
}

impl<P> AppState<P> {
    /// Every spline of `before` other than spline `e` is still there as the
    /// very same value (so its points, its cache and everything said of them
    /// carry over).
    pub open spec fn keeps_splines_except(self, before: Self, e: int) -> bool {
        &&& self.splines@.len() >= before.splines@.len()
        &&& forall|j: int| 0 <= j < before.splines@.len() && j != e ==>
                #[trigger] self.splines@[j] == before.splines@[j]
    }
}

impl<P> AppState<P> {
    /// A state with no splines and nothing being edited; the mouse is at the
    /// default point (the origin for coordinate pairs).
    pub fn new(window_size: P) -> (s: Self)
        where P: Default
        ensures
            s@.splines == Seq::<SplineModel<P>>::empty(),
            s.mode == EditMode::Idle,
            call_ensures(P::default, (), s.mouse_ndc),
            s.window_size == window_size,
            s.context_menu == None::<(usize, usize)>,
            !s.open_context_menu,
    {
        let s = AppState {
            splines: Vec::new(),
            mode: EditMode::Idle,
            mouse_ndc: P::default(),
            window_size,
            context_menu: None,
            open_context_menu: false,
        };
        assert(s@.splines =~= Seq::<SplineModel<P>>::empty());
        s
    }

    /// Starts a new spline, named "Line n" where n is the number of splines
    /// before it, and edits it. Only when nothing is being edited.
    pub fn new_line(&mut self)
        ensures
            final(self)@ == old(self)@.new_line(),
            final(self).keeps_splines_except(*old(self), -1),
    {
        if self.mode != EditMode::Idle {
            return;
        }
        let idx = self.splines.len();
        let name = labelled_number("Line ", idx);
        self.splines.push(Spline::new(name));
        self.mode = EditMode::Editing { spline_index: idx, drag: None, hover: None };
        assert(self@.splines =~= old(self)@.splines.push(fresh_spline(line_name(idx as nat))));
    }

    /// Edits spline `index`, when nothing is being edited and it exists.
    pub fn start_edit(&mut self, index: usize)
        ensures
            final(self)@ == old(self)@.start_edit(index),
            final(self).keeps_splines_except(*old(self), -1),
    {
        if self.mode == EditMode::Idle && index < self.splines.len() {
            self.mode = EditMode::Editing { spline_index: index, drag: None, hover: None };
        }
    }

    /// Stops editing and closes the context menu.
    pub fn stop_edit(&mut self)
        ensures
            final(self)@ == old(self)@.stop_edit(),
            final(self).keeps_splines_except(*old(self), -1),
    {
        self.mode = EditMode::Idle;
        self.context_menu = None;
        self.open_context_menu = false;
    }

    /// Left mouse button pressed on the canvas. `near[i]` tells whether
    /// control point `i` of the spline being edited lies within the hit
    /// radius of the mouse. Closes the context menu; then, while editing,
    /// starts dragging the first control point under the mouse, or, when
    /// there is none, appends the mouse position as a new control point.
    pub fn on_canvas_press(&mut self, near: &[bool])
        where P: Copy
        requires
            old(self)@.wf(),
        ensures
            final(self)@ == old(self)@.press(near@),
            final(self).keeps_splines_except(*old(self), old(self)@.edit_target()),
    {
        self.context_menu = None;
        self.open_context_menu = false;

        let mouse = self.mouse_ndc;
        let edit_idx = match self.mode {
            EditMode::Editing { spline_index, .. } => spline_index,
            EditMode::Idle => return,
        };

        let hit = hit_test(&self.splines[edit_idx], near);
        match hit {
            Some(i) => {
                self.mode = EditMode::Editing { spline_index: edit_idx, drag: Some(i), hover: None };
            },
            None => {
                self.splines[edit_idx].push_point(mouse);
                assert(self@.splines =~= old(self)@.splines.update(
                    edit_idx as int,
                    old(self)@.splines[edit_idx as int].with_pushed(mouse),
                ));
            },
        }
    }

    /// Mouse moved to `ndc` (called every frame). `near[i]` tells whether
    /// control point `i` of the spline being edited lies within the hit
    /// radius of `ndc`. While a control point is dragged it follows the
    /// mouse; otherwise the first control point under the mouse becomes the
    /// hovered one.
    pub fn on_mouse_move(&mut self, ndc: P, near: &[bool])
        where P: Copy
        requires
            old(self)@.wf(),
        ensures
            final(self)@ == old(self)@.mouse_move(ndc, near@),
            final(self).keeps_splines_except(*old(self), old(self)@.edit_target()),
    {
        self.mouse_ndc = ndc;

        let (edit_idx, dragging) = match self.mode {
            EditMode::Editing { spline_index, drag, .. } => (spline_index, drag),
            EditMode::Idle => return,
        };

        match dragging {
            Some(point_idx) => {
                self.splines[edit_idx].move_point(point_idx, ndc);
                assert(self@.splines =~= old(self)@.splines.update(
                    edit_idx as int,
                    old(self)@.splines[edit_idx as int].with_moved(point_idx as int, ndc),
                ));
            },
            None => {
                let h = hit_test(&self.splines[edit_idx], near);
                self.mode = EditMode::Editing { spline_index: edit_idx, drag: None, hover: h };
            },
        }
    }

    /// Left mouse button released: ends any drag.
    pub fn on_canvas_release(&mut self)
        ensures
            final(self)@ == old(self)@.release(),
            final(self).keeps_splines_except(*old(self), -1),
    {
        match self.mode {
            EditMode::Editing { spline_index, hover, .. } => {
                self.mode = EditMode::Editing { spline_index, drag: None, hover };
            },
            EditMode::Idle => {},
        }
    }

    /// Right mouse button pressed on the canvas. `near` is as for
    /// `on_canvas_press`. Closes the context menu; then, while editing, opens
    /// it on the first control point under the mouse, if there is one.
    pub fn on_canvas_right_click(&mut self, near: &[bool])
        requires
            old(self)@.wf(),
        ensures
            final(self)@ == old(self)@.right_click(near@),
            final(self).keeps_splines_except(*old(self), -1),
    {
        self.context_menu = None;
        self.open_context_menu = false;

        let edit_idx = match self.mode {
            EditMode::Editing { spline_index, .. } => spline_index,
            EditMode::Idle => return,
        };

        if let Some(i) = hit_test(&self.splines[edit_idx], near) {
            self.context_menu = Some((edit_idx, i));
            self.open_context_menu = true;
        }
    }

    /// Deletes control point `point_index` of spline `spline_index`, ends
    /// any drag or hover, and closes the context menu. Nothing happens when
    /// the point does not exist.
    pub fn delete_point(&mut self, spline_index: usize, point_index: usize)
        ensures
            final(self)@ == old(self)@.delete_point(spline_index, point_index),
            final(self).keeps_splines_except(*old(self), spline_index as int),
    {
        if spline_index >= self.splines.len() {
            return;
        }
        if point_index >= self.splines[spline_index].point_count() {
            return;
        }
        self.splines[spline_index].remove_point(point_index);
        assert(self@.splines =~= old(self)@.splines.update(
            spline_index as int,
            old(self)@.splines[spline_index as int].with_removed(point_index as int),
        ));

        match self.mode {
            EditMode::Editing { spline_index: e, .. } => {
                self.mode = EditMode::Editing { spline_index: e, drag: None, hover: None };
            },
            EditMode::Idle => {},
        }
        self.context_menu = None;
        self.open_context_menu = false;
    }

    /// Records the new window size.
    pub fn resize(&mut self, new_size: P)
        ensures
            final(self)@ == old(self)@.resize(new_size),
            final(self).keeps_splines_except(*old(self), -1),
    {
        self.window_size = new_size;
    }
}

} // verus!
