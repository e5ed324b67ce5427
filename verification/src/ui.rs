//! What the controls window and the context menu show, and what they do.

use vstd::prelude::*;
use crate::spline::{curve_label, CurveType};
use crate::state::{AppModel, AppState, EditMode};
use crate::text::{decimal, labelled_number};

verus! {

/// The button at the top of the controls window.
#[derive(Debug, Clone, Copy, PartialEq, Eq, Structural)]
pub enum PrimaryAction {
    /// Offered while nothing is edited: starts a new spline.
    NewLine,
    /// Offered while a spline is edited: stops editing.
    DoneEditing,
}

/// The caption of the primary button.
pub fn primary_label(a: PrimaryAction) -> (s: &'static str)
    ensures
        s@ == (match a {
            PrimaryAction::NewLine => "New Line"@,
            PrimaryAction::DoneEditing => "Done Editing"@,
        }),
{
    match a {
        PrimaryAction::NewLine => "New Line",
        PrimaryAction::DoneEditing => "Done Editing",
    }
}

/// The curve types in the order the curve selector lists them.
pub fn curve_types() -> (r: [CurveType; 3])
    ensures
        r@ == seq![CurveType::CatmullRom, CurveType::CatmullRomCentripetal, CurveType::BSplineInterp],
{
    [CurveType::CatmullRom, CurveType::CatmullRomCentripetal, CurveType::BSplineInterp]
}

/// The heading of the context menu for control point `p`.
pub fn point_menu_label(p: usize) -> (s: String)
    ensures
        s@ == "Point "@ + decimal(p as nat),
{
    labelled_number("Point ", p)
}

impl<P> AppModel<P> {
    /// The primary button offered in this state.
    pub open spec fn primary_action(self) -> PrimaryAction {
        if self.mode == EditMode::Idle { PrimaryAction::NewLine } else { PrimaryAction::DoneEditing }
    }

    /// What clicking the primary button does.
    pub open spec fn click_primary(self) -> Self {
        match self.primary_action() {
            PrimaryAction::NewLine => self.new_line(),
            PrimaryAction::DoneEditing => self.stop_edit(),
        }
    }

    /// Choosing curve type `ct` for spline `i` in the curve selector.
    pub open spec fn choose_curve_type(self, i: int, ct: CurveType) -> Self {
        AppModel { splines: self.splines.update(i, self.splines[i].with_curve_type(ct)), ..self }
    }

    /// The context menu is opened at most once: the flag is cleared.
    pub open spec fn menu_latched(self) -> Self {
        AppModel { open_context_menu: false, ..self }
    }
}

impl<P> AppState<P> {
    /// The index of the spline being edited, if any.
    pub fn editing_index(&self) -> (r: Option<usize>)
        ensures
            r == self@.editing(),
    {
        match self.mode {
            EditMode::Editing { spline_index, .. } => Some(spline_index),
            EditMode::Idle => None,
        }
    }

    /// The primary button to offer: "New Line" while nothing is edited,
    /// "Done Editing" otherwise.
    pub fn primary_action(&self) -> (a: PrimaryAction)
        ensures
            a == self@.primary_action(),
    {
        match self.mode {
            EditMode::Idle => PrimaryAction::NewLine,
            EditMode::Editing { .. } => PrimaryAction::DoneEditing,
        }
    }

    /// Handles a click on the primary button.
    pub fn click_primary(&mut self)
        ensures
            final(self)@ == old(self)@.click_primary(),
            final(self).keeps_splines_except(*old(self), -1),
    {
        match self.primary_action() {
            PrimaryAction::NewLine => self.new_line(),
            PrimaryAction::DoneEditing => self.stop_edit(),
        }
    }

    /// Whether the lines in the list can be selected for editing: only while
    /// nothing is edited.
    pub fn lines_selectable(&self) -> (b: bool)
        ensures
            b == (self@.editing() is None),
    {
        match self.mode {
            EditMode::Idle => true,
            EditMode::Editing { .. } => false,
        }
    }

    /// The entry for spline `i` in the list of lines.
    pub fn line_label(&self, i: usize) -> (s: String)
        requires
            i < self@.splines.len(),
        ensures
            s@ == (if self@.editing() == Some(i) {
                "[EDIT] "@ + self@.splines[i as int].name
            } else {
                self@.splines[i as int].name
            }),
    {
        let editing = match self.mode {
            EditMode::Editing { spline_index, .. } => spline_index == i,
            EditMode::Idle => false,
        };
        self.splines[i].list_label(editing)
    }

    /// The caption of the curve selector: the name of the curve type of
    /// spline `i`.
    pub fn curve_caption(&self, i: usize) -> (s: &'static str)
        requires
            i < self@.splines.len(),
        ensures
            s@ == curve_label(self@.splines[i as int].curve_type),
    {
        crate::spline::curve_name(self.splines[i].curve_type())
    }

    /// Spline `i` is drawn as curve type `ct` from now on.
    pub fn choose_curve_type(&mut self, i: usize, ct: CurveType)
        requires
            i < old(self)@.splines.len(),
        ensures
            final(self)@ == old(self)@.choose_curve_type(i as int, ct),
            final(self).keeps_splines_except(*old(self), i as int),
    {
        self.splines[i].set_curve_type(ct);
        assert(self@.splines =~= old(self)@.splines.update(
            i as int,
            old(self)@.splines[i as int].with_curve_type(ct),
        ));
    }

    /// Whether the context menu must be opened this frame. The request is
    /// consumed: the next call answers `false` until a new right click.
    pub fn take_context_menu_opening(&mut self) -> (open: bool)
        ensures
            open == old(self).open_context_menu,
            final(self)@ == old(self)@.menu_latched(),
            final(self).keeps_splines_except(*old(self), -1),
    {
        let open = self.open_context_menu;
        self.open_context_menu = false;
        open
    }
}

} // verus!
