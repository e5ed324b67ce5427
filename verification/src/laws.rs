//! Properties of the editor that span several operations.

use vstd::prelude::*;
use crate::spline::{
    Spline, curve_label, sample_count, sample_span, sample_step, CurveType, SplineModel, SEGMENTS_PER_SPAN,
};
use crate::state::{first_near, hit_point, line_name, fresh_spline, AppModel, EditMode};
use crate::render::{CurveStyle, PointStyle};
use crate::ui::PrimaryAction;

verus! {

proof fn lemma_first_near_from(near: Seq<bool>, count: nat, from: nat)
    ensures
        match first_near(near, count, from) {
            Some(i) => from <= i < count && i < near.len() && near[i as int]
                && forall|j: int| from <= j < i ==> !near[j],
            None => forall|j: int| from <= j < count && j < near.len() ==> !near[j],
        },
    decreases count - from,
{
    if from >= count || from >= near.len() {
    } else if near[from as int] {
    } else {
        lemma_first_near_from(near, count, from + 1);
    }
}

/// The control point under the mouse is the first one, in order, among the
/// first `count`, that `near` flags; there is none when none is flagged.
pub proof fn lemma_hit_point_is_first(near: Seq<bool>, count: nat)
    requires
        count <= usize::MAX,
    ensures
        match hit_point(near, count) {
            Some(i) => i < count && i < near.len() && near[i as int]
                && forall|j: int| 0 <= j < i ==> !near[j],
            None => forall|j: int| 0 <= j < count && j < near.len() ==> !near[j],
        },
{
    lemma_first_near_from(near, count, 0);
}

/// Every operation keeps the spline being edited in existence.
pub proof fn lemma_operations_keep_wf<P>(
    m: AppModel<P>,
    near: Seq<bool>,
    ndc: P,
    index: usize,
    s: usize,
    p: usize,
    size: P,
)
    requires
        m.wf(),
    ensures
        m.new_line().wf(),
        m.start_edit(index).wf(),
        m.stop_edit().wf(),
        m.press(near).wf(),
        m.mouse_move(ndc, near).wf(),
        m.release().wf(),
        m.right_click(near).wf(),
        m.delete_point(s, p).wf(),
        m.resize(size).wf(),
{
}

/// No operation leaves a control point both dragged and hovered.
pub proof fn lemma_operations_keep_drag_excludes_hover<P>(
    m: AppModel<P>,
    near: Seq<bool>,
    ndc: P,
    index: usize,
    s: usize,
    p: usize,
    size: P,
)
    requires
        m.drag_excludes_hover(),
    ensures
        m.new_line().drag_excludes_hover(),
        m.start_edit(index).drag_excludes_hover(),
        m.stop_edit().drag_excludes_hover(),
        m.press(near).drag_excludes_hover(),
        m.mouse_move(ndc, near).drag_excludes_hover(),
        m.release().drag_excludes_hover(),
        m.right_click(near).drag_excludes_hover(),
        m.delete_point(s, p).drag_excludes_hover(),
        m.resize(size).drag_excludes_hover(),
{
}

/// Only "New Line" adds a spline, one at a time; nothing removes one.
pub proof fn lemma_only_new_line_adds_splines<P>(
    m: AppModel<P>,
    near: Seq<bool>,
    ndc: P,
    index: usize,
    s: usize,
    p: usize,
    size: P,
)
    requires
        m.wf(),
    ensures
        m.new_line().splines.len() == m.splines.len() + (if m.mode == EditMode::Idle { 1int } else { 0 }),
        m.start_edit(index).splines.len() == m.splines.len(),
        m.stop_edit().splines.len() == m.splines.len(),
        m.press(near).splines.len() == m.splines.len(),
        m.mouse_move(ndc, near).splines.len() == m.splines.len(),
        m.release().splines.len() == m.splines.len(),
        m.right_click(near).splines.len() == m.splines.len(),
        m.delete_point(s, p).splines.len() == m.splines.len(),
        m.resize(size).splines.len() == m.splines.len(),
{
}

/// After "Done Editing", "New Line" always appends a fresh spline named after
/// the number of splines before it, and edits it with nothing grabbed.
pub proof fn lemma_done_then_new_line_edits_fresh_spline<P>(m: AppModel<P>)
    ensures
        ({
            let after = m.stop_edit().new_line();
            &&& after.splines == m.splines.push(fresh_spline(line_name(m.splines.len())))
            &&& after.mode == EditMode::Editing {
                    spline_index: m.splines.len() as usize,
                    drag: None,
                    hover: None,
                }
        }),
{
}

/// A left click on empty canvas adds a control point that deleting the last
/// point of the edited spline takes away again.
pub proof fn lemma_delete_undoes_added_point<P>(m: AppModel<P>, near: Seq<bool>, e: usize)
    requires
        m.wf(),
        m.editing() == Some(e),
        hit_point(near, m.points_of(e as int).len()) is None,
        m.points_of(e as int).len() < usize::MAX,
    ensures
        ({
            let added = m.press(near);
            let removed = added.delete_point(e, m.points_of(e as int).len() as usize);
            &&& added.points_of(e as int) == m.points_of(e as int).push(m.mouse_ndc)
            &&& removed.points_of(e as int) == m.points_of(e as int)
            &&& removed.splines.len() == m.splines.len()
        }),
{
    let added = m.press(near);
    let n = m.points_of(e as int).len();
    assert(added.points_of(e as int).remove(n as int) =~= m.points_of(e as int));
}

/// Clicking on a control point without moving the mouse changes no curve.
pub proof fn lemma_click_on_point_changes_no_curve<P>(m: AppModel<P>, near: Seq<bool>, e: usize)
    requires
        m.wf(),
        m.editing() == Some(e),
        hit_point(near, m.points_of(e as int).len()) is Some,
    ensures
        m.press(near).release().splines == m.splines,
        m.press(near).release().mode == (EditMode::Editing { spline_index: e, drag: None, hover: None }),
{
}

/// Pressing on a control point, moving the mouse to `q` and releasing leaves
/// that point at `q` and every other point where it was.
pub proof fn lemma_drag_moves_grabbed_point<P>(
    m: AppModel<P>,
    near: Seq<bool>,
    q: P,
    near_q: Seq<bool>,
    e: usize,
)
    requires
        m.wf(),
        m.editing() == Some(e),
        hit_point(near, m.points_of(e as int).len()) is Some,
        m.points_of(e as int).len() <= usize::MAX,
    ensures
        ({
            let i = hit_point(near, m.points_of(e as int).len())->0;
            let after = m.press(near).mouse_move(q, near_q).release();
            &&& after.points_of(e as int) == m.points_of(e as int).update(i as int, q)
            &&& after.splines[e as int].dirty
            &&& forall|j: int| 0 <= j < m.splines.len() && j != e ==> after.splines[j] == m.splines[j]
            &&& after.mode == (EditMode::Editing { spline_index: e, drag: None, hover: None })
            &&& after.mouse_ndc == q
        }),
{
    lemma_hit_point_is_first(near, m.points_of(e as int).len());
}

/// The context menu opens on the control point under the mouse, and its
/// "Delete Point" removes exactly that point and closes the menu.
pub proof fn lemma_menu_deletes_its_point<P>(m: AppModel<P>, near: Seq<bool>, e: usize)
    requires
        m.wf(),
        m.editing() == Some(e),
        hit_point(near, m.points_of(e as int).len()) is Some,
        m.points_of(e as int).len() <= usize::MAX,
    ensures
        ({
            let i = hit_point(near, m.points_of(e as int).len())->0;
            let menu = m.right_click(near);
            let after = menu.delete_point(e, i);
            &&& menu.context_menu == Some((e, i))
            &&& menu.open_context_menu
            &&& after.points_of(e as int) == m.points_of(e as int).remove(i as int)
            &&& after.context_menu is None
            &&& !after.open_context_menu
        }),
{
    lemma_hit_point_is_first(near, m.points_of(e as int).len());
}

/// Adding a point and removing the last one gives back the control points.
pub proof fn lemma_remove_undoes_push<P>(s: SplineModel<P>, p: P)
    ensures
        s.with_pushed(p).with_removed(s.points.len() as int).points == s.points,
{
    assert(s.points.push(p).remove(s.points.len() as int) =~= s.points);
}

/// The cache rule holds, for every tessellator, of any spline marked dirty:
/// so of a new spline, and after every edit, since pushing a point, moving or
/// removing an existing one and choosing a curve type all mark the spline
/// dirty (`lemma_edits_mark_dirty`), while moving or removing a missing point
/// leaves the spline as it was. Drawing (`Spline::curve_vertices`) keeps the
/// rule and leaves the spline clean, so a drawn spline holds the
/// tessellation of its current points and curve type.
pub proof fn lemma_dirty_spline_cache_current<P, F: Fn(&Vec<P>, CurveType) -> Vec<P>>(
    s: Spline<P>,
    f: F,
)
    requires
        s@.dirty,
    ensures
        s.cache_current(f),
{
}

/// The cache rule of every spline survives every operation of the editor:
/// a spline an operation leaves alone keeps its model, and one it edits is
/// marked dirty. So a spline drawn with a tessellator keeps holding that
/// tessellator's curve of its current points until it is edited, whatever
/// else happens in between.
pub proof fn lemma_operations_keep_caches_current<P, F: Fn(&Vec<P>, CurveType) -> Vec<P>>(
    m: AppModel<P>,
    f: F,
    j: int,
    near: Seq<bool>,
    ndc: P,
    index: usize,
    s: usize,
    p: usize,
    size: P,
    i: int,
    ct: CurveType,
)
    requires
        m.wf(),
        0 <= j < m.splines.len(),
        0 <= i < m.splines.len(),
        m.splines[j].cache_current(f),
    ensures
        m.new_line().splines[j].cache_current(f),
        m.new_line().mode != m.mode ==> m.new_line().splines.last().dirty,
        m.start_edit(index).splines[j].cache_current(f),
        m.stop_edit().splines[j].cache_current(f),
        m.press(near).splines[j].cache_current(f),
        m.mouse_move(ndc, near).splines[j].cache_current(f),
        m.release().splines[j].cache_current(f),
        m.right_click(near).splines[j].cache_current(f),
        m.delete_point(s, p).splines[j].cache_current(f),
        m.resize(size).splines[j].cache_current(f),
        m.choose_curve_type(i, ct).splines[j].cache_current(f),
{
}

/// Moving a point away and back gives back the control points.
pub proof fn lemma_move_back_restores<P>(s: SplineModel<P>, i: int, p: P)
    ensures
        0 <= i < s.points.len() ==> s.with_moved(i, p).with_moved(i, s.points[i]).points == s.points,
{
    if 0 <= i < s.points.len() {
        assert(s.points.update(i, p).update(i, s.points[i]) =~= s.points);
    }
}

/// Every edit of a spline's points or curve type marks it for
/// re-tessellation.
pub proof fn lemma_edits_mark_dirty<P>(s: SplineModel<P>, p: P, i: int, ct: CurveType)
    ensures
        s.with_pushed(p).dirty,
        0 <= i < s.points.len() ==> s.with_moved(i, p).dirty && s.with_removed(i).dirty,
        s.with_curve_type(ct).dirty,
{
}

/// Sample `k` of a tessellated curve lies at curve parameter
/// `k / SEGMENTS_PER_SPAN`: its span times `SEGMENTS_PER_SPAN` plus its step
/// is `k`. Spans join neighbouring control points, steps run up to
/// `SEGMENTS_PER_SPAN`, and only the very first sample has step 0, so the
/// end of one span is not sampled twice.
pub proof fn lemma_sample_parameter(n: nat, k: nat)
    requires
        k < sample_count(n),
    ensures
        sample_span(k) * SEGMENTS_PER_SPAN + sample_step(k) == k,
        sample_span(k) + 1 < n,
        sample_step(k) <= SEGMENTS_PER_SPAN,
        sample_step(k) == 0 <==> k == 0,
{
    if k > 0 {
        let q = (k - 1) / SEGMENTS_PER_SPAN as int;
        let r = (k - 1) % SEGMENTS_PER_SPAN as int;
        vstd::arithmetic::div_mod::lemma_fundamental_div_mod(k - 1, SEGMENTS_PER_SPAN as int);
        assert(q * SEGMENTS_PER_SPAN < (n - 1) * SEGMENTS_PER_SPAN) by (nonlinear_arith)
            requires
                q * SEGMENTS_PER_SPAN <= k - 1,
                k - 1 < (n - 1) * SEGMENTS_PER_SPAN;
        assert(q < n - 1) by (nonlinear_arith)
            requires
                q * 30 < (n - 1) * 30;
    }
}

/// The curve selector shows a different label for each curve type.
pub proof fn lemma_curve_labels_distinct(a: CurveType, b: CurveType)
    ensures
        curve_label(a) == curve_label(b) <==> a == b,
{
    reveal_strlit("Catmull-Rom");
    reveal_strlit("CR Centripetal");
    reveal_strlit("B-Spline Interp");
    if a != b {
        assert(curve_label(a).len() != curve_label(b).len() || curve_label(a)[0] != curve_label(b)[0]);
    }
}


// ---- What each operation does, field by field ---------------------------

/// Selecting a line: from an idle state, selecting any existing spline edits
/// it with nothing grabbed or hovered; selecting while a spline is edited, or
/// selecting a missing spline, changes nothing. Nothing else changes.
pub proof fn lemma_start_edit_selects<P>(m: AppModel<P>, i: usize)
    ensures
        m.mode == EditMode::Idle && i < m.splines.len() ==>
            m.start_edit(i).mode == (EditMode::Editing { spline_index: i, drag: None, hover: None }),
        !(m.mode == EditMode::Idle && i < m.splines.len()) ==> m.start_edit(i) == m,
        m.start_edit(i).splines == m.splines,
        m.start_edit(i).mouse_ndc == m.mouse_ndc,
        m.start_edit(i).window_size == m.window_size,
        m.start_edit(i).context_menu == m.context_menu,
        m.start_edit(i).open_context_menu == m.open_context_menu,
{
}

/// "Done Editing" and Escape: nothing is edited afterwards and the menu is
/// closed, whatever was going on; the splines, the mouse and the window are
/// untouched.
pub proof fn lemma_stop_edit_idles<P>(m: AppModel<P>)
    ensures
        m.stop_edit().mode == EditMode::Idle,
        m.stop_edit().context_menu is None,
        !m.stop_edit().open_context_menu,
        m.stop_edit().splines == m.splines,
        m.stop_edit().mouse_ndc == m.mouse_ndc,
        m.stop_edit().window_size == m.window_size,
{
}

/// "New Line": from an idle state, exactly one spline is appended, with no
/// points, drawn as Catmull-Rom, marked for drawing, named "Line n" after the
/// number n of splines before it, and it is the one edited; the existing
/// splines, the mouse, the window and the menu are untouched. While a
/// spline is edited nothing changes.
pub proof fn lemma_new_line_appends_and_edits<P>(m: AppModel<P>)
    ensures
        m.mode != EditMode::Idle ==> m.new_line() == m,
        m.mode == EditMode::Idle ==> {
            let r = m.new_line();
            &&& r.splines.len() == m.splines.len() + 1
            &&& r.splines.subrange(0, m.splines.len() as int) == m.splines
            &&& r.splines.last().points.len() == 0
            &&& r.splines.last().curve_type == CurveType::CatmullRom
            &&& r.splines.last().dirty
            &&& r.splines.last().name == "Line "@ + crate::text::decimal(m.splines.len())
            &&& r.mode == (EditMode::Editing { spline_index: m.splines.len() as usize, drag: None, hover: None })
            &&& r.mouse_ndc == m.mouse_ndc
            &&& r.window_size == m.window_size
            &&& r.context_menu == m.context_menu
            &&& r.open_context_menu == m.open_context_menu
        },
{
    if m.mode == EditMode::Idle {
        assert(m.new_line().splines.subrange(0, m.splines.len() as int) =~= m.splines);
    }
}

/// Two lines never get the same name: names are "Line " followed by
/// different numbers in decimal.
pub proof fn lemma_line_names_distinct(a: nat, b: nat)
    ensures
        line_name(a) == line_name(b) <==> a == b,
{
    if line_name(a) == line_name(b) {
        reveal_strlit("Line ");
        assert(line_name(a).subrange(5, line_name(a).len() as int) =~= crate::text::decimal(a));
        assert(line_name(b).subrange(5, line_name(b).len() as int) =~= crate::text::decimal(b));
        crate::text::lemma_decimal_value(a);
        crate::text::lemma_decimal_value(b);
    }
}

/// Left press: the menu always closes and the mouse and the window stay.
/// While idle nothing else changes. While spline `e` is edited: on a control
/// point, the first point under the mouse is grabbed and nothing is hovered,
/// and no spline changes; elsewhere, the mouse position is appended to
/// spline `e`, which is marked for drawing, and nothing else changes.
pub proof fn lemma_press_effect<P>(m: AppModel<P>, near: Seq<bool>)
    requires
        m.wf(),
        forall|j: int| 0 <= j < m.splines.len() ==> #[trigger] m.splines[j].points.len() <= usize::MAX,
    ensures
        m.press(near).context_menu is None,
        !m.press(near).open_context_menu,
        m.press(near).mouse_ndc == m.mouse_ndc,
        m.press(near).window_size == m.window_size,
        match m.mode {
            EditMode::Idle => m.press(near).splines == m.splines && m.press(near).mode == m.mode,
            EditMode::Editing { spline_index: e, .. } => {
                let n = m.splines[e as int].points.len();
                let r = m.press(near);
                &&& (exists|i: int| 0 <= i < n && i < near.len() && #[trigger] near[i]) ==> {
                    &&& r.splines == m.splines
                    &&& exists|i: usize| {
                        &&& #[trigger] r.mode == (EditMode::Editing { spline_index: e, drag: Some(i), hover: None })
                        &&& i < n && i < near.len() && near[i as int]
                        &&& forall|j: int| 0 <= j < i ==> !near[j]
                    }
                }
                &&& !(exists|i: int| 0 <= i < n && i < near.len() && #[trigger] near[i]) ==> {
                    &&& r.mode == m.mode
                    &&& r.splines.len() == m.splines.len()
                    &&& r.splines[e as int].points == m.splines[e as int].points.push(m.mouse_ndc)
                    &&& r.splines[e as int].dirty
                    &&& r.splines[e as int].curve_type == m.splines[e as int].curve_type
                    &&& r.splines[e as int].name == m.splines[e as int].name
                    &&& forall|j: int| 0 <= j < m.splines.len() && j != e ==> r.splines[j] == m.splines[j]
                }
            },
        },
{
    match m.mode {
        EditMode::Idle => {},
        EditMode::Editing { spline_index: e, .. } => {
            let n = m.splines[e as int].points.len();
            lemma_first_near_from(near, n, 0);
            if exists|i: int| 0 <= i < n && i < near.len() && #[trigger] near[i] {
                let i = choose|i: int| 0 <= i < n && i < near.len() && #[trigger] near[i];
                assert(first_near(near, n, 0) is Some);
                let k = first_near(near, n, 0)->0;
                assert(k as usize == k);
                let ku = k as usize;
                assert(m.press(near).mode == (EditMode::Editing { spline_index: e, drag: Some(ku), hover: None }));
            } else {
                assert(first_near(near, n, 0) is None) by {
                    if first_near(near, n, 0) is Some {
                        let k = first_near(near, n, 0)->0;
                        assert(0 <= k < n && k < near.len() && near[k as int]);
                    }
                }
            }
        },
    }
}

/// Mouse move to `ndc`: the mouse is at `ndc` afterwards, and the window and
/// the context menu (target and opening request) are untouched, so an open
/// menu stays reachable. While idle nothing else changes. While a point
/// `d` of the edited spline is grabbed, that point (when it exists) moves to
/// `ndc`, the edit mode stays, and no other spline changes. Otherwise the
/// first point under the mouse becomes the hovered one and no spline changes.
pub proof fn lemma_mouse_move_effect<P>(m: AppModel<P>, ndc: P, near: Seq<bool>)
    requires
        m.wf(),
    ensures
        m.mouse_move(ndc, near).mouse_ndc == ndc,
        m.mouse_move(ndc, near).window_size == m.window_size,
        m.mouse_move(ndc, near).context_menu == m.context_menu,
        m.mouse_move(ndc, near).open_context_menu == m.open_context_menu,
        match m.mode {
            EditMode::Idle => m.mouse_move(ndc, near).splines == m.splines
                && m.mouse_move(ndc, near).mode == EditMode::Idle,
            EditMode::Editing { spline_index: e, drag: Some(d), .. } => {
                let r = m.mouse_move(ndc, near);
                &&& r.mode == m.mode
                &&& r.splines.len() == m.splines.len()
                &&& d < m.splines[e as int].points.len() ==> {
                    &&& r.splines[e as int].points == m.splines[e as int].points.update(d as int, ndc)
                    &&& r.splines[e as int].dirty
                }
                &&& d >= m.splines[e as int].points.len() ==> r.splines[e as int] == m.splines[e as int]
                &&& r.splines[e as int].name == m.splines[e as int].name
                &&& r.splines[e as int].curve_type == m.splines[e as int].curve_type
                &&& forall|j: int| 0 <= j < m.splines.len() && j != e ==> r.splines[j] == m.splines[j]
            },
            EditMode::Editing { spline_index: e, drag: None, .. } => {
                let r = m.mouse_move(ndc, near);
                &&& r.splines == m.splines
                &&& r.mode == (EditMode::Editing {
                        spline_index: e,
                        drag: None,
                        hover: hit_point(near, m.splines[e as int].points.len()),
                    })
            },
        },
{
}

/// Release: a grab ends; which spline is edited and which point is hovered
/// stay, and nothing else changes.
pub proof fn lemma_release_effect<P>(m: AppModel<P>)
    ensures
        match m.mode {
            EditMode::Idle => m.release() == m,
            EditMode::Editing { spline_index: e, hover: h, .. } =>
                m.release().mode == (EditMode::Editing { spline_index: e, drag: None, hover: h }),
        },
        m.release().splines == m.splines,
        m.release().mouse_ndc == m.mouse_ndc,
        m.release().window_size == m.window_size,
        m.release().context_menu == m.context_menu,
        m.release().open_context_menu == m.open_context_menu,
{
}

/// Right press: while spline `e` is edited and a control point is under the
/// mouse, the menu targets `(e, i)` for the first such point `i` and is to be
/// opened; otherwise the menu closes. The splines, the edit mode, the mouse
/// and the window never change.
pub proof fn lemma_right_click_effect<P>(m: AppModel<P>, near: Seq<bool>)
    ensures
        m.right_click(near).splines == m.splines,
        m.right_click(near).mode == m.mode,
        m.right_click(near).mouse_ndc == m.mouse_ndc,
        m.right_click(near).window_size == m.window_size,
        match m.mode {
            EditMode::Idle => m.right_click(near).context_menu is None && !m.right_click(near).open_context_menu,
            EditMode::Editing { spline_index: e, .. } => {
                let r = m.right_click(near);
                match hit_point(near, m.splines[e as int].points.len()) {
                    Some(i) => r.context_menu == Some((e, i)) && r.open_context_menu,
                    None => r.context_menu is None && !r.open_context_menu,
                }
            },
        },
{
}

/// Deleting control point `p` of spline `s`: when it exists, it is removed,
/// the other points of `s` keep their order, `s` is marked for drawing, no
/// other spline changes, whatever is edited stays edited with nothing grabbed
/// or hovered, and the menu closes. When it does not exist nothing changes.
pub proof fn lemma_delete_point_effect<P>(m: AppModel<P>, s: usize, p: usize)
    ensures
        !(s < m.splines.len() && p < m.splines[s as int].points.len()) ==> m.delete_point(s, p) == m,
        s < m.splines.len() && p < m.splines[s as int].points.len() ==> {
            let r = m.delete_point(s, p);
            &&& r.splines.len() == m.splines.len()
            &&& r.splines[s as int].points.len() + 1 == m.splines[s as int].points.len()
            &&& forall|j: int| 0 <= j < p ==> r.splines[s as int].points[j] == m.splines[s as int].points[j]
            &&& forall|j: int| p <= j < r.splines[s as int].points.len() ==>
                    r.splines[s as int].points[j] == m.splines[s as int].points[j + 1]
            &&& r.splines[s as int].dirty
            &&& forall|j: int| 0 <= j < m.splines.len() && j != s ==> r.splines[j] == m.splines[j]
            &&& r.mode == (match m.mode {
                    EditMode::Idle => EditMode::Idle,
                    EditMode::Editing { spline_index: e, .. } => EditMode::Editing { spline_index: e, drag: None, hover: None },
                })
            &&& r.context_menu is None
            &&& !r.open_context_menu
            &&& r.mouse_ndc == m.mouse_ndc
            &&& r.window_size == m.window_size
        },
{
}

/// Resizing changes the window size only.
pub proof fn lemma_resize_effect<P>(m: AppModel<P>, size: P)
    ensures
        m.resize(size).window_size == size,
        m.resize(size).splines == m.splines,
        m.resize(size).mode == m.mode,
        m.resize(size).mouse_ndc == m.mouse_ndc,
        m.resize(size).context_menu == m.context_menu,
        m.resize(size).open_context_menu == m.open_context_menu,
{
}

/// Choosing curve type `ct` for spline `i`: it is drawn as `ct` afterwards,
/// whatever it was drawn as before, and is marked for drawing; its points and
/// name, and every other spline, stay as they were.
pub proof fn lemma_choose_curve_type_effect<P>(m: AppModel<P>, i: int, ct: CurveType)
    requires
        0 <= i < m.splines.len(),
    ensures
        m.choose_curve_type(i, ct).splines.len() == m.splines.len(),
        m.choose_curve_type(i, ct).splines[i].curve_type == ct,
        m.choose_curve_type(i, ct).splines[i].dirty,
        m.choose_curve_type(i, ct).splines[i].points == m.splines[i].points,
        m.choose_curve_type(i, ct).splines[i].name == m.splines[i].name,
        forall|j: int| 0 <= j < m.splines.len() && j != i ==> m.choose_curve_type(i, ct).splines[j] == m.splines[j],
        m.choose_curve_type(i, ct).mode == m.mode,
{
}

/// Spline edits: pushing appends exactly the point; moving an existing point
/// replaces exactly it; removing an existing point drops exactly it, keeping
/// the order; choosing a curve type sets exactly it. Each keeps the name and
/// the cache, and everything it does not edit.
pub proof fn lemma_spline_edits<P>(s: SplineModel<P>, p: P, i: int, ct: CurveType)
    ensures
        s.with_pushed(p).points.len() == s.points.len() + 1,
        s.with_pushed(p).points.last() == p,
        forall|j: int| 0 <= j < s.points.len() ==> s.with_pushed(p).points[j] == s.points[j],
        s.with_pushed(p).curve_type == s.curve_type,
        s.with_pushed(p).name == s.name,
        s.with_pushed(p).cached == s.cached,
        0 <= i < s.points.len() ==> {
            &&& s.with_moved(i, p).points.len() == s.points.len()
            &&& s.with_moved(i, p).points[i] == p
            &&& forall|j: int| 0 <= j < s.points.len() && j != i ==> s.with_moved(i, p).points[j] == s.points[j]
            &&& s.with_removed(i).points.len() + 1 == s.points.len()
            &&& forall|j: int| 0 <= j < i ==> s.with_removed(i).points[j] == s.points[j]
            &&& forall|j: int| i <= j < s.points.len() - 1 ==> s.with_removed(i).points[j] == s.points[j + 1]
        },
        !(0 <= i < s.points.len()) ==> s.with_moved(i, p) == s && s.with_removed(i) == s,
        s.with_moved(i, p).curve_type == s.curve_type,
        s.with_removed(i).curve_type == s.curve_type,
        s.with_curve_type(ct).curve_type == ct,
        s.with_curve_type(ct).points == s.points,
        s.with_curve_type(ct).name == s.name,
        s.with_curve_type(ct).cached == s.cached,
{
}

/// The primary button: "New Line" exactly while nothing is edited, and
/// clicking it starts a new line then, or stops editing otherwise.
pub proof fn lemma_primary_button<P>(m: AppModel<P>)
    ensures
        (m.primary_action() == PrimaryAction::NewLine) <==> m.mode == EditMode::Idle,
        m.mode == EditMode::Idle ==> m.click_primary() == m.new_line(),
        m.mode != EditMode::Idle ==> m.click_primary().mode == EditMode::Idle
            && m.click_primary().splines == m.splines,
{
}

/// Drawing styles: a curve is highlighted exactly while it is the one
/// edited; a control point is drawn as dragged exactly when it is grabbed,
/// as hovered exactly when it is hovered but not grabbed, and plainly
/// otherwise, whatever the other of the two fields holds.
pub proof fn lemma_styles<P>(m: AppModel<P>, i: usize)
    ensures
        (m.curve_style(i) == CurveStyle::Editing) <==> m.editing() == Some(i),
        match m.mode {
            EditMode::Idle => m.point_style(i) == PointStyle::Normal,
            EditMode::Editing { drag: d, hover: h, .. } => {
                &&& (m.point_style(i) == PointStyle::Dragged) <==> d == Some(i)
                &&& (m.point_style(i) == PointStyle::Hovered) <==> (d != Some(i) && h == Some(i))
                &&& (m.point_style(i) == PointStyle::Normal) <==> (d != Some(i) && h != Some(i))
            },
        },
{
}

/// The index of the edited spline is the one in the edit mode.
pub proof fn lemma_editing_index<P>(m: AppModel<P>)
    ensures
        match m.mode {
            EditMode::Idle => m.editing() is None,
            EditMode::Editing { spline_index: e, .. } => m.editing() == Some(e),
        },
{
}

/// The curve starts at the start of the first span and ends at the end of
/// the last span, that is at the first and the last control point.
pub proof fn lemma_sample_ends(n: nat)
    requires
        n >= 2,
    ensures
        sample_count(n) == (n - 1) * SEGMENTS_PER_SPAN + 1,
        sample_span(0) == 0 && sample_step(0) == 0,
        sample_span((sample_count(n) - 1) as nat) == n - 2,
        sample_step((sample_count(n) - 1) as nat) == SEGMENTS_PER_SPAN,
{
    let k = (sample_count(n) - 1) as nat;
    assert(k >= 1) by (nonlinear_arith)
        requires
            n >= 2,
            k == (n - 1) * 30;
    vstd::arithmetic::div_mod::lemma_fundamental_div_mod_converse(
        k - 1,
        SEGMENTS_PER_SPAN as int,
        n - 2,
        SEGMENTS_PER_SPAN - 1,
    );
}

/// The menu opening request is consumed: afterwards it is off, and nothing
/// else changes.
pub proof fn lemma_menu_latched<P>(m: AppModel<P>)
    ensures
        !m.menu_latched().open_context_menu,
        m.menu_latched().context_menu == m.context_menu,
        m.menu_latched().splines == m.splines,
        m.menu_latched().mode == m.mode,
{
}

} // verus!
