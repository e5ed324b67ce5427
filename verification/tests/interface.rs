use curve_editor_sample::input::{key_stops_edit, route_mouse_button, CanvasInput, MouseButtonKind};
use curve_editor_sample::render::{draws_curve, quad_triangles, CurveStyle, PointStyle};
use curve_editor_sample::spline::CurveType;
use curve_editor_sample::state::{AppState, EditMode};
use curve_editor_sample::surface::{accepts_resize, preferred_format, surface_extent, uses_msaa, MSAA_SAMPLES};
use curve_editor_sample::ui::{curve_types, point_menu_label, primary_label, PrimaryAction};

type Pt = [f32; 2];

#[test]
fn primary_button_depends_on_mode() {
    let mut s: AppState<Pt> = AppState::new([800.0, 600.0]);
    assert_eq!(s.primary_action(), PrimaryAction::NewLine);
    assert_eq!(primary_label(s.primary_action()), "New Line");
    s.click_primary();
    assert_eq!(s.splines.len(), 1);
    assert_eq!(s.primary_action(), PrimaryAction::DoneEditing);
    assert_eq!(primary_label(s.primary_action()), "Done Editing");
    s.click_primary();
    assert_eq!(s.mode, EditMode::Idle);
    assert_eq!(s.splines.len(), 1);
}

#[test]
fn line_labels_mark_edited_spline() {
    let mut s: AppState<Pt> = AppState::new([800.0, 600.0]);
    s.new_line();
    s.stop_edit();
    s.new_line();
    assert_eq!(s.line_label(0), "Line 0");
    assert_eq!(s.line_label(1), "[EDIT] Line 1");
    assert!(!s.lines_selectable());
    assert_eq!(s.editing_index(), Some(1));
    s.stop_edit();
    assert_eq!(s.line_label(1), "Line 1");
    assert!(s.lines_selectable());
    assert_eq!(s.editing_index(), None);
}

#[test]
fn curve_selector() {
    assert_eq!(
        curve_types(),
        [CurveType::CatmullRom, CurveType::CatmullRomCentripetal, CurveType::BSplineInterp]
    );
    let mut s: AppState<Pt> = AppState::new([800.0, 600.0]);
    s.new_line();
    assert_eq!(s.curve_caption(0), "Catmull-Rom");
    let _ = s.splines[0].curve_vertices(|_, _| Vec::new());
    s.choose_curve_type(0, CurveType::BSplineInterp);
    assert_eq!(s.splines[0].curve_type, CurveType::BSplineInterp);
    assert!(s.splines[0].dirty);
    assert_eq!(s.curve_caption(0), "B-Spline Interp");
}

#[test]
fn context_menu_opens_once() {
    let mut s: AppState<Pt> = AppState::new([800.0, 600.0]);
    s.new_line();
    s.on_canvas_press(&[]);
    s.on_canvas_right_click(&[true]);
    assert!(s.take_context_menu_opening());
    assert!(!s.take_context_menu_opening());
    assert_eq!(s.context_menu, Some((0, 0)));
}

#[test]
fn point_menu_labels() {
    assert_eq!(point_menu_label(0), "Point 0");
    assert_eq!(point_menu_label(7), "Point 7");
    assert_eq!(point_menu_label(305), "Point 305");
}

#[test]
fn styles() {
    let mut s: AppState<Pt> = AppState::new([800.0, 600.0]);
    s.new_line();
    s.stop_edit();
    assert_eq!(s.curve_style(0), CurveStyle::Inactive);
    assert_eq!(s.point_style(0), PointStyle::Normal);
    s.new_line();
    assert_eq!(s.curve_style(0), CurveStyle::Inactive);
    assert_eq!(s.curve_style(1), CurveStyle::Editing);
    s.mode = EditMode::Editing { spline_index: 1, drag: Some(2), hover: Some(3) };
    assert_eq!(s.point_style(2), PointStyle::Dragged);
    assert_eq!(s.point_style(3), PointStyle::Hovered);
    assert_eq!(s.point_style(0), PointStyle::Normal);
    s.mode = EditMode::Editing { spline_index: 1, drag: Some(2), hover: Some(2) };
    assert_eq!(s.point_style(2), PointStyle::Dragged);
}

#[test]
fn curve_drawing_needs_two_vertices() {
    assert!(!draws_curve(0));
    assert!(!draws_curve(1));
    assert!(draws_curve(2));
    assert!(draws_curve(91));
}

#[test]
fn quad_winding() {
    assert_eq!(quad_triangles('a', 'b', 'c', 'd'), ['a', 'b', 'c', 'b', 'd', 'c']);
}

#[test]
fn mouse_routing() {
    assert_eq!(route_mouse_button(MouseButtonKind::Left, true, false), Some(CanvasInput::Press));
    assert_eq!(route_mouse_button(MouseButtonKind::Left, true, true), None);
    assert_eq!(route_mouse_button(MouseButtonKind::Left, false, false), Some(CanvasInput::Release));
    assert_eq!(route_mouse_button(MouseButtonKind::Left, false, true), Some(CanvasInput::Release));
    assert_eq!(route_mouse_button(MouseButtonKind::Right, true, false), Some(CanvasInput::RightClick));
    assert_eq!(route_mouse_button(MouseButtonKind::Right, true, true), None);
    assert_eq!(route_mouse_button(MouseButtonKind::Right, false, false), None);
    assert_eq!(route_mouse_button(MouseButtonKind::Other, true, false), None);
}

#[test]
fn escape_routing() {
    assert!(key_stops_edit(true, false, true));
    assert!(!key_stops_edit(false, false, true));
    assert!(!key_stops_edit(true, true, true));
    assert!(!key_stops_edit(true, false, false));
}

#[test]
fn surface_decisions() {
    assert_eq!(MSAA_SAMPLES, 4);
    assert!(uses_msaa(MSAA_SAMPLES));
    assert!(!uses_msaa(1));
    assert!(!uses_msaa(0));
    assert_eq!(surface_extent(0, 0), (1, 1));
    assert_eq!(surface_extent(1024, 0), (1024, 1));
    assert_eq!(surface_extent(800, 600), (800, 600));
    assert!(accepts_resize(800, 600));
    assert!(!accepts_resize(0, 600));
    assert!(!accepts_resize(800, 0));
    assert_eq!(preferred_format(&[false, true, true]), 1);
    assert_eq!(preferred_format(&[true, false]), 0);
    assert_eq!(preferred_format(&[false, false]), 0);
}
