use curve_editor_sample::spline::{CurveType, Spline};
use curve_editor_sample::state::{AppState, EditMode};

type Pt = [f32; 2];

fn editing_state(points: &[Pt]) -> AppState<Pt> {
    let mut s: AppState<Pt> = AppState::new([800.0, 600.0]);
    s.new_line();
    for p in points {
        s.on_mouse_move(*p, &[]);
        let near = vec![false; s.splines[0].control_points.len()];
        s.on_canvas_press(&near);
        s.on_canvas_release();
    }
    s
}

#[test]
fn new_state_is_idle_and_empty() {
    let s: AppState<Pt> = AppState::new([1024.0, 768.0]);
    assert!(s.splines.is_empty());
    assert_eq!(s.mode, EditMode::Idle);
    assert_eq!(s.mouse_ndc, [0.0, 0.0]);
    assert_eq!(s.window_size, [1024.0, 768.0]);
    assert_eq!(s.context_menu, None);
    assert!(!s.open_context_menu);
}

#[test]
fn new_line_names_and_edits_the_new_spline() {
    let mut s: AppState<Pt> = AppState::new([800.0, 600.0]);
    s.new_line();
    assert_eq!(s.splines.len(), 1);
    assert_eq!(s.splines[0].name, "Line 0");
    assert_eq!(s.splines[0].curve_type, CurveType::CatmullRom);
    assert!(s.splines[0].dirty);
    assert_eq!(s.mode, EditMode::Editing { spline_index: 0, drag: None, hover: None });
}

#[test]
fn new_line_is_ignored_while_editing() {
    let mut s: AppState<Pt> = AppState::new([800.0, 600.0]);
    s.new_line();
    s.new_line();
    assert_eq!(s.splines.len(), 1);
    s.stop_edit();
    s.new_line();
    assert_eq!(s.splines.len(), 2);
    assert_eq!(s.splines[1].name, "Line 1");
    assert_eq!(s.mode, EditMode::Editing { spline_index: 1, drag: None, hover: None });
}

#[test]
fn line_names_use_decimal_numbers() {
    let mut s: AppState<Pt> = AppState::new([800.0, 600.0]);
    for _ in 0..12 {
        s.new_line();
        s.stop_edit();
    }
    assert_eq!(s.splines[10].name, "Line 10");
    assert_eq!(s.splines[11].name, "Line 11");
}

#[test]
fn start_edit_only_from_idle_and_existing_index() {
    let mut s: AppState<Pt> = AppState::new([800.0, 600.0]);
    s.start_edit(0);
    assert_eq!(s.mode, EditMode::Idle);
    s.new_line();
    s.stop_edit();
    s.new_line();
    s.stop_edit();
    s.start_edit(5);
    assert_eq!(s.mode, EditMode::Idle);
    s.start_edit(0);
    assert_eq!(s.mode, EditMode::Editing { spline_index: 0, drag: None, hover: None });
    s.start_edit(1);
    assert_eq!(s.mode, EditMode::Editing { spline_index: 0, drag: None, hover: None });
}

#[test]
fn stop_edit_closes_menu() {
    let mut s = editing_state(&[[0.1, 0.1]]);
    s.on_mouse_move([0.1, 0.1], &[true]);
    s.on_canvas_right_click(&[true]);
    assert_eq!(s.context_menu, Some((0, 0)));
    s.stop_edit();
    assert_eq!(s.mode, EditMode::Idle);
    assert_eq!(s.context_menu, None);
    assert!(!s.open_context_menu);
}

#[test]
fn press_on_empty_canvas_adds_point_at_mouse() {
    let s = editing_state(&[[0.1, 0.2], [-0.5, 0.5]]);
    assert_eq!(s.splines[0].control_points, vec![[0.1, 0.2], [-0.5, 0.5]]);
    assert!(s.splines[0].dirty);
}

#[test]
fn press_while_idle_only_closes_menu() {
    let mut s: AppState<Pt> = AppState::new([800.0, 600.0]);
    s.new_line();
    s.stop_edit();
    s.context_menu = Some((0, 0));
    s.open_context_menu = true;
    s.on_canvas_press(&[]);
    assert!(s.splines[0].control_points.is_empty());
    assert_eq!(s.context_menu, None);
    assert!(!s.open_context_menu);
}

#[test]
fn press_on_point_grabs_first_near_point() {
    let mut s = editing_state(&[[0.0, 0.0], [0.01, 0.0], [0.5, 0.5]]);
    s.on_canvas_press(&[false, true, true]);
    assert_eq!(s.mode, EditMode::Editing { spline_index: 0, drag: Some(1), hover: None });
    assert_eq!(s.splines[0].control_points.len(), 3);
}

#[test]
fn drag_moves_grabbed_point() {
    let mut s = editing_state(&[[0.0, 0.0], [0.5, 0.5]]);
    s.on_mouse_move([0.5, 0.5], &[false, true]);
    assert_eq!(s.mode, EditMode::Editing { spline_index: 0, drag: None, hover: Some(1) });
    s.on_canvas_press(&[false, true]);
    assert_eq!(s.mode, EditMode::Editing { spline_index: 0, drag: Some(1), hover: None });
    s.on_mouse_move([0.7, -0.2], &[false, false]);
    assert_eq!(s.splines[0].control_points, vec![[0.0, 0.0], [0.7, -0.2]]);
    assert_eq!(s.mouse_ndc, [0.7, -0.2]);
    s.on_canvas_release();
    assert_eq!(s.mode, EditMode::Editing { spline_index: 0, drag: None, hover: None });
    assert_eq!(s.splines[0].control_points, vec![[0.0, 0.0], [0.7, -0.2]]);
}

#[test]
fn click_without_move_keeps_curve() {
    let mut s = editing_state(&[[0.0, 0.0], [0.5, 0.5]]);
    let before = s.splines[0].control_points.clone();
    s.on_canvas_press(&[true, false]);
    s.on_canvas_release();
    assert_eq!(s.splines[0].control_points, before);
    assert_eq!(s.mode, EditMode::Editing { spline_index: 0, drag: None, hover: None });
}

#[test]
fn hover_follows_mouse_when_not_dragging() {
    let mut s = editing_state(&[[0.0, 0.0], [0.5, 0.5]]);
    s.on_mouse_move([0.0, 0.0], &[true, false]);
    assert_eq!(s.mode, EditMode::Editing { spline_index: 0, drag: None, hover: Some(0) });
    s.on_mouse_move([0.9, 0.9], &[false, false]);
    assert_eq!(s.mode, EditMode::Editing { spline_index: 0, drag: None, hover: None });
}

#[test]
fn near_flags_past_the_points_are_ignored() {
    let mut s = editing_state(&[[0.0, 0.0]]);
    s.on_mouse_move([0.3, 0.3], &[false, true, true]);
    assert_eq!(s.mode, EditMode::Editing { spline_index: 0, drag: None, hover: None });
    s.on_canvas_press(&[false, true]);
    assert_eq!(s.splines[0].control_points.len(), 2);
}

#[test]
fn mouse_move_while_idle_only_tracks_mouse() {
    let mut s: AppState<Pt> = AppState::new([800.0, 600.0]);
    s.on_mouse_move([0.25, -0.75], &[true]);
    assert_eq!(s.mouse_ndc, [0.25, -0.75]);
    assert_eq!(s.mode, EditMode::Idle);
}

#[test]
fn right_click_opens_menu_on_point() {
    let mut s = editing_state(&[[0.0, 0.0], [0.5, 0.5], [0.6, 0.6]]);
    s.on_canvas_right_click(&[false, false, true]);
    assert_eq!(s.context_menu, Some((0, 2)));
    assert!(s.open_context_menu);
    s.on_canvas_right_click(&[false, false, false]);
    assert_eq!(s.context_menu, None);
    assert!(!s.open_context_menu);
}

#[test]
fn right_click_while_idle_closes_menu() {
    let mut s: AppState<Pt> = AppState::new([800.0, 600.0]);
    s.context_menu = Some((3, 4));
    s.open_context_menu = true;
    s.on_canvas_right_click(&[true]);
    assert_eq!(s.context_menu, None);
    assert!(!s.open_context_menu);
}

#[test]
fn menu_delete_removes_its_point() {
    let mut s = editing_state(&[[0.0, 0.0], [0.5, 0.5], [0.6, 0.6]]);
    s.on_mouse_move([0.5, 0.5], &[false, true, false]);
    s.on_canvas_right_click(&[false, true, false]);
    let (si, pi) = s.context_menu.unwrap();
    s.delete_point(si, pi);
    assert_eq!(s.splines[0].control_points, vec![[0.0, 0.0], [0.6, 0.6]]);
    assert_eq!(s.mode, EditMode::Editing { spline_index: 0, drag: None, hover: None });
    assert_eq!(s.context_menu, None);
    assert!(!s.open_context_menu);
    assert!(s.splines[0].dirty);
}

#[test]
fn delete_of_missing_point_changes_nothing() {
    let mut s = editing_state(&[[0.0, 0.0]]);
    s.on_mouse_move([0.0, 0.0], &[true]);
    s.context_menu = Some((0, 0));
    s.delete_point(0, 1);
    s.delete_point(3, 0);
    assert_eq!(s.splines[0].control_points, vec![[0.0, 0.0]]);
    assert_eq!(s.mode, EditMode::Editing { spline_index: 0, drag: None, hover: Some(0) });
    assert_eq!(s.context_menu, Some((0, 0)));
}

#[test]
fn delete_undoes_added_point() {
    let mut s = editing_state(&[[0.0, 0.0], [0.5, 0.5]]);
    let before = s.splines[0].control_points.clone();
    s.on_mouse_move([-0.3, 0.4], &[false, false]);
    s.on_canvas_press(&[false, false]);
    assert_eq!(s.splines[0].control_points.len(), 3);
    s.delete_point(0, 2);
    assert_eq!(s.splines[0].control_points, before);
    assert_eq!(s.splines.len(), 1);
}

#[test]
fn delete_while_idle_keeps_idle() {
    let mut s = editing_state(&[[0.0, 0.0], [0.5, 0.5]]);
    s.stop_edit();
    s.delete_point(0, 0);
    assert_eq!(s.mode, EditMode::Idle);
    assert_eq!(s.splines[0].control_points, vec![[0.5, 0.5]]);
}

#[test]
fn release_while_idle_changes_nothing() {
    let mut s: AppState<Pt> = AppState::new([800.0, 600.0]);
    s.on_canvas_release();
    assert_eq!(s.mode, EditMode::Idle);
}

#[test]
fn resize_records_size() {
    let mut s: AppState<Pt> = AppState::new([800.0, 600.0]);
    s.resize([1920.0, 1080.0]);
    assert_eq!(s.window_size, [1920.0, 1080.0]);
}

#[test]
fn spline_edits_mark_dirty() {
    let mut sp: Spline<Pt> = Spline::new(String::from("x"));
    let _ = sp.curve_vertices(|_, _| Vec::new());
    assert!(!sp.dirty);
    sp.push_point([1.0, 2.0]);
    assert!(sp.dirty);
    let _ = sp.curve_vertices(|_, _| Vec::new());
    sp.move_point(5, [0.0, 0.0]);
    assert!(!sp.dirty);
    sp.move_point(0, [3.0, 4.0]);
    assert!(sp.dirty);
    assert_eq!(sp.control_points, vec![[3.0, 4.0]]);
    let _ = sp.curve_vertices(|_, _| Vec::new());
    sp.set_curve_type(CurveType::BSplineInterp);
    assert!(sp.dirty);
    assert_eq!(sp.curve_type, CurveType::BSplineInterp);
    let _ = sp.curve_vertices(|_, _| Vec::new());
    sp.remove_point(0);
    assert!(sp.dirty);
    assert!(sp.control_points.is_empty());
}
