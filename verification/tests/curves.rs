use std::cell::Cell;

use curve_editor_sample::spline::{
    curve_name, extend_endpoints, sample_plan, CurveType, Spline, SEGMENTS_PER_SPAN,
};

type Pt = [f32; 2];

#[test]
fn new_spline_is_empty_and_dirty() {
    let sp: Spline<Pt> = Spline::new(String::from("Line 3"));
    assert!(sp.control_points.is_empty());
    assert_eq!(sp.name, "Line 3");
    assert_eq!(sp.curve_type, CurveType::CatmullRom);
    assert!(sp.dirty);
}

#[test]
fn curve_vertices_tessellates_only_when_dirty() {
    let calls = Cell::new(0);
    let mut sp: Spline<Pt> = Spline::new(String::from("a"));
    sp.push_point([0.0, 0.0]);
    sp.push_point([1.0, 1.0]);
    let tess = |pts: &Vec<Pt>, ct: CurveType| -> Vec<Pt> {
        calls.set(calls.get() + 1);
        assert_eq!(ct, CurveType::CatmullRom);
        let mut v = pts.clone();
        v.push([9.0, 9.0]);
        v
    };
    let first: Vec<Pt> = sp.curve_vertices(&tess).to_vec();
    assert_eq!(first, vec![[0.0, 0.0], [1.0, 1.0], [9.0, 9.0]]);
    assert_eq!(calls.get(), 1);
    assert!(!sp.dirty);
    let second: Vec<Pt> = sp.curve_vertices(&tess).to_vec();
    assert_eq!(second, first);
    assert_eq!(calls.get(), 1);
    sp.push_point([2.0, 0.0]);
    let third: Vec<Pt> = sp.curve_vertices(&tess).to_vec();
    assert_eq!(third.len(), 4);
    assert_eq!(calls.get(), 2);
}

#[test]
fn curve_vertices_passes_curve_type() {
    let mut sp: Spline<Pt> = Spline::new(String::from("a"));
    sp.set_curve_type(CurveType::CatmullRomCentripetal);
    let v = sp
        .curve_vertices(|_, ct| if ct == CurveType::CatmullRomCentripetal { vec![[1.0, 1.0]] } else { Vec::new() })
        .to_vec();
    assert_eq!(v, vec![[1.0, 1.0]]);
}

#[test]
fn sample_plan_counts() {
    assert!(sample_plan(0).is_empty());
    assert!(sample_plan(1).is_empty());
    assert_eq!(sample_plan(2).len(), 31);
    assert_eq!(sample_plan(3).len(), 61);
    assert_eq!(sample_plan(5).len(), 121);
}

#[test]
fn sample_plan_order() {
    let plan = sample_plan(3);
    assert_eq!(plan[0], (0, 0));
    assert_eq!(plan[1], (0, 1));
    assert_eq!(plan[30], (0, 30));
    assert_eq!(plan[31], (1, 1));
    assert_eq!(plan[60], (1, 30));
}

#[test]
fn sample_plan_parameter_is_index() {
    let plan = sample_plan(6);
    for (k, &(span, step)) in plan.iter().enumerate() {
        assert_eq!(span * SEGMENTS_PER_SPAN as usize + step as usize, k);
        assert!(step <= SEGMENTS_PER_SPAN);
        assert!(span < 5);
        assert_eq!(step == 0, k == 0);
    }
}

#[test]
fn extend_endpoints_repeats_ends() {
    let pts: Vec<Pt> = vec![[0.0, 0.0], [1.0, 2.0], [3.0, 4.0]];
    let ext = extend_endpoints(&pts);
    assert_eq!(ext, vec![[0.0, 0.0], [0.0, 0.0], [1.0, 2.0], [3.0, 4.0], [3.0, 4.0]]);
    let one: Vec<Pt> = vec![[5.0, 6.0]];
    assert_eq!(extend_endpoints(&one), vec![[5.0, 6.0], [5.0, 6.0], [5.0, 6.0]]);
}

#[test]
fn curve_names() {
    assert_eq!(curve_name(CurveType::CatmullRom), "Catmull-Rom");
    assert_eq!(curve_name(CurveType::CatmullRomCentripetal), "CR Centripetal");
    assert_eq!(curve_name(CurveType::BSplineInterp), "B-Spline Interp");
}

#[test]
fn curve_names_are_distinct() {
    let all = [CurveType::CatmullRom, CurveType::CatmullRomCentripetal, CurveType::BSplineInterp];
    for a in all {
        for b in all {
            assert_eq!(curve_name(a) == curve_name(b), a == b);
        }
    }
}

#[test]
fn remove_undoes_push() {
    let mut sp: Spline<Pt> = Spline::new(String::from("a"));
    sp.push_point([0.0, 1.0]);
    sp.push_point([2.0, 3.0]);
    let before = sp.control_points.clone();
    sp.push_point([4.0, 5.0]);
    sp.remove_point(2);
    assert_eq!(sp.control_points, before);
}

#[test]
fn move_back_restores() {
    let mut sp: Spline<Pt> = Spline::new(String::from("a"));
    sp.push_point([0.0, 1.0]);
    sp.push_point([2.0, 3.0]);
    let before = sp.control_points.clone();
    sp.move_point(1, [7.0, 7.0]);
    assert_eq!(sp.control_points, vec![[0.0, 1.0], [7.0, 7.0]]);
    sp.move_point(1, before[1]);
    assert_eq!(sp.control_points, before);
}

fn doubled(pts: &Vec<Pt>, _ct: CurveType) -> Vec<Pt> {
    pts.iter().flat_map(|p| [*p, *p]).collect()
}

#[test]
fn drawn_spline_holds_tessellation_of_current_points() {
    let mut sp: Spline<Pt> = Spline::new(String::from("a"));
    sp.push_point([0.0, 0.0]);
    sp.push_point([1.0, 0.5]);
    let _ = sp.curve_vertices(doubled);
    sp.move_point(0, [2.0, 2.0]);
    sp.move_point(9, [3.0, 3.0]);
    sp.remove_point(7);
    let drawn = sp.curve_vertices(doubled).to_vec();
    assert!(!sp.dirty);
    assert_eq!(drawn, doubled(&sp.control_points, sp.curve_type));
    sp.set_curve_type(CurveType::BSplineInterp);
    sp.remove_point(1);
    let drawn = sp.curve_vertices(doubled).to_vec();
    assert_eq!(drawn, vec![[2.0, 2.0], [2.0, 2.0]]);
    let again = sp.curve_vertices(doubled).to_vec();
    assert_eq!(again, drawn);
}
