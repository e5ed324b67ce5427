use vstd::prelude::*;
use vstd::string::StringExecFns;

verus! {

/// The kinds of curve a spline can be drawn as.
#[derive(Debug, Clone, Copy, PartialEq, Eq, Structural)]
pub enum CurveType {
    /// Uniform Catmull-Rom through the control points.
    CatmullRom,
    /// Centripetal Catmull-Rom (Barry-Goldman), free of cusps.
    CatmullRomCentripetal,
    /// Uniform cubic B-spline solved to interpolate the control points.
    BSplineInterp,
}

/// The label shown for a curve type.
pub open spec fn curve_label(ct: CurveType) -> Seq<char> {
    match ct {
        CurveType::CatmullRom => "Catmull-Rom"@,
        CurveType::CatmullRomCentripetal => "CR Centripetal"@,
        CurveType::BSplineInterp => "B-Spline Interp"@,
    }
}

/// The label shown for a curve type in the curve selector.
pub fn curve_name(ct: CurveType) -> (s: &'static str)
    ensures
        s@ == curve_label(ct),
{
    match ct {
        CurveType::CatmullRom => "Catmull-Rom",
        CurveType::CatmullRomCentripetal => "CR Centripetal",
        CurveType::BSplineInterp => "B-Spline Interp",
    }
}


/// Samples drawn per span between two consecutive control points.
pub const SEGMENTS_PER_SPAN: u32 = 30;

/// A named curve through a list of control points, with a cache of its
/// tessellation.
///
/// `P` is the type of a point. `dirty` is set whenever the control points or
/// the curve type may have changed, and tells `curve_vertices` to rebuild the
/// cached tessellation.
#[derive(Debug, Clone)]
pub struct Spline<P> {
    pub control_points: Vec<P>,
    pub name: String,
    pub curve_type: CurveType,
    cached_curve: Vec<P>,
    pub dirty: bool,
}

/// What a spline holds, as mathematical values.
pub struct SplineModel<P> {
    pub points: Seq<P>,
    pub name: Seq<char>,
    pub curve_type: CurveType,
    /// The tessellation held in the cache.
    pub cached: Seq<P>,
    pub dirty: bool,
}

impl<P> SplineModel<P> {
    /// `p` appended to the control points; the curve must be redrawn.
    pub open spec fn with_pushed(self, p: P) -> Self {
        SplineModel { points: self.points.push(p), dirty: true, ..self }
    }

    /// Control point `i` moved to `p` when it exists; then the curve must be
    /// redrawn.
    pub open spec fn with_moved(self, i: int, p: P) -> Self {
        if 0 <= i < self.points.len() {
            SplineModel { points: self.points.update(i, p), dirty: true, ..self }
        } else {
            self
        }
    }

    /// Control point `i` removed when it exists, the others kept in order;
    /// then the curve must be redrawn.
    pub open spec fn with_removed(self, i: int) -> Self {
        if 0 <= i < self.points.len() {
            SplineModel { points: self.points.remove(i), dirty: true, ..self }
        } else {
            self
        }
    }

    /// Drawn as curve type `ct`; the curve must be redrawn.
    pub open spec fn with_curve_type(self, ct: CurveType) -> Self {
        SplineModel { curve_type: ct, dirty: true, ..self }
    }
}

impl<P> SplineModel<P> {
    /// The cache rule for tessellator `f`: unless marked dirty, the cache
    /// holds a tessellation that `f` gives for a vector of exactly these
    /// control points and this curve type.
    pub open spec fn cache_current<F: Fn(&Vec<P>, CurveType) -> Vec<P>>(self, f: F) -> bool {
        !self.dirty ==> exists|pts: Vec<P>, v: Vec<P>|
            pts@ == self.points && call_ensures(f, (&pts, self.curve_type), v) && v@ == self.cached
    }
}

impl<P> View for Spline<P> {
    type V = SplineModel<P>;

    closed spec fn view(&self) -> SplineModel<P> {
        SplineModel {
            points: self.control_points@,
            name: self.name@,
            curve_type: self.curve_type,
            cached: self.cached_curve@,
            dirty: self.dirty,
        }
    }
}

impl<P> Spline<P> {
    /// The control points as a vector (what the tessellation is computed from).
    pub closed spec fn points_vec(&self) -> Vec<P> {
        self.control_points
    }

    /// The cache rule for tessellator `f`: a spline that is not marked
    /// dirty holds in its cache a tessellation that `f` gives for its current
    /// control points and curve type.
    pub open spec fn cache_current<F: Fn(&Vec<P>, CurveType) -> Vec<P>>(&self, f: F) -> bool {
        self@.cache_current(f)
    }

    /// That vector holds the control points.
    pub proof fn lemma_points_vec(&self)
        ensures
            self.points_vec()@ == self@.points,
    {
    }

    /// A new empty Catmull-Rom spline, marked for tessellation.
    pub fn new(name: String) -> (s: Self)
        ensures
            s@ == (SplineModel {
                points: Seq::<P>::empty(),
                name: name@,
                curve_type: CurveType::CatmullRom,
                cached: Seq::<P>::empty(),
                dirty: true,
            }),
    {
        Spline {
            control_points: Vec::new(),
            name,
            curve_type: CurveType::CatmullRom,
            cached_curve: Vec::new(),
            dirty: true,
        }
    }

    /// Appends a control point at the end.
    pub fn push_point(&mut self, p: P)
        ensures
            final(self)@ == old(self)@.with_pushed(p),
    {
        self.control_points.push(p);
        self.dirty = true;
    }

    /// Moves control point `index` to `pos`; an index past the end changes nothing.
    pub fn move_point(&mut self, index: usize, pos: P)
        ensures
            final(self)@ == old(self)@.with_moved(index as int, pos),
            index >= old(self)@.points.len() ==> *final(self) == *old(self),
    {
        if index < self.control_points.len() {
            self.control_points.set(index, pos);
            self.dirty = true;
        }
    }

    /// Number of control points.
    pub fn point_count(&self) -> (n: usize)
        ensures
            n == self@.points.len(),
    {
        self.control_points.len()
    }

    /// The spline's entry in the list of lines: its name, marked `[EDIT] `
    /// while it is being edited.
    pub fn list_label(&self, editing: bool) -> (s: String)
        ensures
            s@ == (if editing { "[EDIT] "@ + self@.name } else { self@.name }),
    {
        if editing {
            let mut s = String::from_str("[EDIT] ");
            s.append(self.name.as_str());
            s
        } else {
            self.name.clone()
        }
    }

    /// The curve type the spline is drawn as.
    pub fn curve_type(&self) -> (ct: CurveType)
        ensures
            ct == self@.curve_type,
    {
        self.curve_type
    }

    /// Removes control point `index`, keeping the others in order; an index
    /// past the end changes nothing.
    pub fn remove_point(&mut self, index: usize)
        ensures
            final(self)@ == old(self)@.with_removed(index as int),
            index >= old(self)@.points.len() ==> *final(self) == *old(self),
    {
        if index < self.control_points.len() {
            self.control_points.remove(index);
            self.dirty = true;
        }
    }

    /// Draws the spline as curve type `ct` from now on.
    pub fn set_curve_type(&mut self, ct: CurveType)
        ensures
            final(self)@ == old(self)@.with_curve_type(ct),
    {
        self.curve_type = ct;
        self.dirty = true;
    }

    /// The tessellated curve. When the spline is dirty the cache is rebuilt
    /// first by calling `tessellate` on the control points and the curve type,
    /// and the spline is clean afterwards; otherwise the cache is returned as
    /// it is and `tessellate` is not called. Either way the cache rule for
    /// `tessellate` holds afterwards when it held before, as it does for
    /// every dirty spline.
    pub fn curve_vertices<F: Fn(&Vec<P>, CurveType) -> Vec<P>>(&mut self, tessellate: F) -> (r: &[P])
        requires
            old(self)@.dirty ==> call_requires(tessellate, (&old(self).points_vec(), old(self)@.curve_type)),
        ensures
            old(self)@.dirty ==> exists|fresh: Vec<P>|
                call_ensures(tessellate, (&old(self).points_vec(), old(self)@.curve_type), fresh)
                && final(self)@.cached == fresh@,
            !old(self)@.dirty ==> final(self)@.cached == old(self)@.cached,
            final(self)@ == (SplineModel { cached: final(self)@.cached, dirty: false, ..old(self)@ }),
            final(self).points_vec() == old(self).points_vec(),
            old(self).cache_current(tessellate) ==> final(self).cache_current(tessellate),
            r@ == final(self)@.cached,
    {
        if self.dirty {
            let fresh = tessellate(&self.control_points, self.curve_type);
            self.cached_curve = fresh;
            self.dirty = false;
            assert(self@.cache_current(tessellate)) by {
                assert(self.control_points@ == self@.points);
            }
        }
        self.cached_curve.as_slice()
    }
}

/// Number of curve samples for a spline of `n` control points: one span per
/// pair of neighbouring points, each span contributing its samples after the
/// first, plus the very first sample of the curve.
pub open spec fn sample_count(n: nat) -> nat {
    if n < 2 { 0 } else { ((n - 1) * SEGMENTS_PER_SPAN + 1) as nat }
}

/// The span that the `k`-th curve sample lies on.
pub open spec fn sample_span(k: nat) -> nat {
    if k == 0 { 0 } else { ((k - 1) / SEGMENTS_PER_SPAN as int) as nat }
}

/// The step within its span of the `k`-th curve sample (the curve parameter
/// within the span is this step divided by `SEGMENTS_PER_SPAN`).
pub open spec fn sample_step(k: nat) -> nat {
    if k == 0 { 0 } else { ((k - 1) % SEGMENTS_PER_SPAN as int + 1) as nat }
}

/// The order in which a tessellator samples a spline of `n` control points:
/// pairs `(span, step)`, span `i` joining control points `i` and `i + 1`.
/// The first span is sampled from step 0 to `SEGMENTS_PER_SPAN`, every later
/// span from step 1, since its step 0 is where the span before it ended.
pub fn sample_plan(n: usize) -> (plan: Vec<(usize, u32)>)
    ensures
        plan@.len() == sample_count(n as nat),
        forall|k: int| 0 <= k < plan@.len() ==>
            #[trigger] plan@[k].0 == sample_span(k as nat) && plan@[k].1 == sample_step(k as nat),
{
    let mut plan: Vec<(usize, u32)> = Vec::new();
    if n < 2 {
        return plan;
    }
    let mut i: usize = 0;
    while i < n - 1
        invariant
            2 <= n,
            i <= n - 1,
            plan@.len() == (if i == 0 { 0 } else { SEGMENTS_PER_SPAN * i + 1 }),
            forall|k: int| 0 <= k < plan@.len() ==>
                #[trigger] plan@[k].0 == sample_span(k as nat) && plan@[k].1 == sample_step(k as nat),
        decreases n - 1 - i,
    {
        let mut s: u32 = if i == 0 { 0 } else { 1 };
        while s <= SEGMENTS_PER_SPAN
            invariant
                2 <= n,
                i < n - 1,
                i == 0 ==> s <= SEGMENTS_PER_SPAN + 1,
                i > 0 ==> 1 <= s <= SEGMENTS_PER_SPAN + 1,
                plan@.len() == (if i == 0 { s as int } else { SEGMENTS_PER_SPAN * i + s }),
                forall|k: int| 0 <= k < plan@.len() ==>
                    #[trigger] plan@[k].0 == sample_span(k as nat) && plan@[k].1 == sample_step(k as nat),
            decreases SEGMENTS_PER_SPAN + 1 - s,
        {
            proof {
                let k = plan@.len() as int;
                if k > 0 {
                    vstd::arithmetic::div_mod::lemma_fundamental_div_mod_converse(
                        k - 1,
                        SEGMENTS_PER_SPAN as int,
                        i as int,
                        s - 1,
                    );
                }
            }
            plan.push((i, s));
            s = s + 1;
        }
        i = i + 1;
    }
    plan
}

/// The control points with the first and the last repeated once more at
/// either end, so that every span `i` has its four neighbours at
/// positions `i .. i + 4`.
pub fn extend_endpoints<P: Copy>(pts: &Vec<P>) -> (ext: Vec<P>)
    requires
        pts@.len() >= 1,
    ensures
        ext@ == seq![pts@[0]] + pts@ + seq![pts@.last()],
{
    let n = pts.len();
    let mut ext: Vec<P> = Vec::new();
    ext.push(pts[0]);
    let mut i: usize = 0;
    while i < n
        invariant
            n == pts@.len(),
            i <= n,
            ext@ == seq![pts@[0]] + pts@.subrange(0, i as int),
        decreases n - i,
    {
        ext.push(pts[i]);
        i = i + 1;
        assert(pts@.subrange(0, i as int) == pts@.subrange(0, i - 1).push(pts@[i - 1]));
    }
    ext.push(pts[n - 1]);
    assert(pts@.subrange(0, n as int) == pts@);
    ext
}

} // verus!
