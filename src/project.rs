use vstd::prelude::*;

use crate::fixed::{abs, round_div, round_div_spec, DIV_LIMIT, ONE};
use crate::model::{edges_within, points_of, Edge, Vertex, Wireframe};

verus! {

/// A pixel position in screen space, relative to the centre of the view.
pub type ScreenPoint = (i32, i32);

/// A line segment between two screen points.
pub type Segment = (ScreenPoint, ScreenPoint);

/// `v` clamped into the range of `i32`.
pub open spec fn saturate_i32(v: int) -> i32 {
    if v < i32::MIN {
        i32::MIN
    } else if v > i32::MAX {
        i32::MAX
    } else {
        v as i32
    }
}

/// The screen point of `p` under a perspective divide with focal length `f`
/// (both in fixed point): `round(f * x / (f + z))` and `round(f * y / (f + z))`,
/// clamped to `i32`; a point in the camera plane, where `f + z` is zero, goes to
/// the origin.
pub open spec fn project_point(p: (int, int, int), f: int) -> ScreenPoint {
    if f == -p.2 {
        (0, 0)
    } else {
        let d = ONE * (f + p.2);
        (saturate_i32(round_div_spec(f * p.0, d)), saturate_i32(round_div_spec(f * p.1, d)))
    }
}

/// The screen point of each point, in order.
pub open spec fn projected_points(ps: Seq<(int, int, int)>, f: int) -> Seq<ScreenPoint> {
    ps.map_values(|p: (int, int, int)| project_point(p, f))
}

/// The segment drawn for each edge: between the screen points of its two ends.
pub open spec fn edge_segments(points: Seq<ScreenPoint>, edges: Seq<Edge>) -> Seq<Segment> {
    edges.map_values(|e: Edge| (points[e.0 as int], points[e.1 as int]))
}

fn clamp_i32(v: i128) -> (r: i32)
    ensures
        r == saturate_i32(v as int),
{
    if v < i32::MIN as i128 {
        i32::MIN
    } else if v > i32::MAX as i128 {
        i32::MAX
    } else {
        v as i32
    }
}

/// Projects one vertex to screen space with focal length `focal` (fixed point).
pub fn project_vertex(v: Vertex, focal: i64) -> (r: ScreenPoint)
    ensures
        r == project_point(v@, focal as int),
        focal == -v.z ==> r == (0i32, 0i32),
{
    if focal as i128 == -(v.z as i128) {
        return (0, 0);
    }
    let (f, x, y, z) = (focal as i128, v.x as i128, v.y as i128, v.z as i128);
    assert(abs(f * x) <= DIV_LIMIT && abs(f * y) <= DIV_LIMIT) by (nonlinear_arith)
        requires
            i64::MIN <= f <= i64::MAX,
            i64::MIN <= x <= i64::MAX,
            i64::MIN <= y <= i64::MAX,
            DIV_LIMIT == 0x4000_0000_0000_0000_0000_0000_0000_0000,
    ;
    let d = ONE as i128 * (f + z);
    let sx = round_div(f * x, d);
    let sy = round_div(f * y, d);
    (clamp_i32(sx), clamp_i32(sy))
}

/// Projects every vertex of `wireframe` to screen space.
pub fn project(wireframe: &Wireframe, focal: i64) -> (r: Vec<ScreenPoint>)
    ensures
        r@ == projected_points(points_of(wireframe.vertices@), focal as int),
{
    let n = wireframe.vertices.len();
    let mut points: Vec<ScreenPoint> = Vec::with_capacity(n);
    let mut i: usize = 0;
    while i < n
        invariant
            n == wireframe.vertices@.len(),
            0 <= i <= n,
            points@ == projected_points(
                points_of(wireframe.vertices@.subrange(0, i as int)),
                focal as int,
            ),
        decreases n - i,
    {
        let p = project_vertex(wireframe.vertices[i], focal);
        points.push(p);
        i = i + 1;
        assert(points@ =~= projected_points(
            points_of(wireframe.vertices@.subrange(0, i as int)),
            focal as int,
        ));
    }
    assert(wireframe.vertices@.subrange(0, n as int) =~= wireframe.vertices@);
    points
}

/// The screen-space segments of a wireframe seen with focal length `focal`:
/// one per edge, in the order of the edges.
pub fn wireframe_segments(wireframe: &Wireframe, focal: i64) -> (r: Vec<Segment>)
    requires
        wireframe.wf(),
    ensures
        r@ == edge_segments(projected_points(points_of(wireframe.vertices@), focal as int), wireframe.edges@),
{
    let points = project(wireframe, focal);
    let m = wireframe.edges.len();
    let mut segments: Vec<Segment> = Vec::with_capacity(m);
    let mut k: usize = 0;
    while k < m
        invariant
            m == wireframe.edges@.len(),
            0 <= k <= m,
            points@.len() == wireframe.vertices@.len(),
            edges_within(wireframe.edges@, points@.len() as int),
            segments@ == edge_segments(points@, wireframe.edges@.subrange(0, k as int)),
        decreases m - k,
    {
        let e = wireframe.edges[k];
        assert(e == wireframe.edges@[k as int]);
        segments.push((points[e.0 as usize], points[e.1 as usize]));
        k = k + 1;
        assert(segments@ =~= edge_segments(points@, wireframe.edges@.subrange(0, k as int)));
    }
    assert(wireframe.edges@.subrange(0, m as int) =~= wireframe.edges@);
    segments
}

} // verus!
