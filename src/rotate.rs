use vstd::arithmetic::div_mod::lemma_mod_multiples_vanish;
use vstd::prelude::*;

use crate::fixed::{abs, lemma_round_div_bound, lemma_round_div_exact, round_div, round_div_spec, ONE};
use crate::model::{points_of, Edge, Vertex, Wireframe};
use crate::trig::{cos_deg, sin_deg, SineTable};

verus! {

/// Largest coordinate magnitude, in fixed-point units, that `rotate` accepts.
pub const COORD_LIMIT: i64 = 0x1000_0000_0000_0000;

/// Every coordinate of every vertex lies within `-b..=b`.
pub open spec fn coords_within(vs: Seq<Vertex>, b: int) -> bool {
    forall|i: int|
        0 <= i < vs.len() ==> -b <= (#[trigger] vs[i]).x <= b && -b <= vs[i].y <= b && -b
            <= vs[i].z <= b
}

/// The pair `(a, b)` turned in its plane by the angle with sine `s` and cosine `c`,
/// each result rounded back to fixed point.
pub open spec fn turn(a: int, b: int, s: int, c: int) -> (int, int) {
    (round_div_spec(a * c - b * s, ONE as int), round_div_spec(a * s + b * c, ONE as int))
}

/// `p` rotated by roll about z, then pitch about x, then yaw about y, each step
/// working on the coordinates left by the one before.
pub open spec fn rotate_point(q: Seq<i64>, p: (int, int, int), roll: int, pitch: int, yaw: int) -> (
    int,
    int,
    int,
) {
    let r = turn(p.0, p.1, sin_deg(q, roll), cos_deg(q, roll));
    let t = turn(r.1, p.2, sin_deg(q, pitch), cos_deg(q, pitch));
    let w = turn(r.0, t.1, sin_deg(q, yaw), cos_deg(q, yaw));
    (w.0, t.0, w.1)
}

/// Each point of `vs` rotated by the same three angles.
pub open spec fn rotated_points(q: Seq<i64>, vs: Seq<Vertex>, roll: int, pitch: int, yaw: int) -> Seq<
    (int, int, int),
> {
    vs.map_values(|v: Vertex| rotate_point(q, v@, roll, pitch, yaw))
}

proof fn lemma_turn_bound(a: int, b: int, s: int, c: int)
    requires
        -ONE <= s <= ONE,
        -ONE <= c <= ONE,
    ensures
        abs(turn(a, b, s, c).0) <= abs(a) + abs(b),
        abs(turn(a, b, s, c).1) <= abs(a) + abs(b),
{
    assert(abs(a * c - b * s) <= (abs(a) + abs(b)) * ONE) by (nonlinear_arith)
        requires
            -ONE <= s <= ONE,
            -ONE <= c <= ONE,
    ;
    assert(abs(a * s + b * c) <= (abs(a) + abs(b)) * ONE) by (nonlinear_arith)
        requires
            -ONE <= s <= ONE,
            -ONE <= c <= ONE,
    ;
    lemma_round_div_bound(a * c - b * s, abs(a) + abs(b));
    lemma_round_div_bound(a * s + b * c, abs(a) + abs(b));
}

/// One planar rotation step in fixed point.
fn turn_exec(a: i64, b: i64, s: i64, c: i64) -> (r: (i64, i64))
    requires
        abs(a as int) + abs(b as int) <= 5 * COORD_LIMIT,
        -ONE <= s <= ONE,
        -ONE <= c <= ONE,
    ensures
        (r.0 as int, r.1 as int) == turn(a as int, b as int, s as int, c as int),
        abs(r.0 as int) <= abs(a as int) + abs(b as int),
        abs(r.1 as int) <= abs(a as int) + abs(b as int),
{
    proof {
        lemma_turn_bound(a as int, b as int, s as int, c as int);
    }
    let (a, b, s, c) = (a as i128, b as i128, s as i128, c as i128);
    assert(abs(a * c) <= abs(a as int) * ONE && abs(b * s) <= abs(b as int) * ONE
        && abs(a * s) <= abs(a as int) * ONE && abs(b * c) <= abs(b as int) * ONE)
        by (nonlinear_arith)
        requires
            -ONE <= s <= ONE,
            -ONE <= c <= ONE,
    ;
    let u = round_div(a * c - b * s, ONE as i128);
    let v = round_div(a * s + b * c, ONE as i128);
    (u as i64, v as i64)
}

/// Rotates one vertex by angles given as fixed-point sine and cosine pairs.
fn rotate_vertex(v: Vertex, roll: (i64, i64), pitch: (i64, i64), yaw: (i64, i64)) -> (r: Vertex)
    requires
        -COORD_LIMIT <= v.x <= COORD_LIMIT,
        -COORD_LIMIT <= v.y <= COORD_LIMIT,
        -COORD_LIMIT <= v.z <= COORD_LIMIT,
        -ONE <= roll.0 <= ONE && -ONE <= roll.1 <= ONE,
        -ONE <= pitch.0 <= ONE && -ONE <= pitch.1 <= ONE,
        -ONE <= yaw.0 <= ONE && -ONE <= yaw.1 <= ONE,
    ensures
        ({
            let r1 = turn(v.x as int, v.y as int, roll.0 as int, roll.1 as int);
            let t = turn(r1.1, v.z as int, pitch.0 as int, pitch.1 as int);
            let w = turn(r1.0, t.1, yaw.0 as int, yaw.1 as int);
            r@ == (w.0, t.0, w.1)
        }),
        -5 * COORD_LIMIT <= r.x <= 5 * COORD_LIMIT,
        -5 * COORD_LIMIT <= r.y <= 5 * COORD_LIMIT,
        -5 * COORD_LIMIT <= r.z <= 5 * COORD_LIMIT,
{
    let (x1, y1) = turn_exec(v.x, v.y, roll.0, roll.1);
    let (y2, z1) = turn_exec(y1, v.z, pitch.0, pitch.1);
    let (x2, z2) = turn_exec(x1, z1, yaw.0, yaw.1);
    Vertex { x: x2, y: y2, z: z2 }
}

/// Rotates every vertex of `wireframe` by `roll`, `pitch` and `yaw` whole degrees
/// (in that order, each about the axes the previous step left) and keeps its edges.
pub fn rotate(wireframe: &Wireframe, table: &SineTable, roll: i64, pitch: i64, yaw: i64) -> (r:
    Wireframe)
    requires
        table.wf(),
        coords_within(wireframe.vertices@, COORD_LIMIT as int),
    ensures
        r.edges@ == wireframe.edges@,
        r.vertices@.len() == wireframe.vertices@.len(),
        points_of(r.vertices@) == rotated_points(
            table.quarter@,
            wireframe.vertices@,
            roll as int,
            pitch as int,
            yaw as int,
        ),
        coords_within(r.vertices@, 5 * COORD_LIMIT),
        wireframe.wf() ==> r.wf(),
{
    let q = Ghost(table.quarter@);
    let rs = (table.sin(roll), table.cos(roll));
    let ps = (table.sin(pitch), table.cos(pitch));
    let ys = (table.sin(yaw), table.cos(yaw));
    let n = wireframe.vertices.len();
    let mut vertices: Vec<Vertex> = Vec::with_capacity(n);
    let mut i: usize = 0;
    while i < n
        invariant
            n == wireframe.vertices@.len(),
            0 <= i <= n,
            vertices@.len() == i,
            coords_within(wireframe.vertices@, COORD_LIMIT as int),
            coords_within(vertices@, 5 * COORD_LIMIT),
            rs.0 == sin_deg(q@, roll as int) && rs.1 == cos_deg(q@, roll as int),
            ps.0 == sin_deg(q@, pitch as int) && ps.1 == cos_deg(q@, pitch as int),
            ys.0 == sin_deg(q@, yaw as int) && ys.1 == cos_deg(q@, yaw as int),
            -ONE <= rs.0 <= ONE && -ONE <= rs.1 <= ONE,
            -ONE <= ps.0 <= ONE && -ONE <= ps.1 <= ONE,
            -ONE <= ys.0 <= ONE && -ONE <= ys.1 <= ONE,
            forall|j: int|
                0 <= j < i ==> (#[trigger] vertices@[j])@ == rotate_point(
                    q@,
                    wireframe.vertices@[j]@,
                    roll as int,
                    pitch as int,
                    yaw as int,
                ),
        decreases n - i,
    {
        let v = rotate_vertex(wireframe.vertices[i], rs, ps, ys);
        vertices.push(v);
        i = i + 1;
    }
    let mut edges: Vec<Edge> = Vec::with_capacity(wireframe.edges.len());
    let mut k: usize = 0;
    while k < wireframe.edges.len()
        invariant
            0 <= k <= wireframe.edges@.len(),
            edges@ == wireframe.edges@.subrange(0, k as int),
        decreases wireframe.edges@.len() - k,
    {
        edges.push(wireframe.edges[k]);
        k = k + 1;
        assert(edges@ =~= wireframe.edges@.subrange(0, k as int));
    }
    assert(edges@ =~= wireframe.edges@);
    assert(points_of(vertices@) =~= rotated_points(
        q@,
        wireframe.vertices@,
        roll as int,
        pitch as int,
        yaw as int,
    ));
    Wireframe { vertices, edges }
}

/// The sine and cosine of an angle depend on it only up to whole turns.
pub proof fn lemma_trig_period(q: Seq<i64>, d: int, k: int)
    ensures
        sin_deg(q, d + 360 * k) == sin_deg(q, d),
        cos_deg(q, d + 360 * k) == cos_deg(q, d),
{
    lemma_mod_multiples_vanish(k, d, 360);
    lemma_mod_multiples_vanish(k, d + 90, 360);
    assert(360 * k + d == d + 360 * k);
    assert(360 * k + (d + 90) == d + 360 * k + 90);
}

/// Rotating by zero degrees about every axis leaves every vertex where it was.
pub proof fn lemma_rotate_identity(table: SineTable, vs: Seq<Vertex>)
    requires
        table.wf(),
    ensures
        rotated_points(table.quarter@, vs, 0, 0, 0) == points_of(vs),
{
    let q = table.quarter@;
    assert(sin_deg(q, 0) == 0);
    assert(cos_deg(q, 0) == ONE);
    assert forall|a: int, b: int| #[trigger] turn(a, b, 0, ONE as int) == (a, b) by {
        lemma_round_div_exact(a);
        lemma_round_div_exact(b);
        assert(a * ONE - b * 0 == a * ONE);
        assert(a * 0 + b * ONE == b * ONE);
    }
    assert(rotated_points(q, vs, 0, 0, 0) =~= points_of(vs));
}

/// Adding whole turns to any of the three angles leaves every rotated vertex unchanged.
pub proof fn lemma_rotate_period(
    q: Seq<i64>,
    vs: Seq<Vertex>,
    roll: int,
    pitch: int,
    yaw: int,
    kr: int,
    kp: int,
    ky: int,
)
    ensures
        rotated_points(q, vs, roll + 360 * kr, pitch + 360 * kp, yaw + 360 * ky)
            == rotated_points(q, vs, roll, pitch, yaw),
{
    lemma_trig_period(q, roll, kr);
    lemma_trig_period(q, pitch, kp);
    lemma_trig_period(q, yaw, ky);
    assert(rotated_points(q, vs, roll + 360 * kr, pitch + 360 * kp, yaw + 360 * ky)
        =~= rotated_points(q, vs, roll, pitch, yaw));
}

} // verus!
