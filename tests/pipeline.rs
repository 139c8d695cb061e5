use wireframe::fixed::{from_whole, ONE};
use wireframe::frame::{frame_segments, FrameAngles, STEP_DEGREES};
use wireframe::model::{Vertex, Wireframe};
use wireframe::project::{project, project_vertex, wireframe_segments};
use wireframe::rotate::{rotate, COORD_LIMIT};
use wireframe::trig::SineTable;

fn table() -> SineTable {
    let q: Vec<i64> = (0..=90)
        .map(|d| ((d as f64).to_radians().sin() * ONE as f64).round() as i64)
        .collect();
    SineTable::new(q).unwrap()
}

fn v(x: i32, y: i32, z: i32) -> Vertex {
    Vertex::new(from_whole(x), from_whole(y), from_whole(z))
}

fn cube() -> Wireframe {
    Wireframe::new(
        vec![
            v(50, 50, 50),
            v(50, -50, 50),
            v(-50, -50, 50),
            v(-50, 50, 50),
            v(50, 50, -50),
            v(50, -50, -50),
            v(-50, -50, -50),
            v(-50, 50, -50),
        ],
        vec![
            (0, 1),
            (1, 2),
            (2, 3),
            (3, 0),
            (4, 5),
            (5, 6),
            (6, 7),
            (7, 4),
            (0, 4),
            (1, 5),
            (2, 6),
            (3, 7),
        ],
    )
    .unwrap()
}

#[test]
fn rotate_keeps_edges_and_vertex_count() {
    let m = cube();
    let t = table();
    for (r, p, y) in [(0, 0, 0), (17, 200, -45), (1000, -1000, 3)] {
        let out = rotate(&m, &t, r, p, y);
        assert_eq!(out.edges, m.edges);
        assert_eq!(out.vertices.len(), m.vertices.len());
    }
}

#[test]
fn rotate_by_zero_is_identity() {
    let m = cube();
    let out = rotate(&m, &table(), 0, 0, 0);
    assert_eq!(out.vertices, m.vertices);
    let odd = Wireframe::new(vec![Vertex::new(12345, -678, 9), Vertex::new(-1, 1, 0)], vec![(0, 1)])
        .unwrap();
    assert_eq!(rotate(&odd, &table(), 0, 0, 0), odd);
}

#[test]
fn rotate_full_turn_changes_nothing() {
    let m = cube();
    let t = table();
    assert_eq!(rotate(&m, &t, 360, 0, 0), rotate(&m, &t, 0, 0, 0));
    assert_eq!(rotate(&m, &t, 397, 12, 5), rotate(&m, &t, 37, 12, 5));
    assert_eq!(rotate(&m, &t, 37, -348, 725), rotate(&m, &t, 37, 12, 5));
}

#[test]
fn rotate_quarter_turns_exactly() {
    let m = Wireframe::new(vec![v(50, -20, 10)], vec![]).unwrap();
    let t = table();
    // roll turns x towards y
    assert_eq!(rotate(&m, &t, 90, 0, 0).vertices, vec![v(20, 50, 10)]);
    // pitch turns y towards z
    assert_eq!(rotate(&m, &t, 0, 90, 0).vertices, vec![v(50, -10, -20)]);
    // yaw turns x towards z
    assert_eq!(rotate(&m, &t, 0, 0, 90).vertices, vec![v(-10, -20, 50)]);
}

#[test]
fn rotate_steps_use_intermediate_coordinates() {
    let m = Wireframe::new(vec![v(50, -20, 10)], vec![]).unwrap();
    let t = table();
    // roll (50,-20,10) -> (20,50,10); pitch -> (20,-10,50); yaw -> (-50,-10,20)
    assert_eq!(rotate(&m, &t, 90, 90, 90).vertices, vec![v(-50, -10, 20)]);
}

#[test]
fn rotate_rounds_to_fixed_point() {
    let m = Wireframe::new(vec![Vertex::new(ONE, 0, 0)], vec![]).unwrap();
    let t = table();
    let s30 = t.sin(30);
    let c30 = t.cos(30);
    assert_eq!(s30, 32768);
    assert_eq!(c30, 56756);
    let out = rotate(&m, &t, 30, 0, 0);
    assert_eq!(out.vertices, vec![Vertex::new(c30, s30, 0)]);
}

#[test]
fn rotate_accepts_coordinate_limit() {
    let m = Wireframe::new(vec![Vertex::new(COORD_LIMIT, -COORD_LIMIT, COORD_LIMIT)], vec![])
        .unwrap();
    let out = rotate(&m, &table(), 45, 45, 45);
    assert_eq!(out.vertices.len(), 1);
    assert!(out.vertices[0].x.abs() <= 5 * COORD_LIMIT);
}

#[test]
fn project_golden_cube_corner() {
    assert_eq!(project_vertex(v(50, 50, 50), from_whole(-200)), (67, 67));
    assert_eq!(project_vertex(v(50, -50, 50), from_whole(-200)), (67, -67));
    assert_eq!(project_vertex(v(50, 50, -50), from_whole(-200)), (40, 40));
}

#[test]
fn project_camera_plane_goes_to_origin() {
    assert_eq!(project_vertex(v(50, 50, 200), from_whole(-200)), (0, 0));
    assert_eq!(project_vertex(v(-7, 3, -5), from_whole(5)), (0, 0));
    assert_eq!(project_vertex(Vertex::new(1, 1, 0), 0), (0, 0));
}

#[test]
fn project_positive_focal_length() {
    // 100 * 30 / (100 + 50) = 20, 100 * -45 / 150 = -30
    assert_eq!(project_vertex(v(30, -45, 50), from_whole(100)), (20, -30));
    // 100 * 5 / 40 = 12.5 rounds away from zero
    assert_eq!(project_vertex(v(5, -5, -60), from_whole(100)), (13, -13));
}

#[test]
fn project_saturates_to_i32() {
    assert_eq!(project_vertex(Vertex::new(i64::MAX, i64::MIN, 0), ONE), (i32::MAX, i32::MIN));
    assert_eq!(project_vertex(Vertex::new(i64::MAX, i64::MAX, i64::MIN), i64::MAX), (i32::MIN, i32::MIN));
}

#[test]
fn project_every_vertex() {
    let pts = project(&cube(), from_whole(-200));
    assert_eq!(
        pts,
        vec![(67, 67), (67, -67), (-67, -67), (-67, 67), (40, 40), (40, -40), (-40, -40), (-40, 40)]
    );
}

#[test]
fn segments_follow_edges() {
    let segs = wireframe_segments(&cube(), from_whole(-200));
    assert_eq!(segs.len(), 12);
    assert_eq!(segs[0], ((67, 67), (67, -67)));
    assert_eq!(segs[3], ((-67, 67), (67, 67)));
    assert_eq!(segs[8], ((67, 67), (40, 40)));
    assert_eq!(segs[11], ((-67, 67), (-40, 40)));
}

#[test]
fn segments_of_empty_model() {
    let m = Wireframe::new(vec![v(1, 2, 3)], vec![]).unwrap();
    assert!(wireframe_segments(&m, from_whole(-200)).is_empty());
}

#[test]
fn first_frame_of_cube() {
    let segs = frame_segments(&cube(), &table(), FrameAngles::new(), from_whole(-200));
    assert_eq!(segs, wireframe_segments(&cube(), from_whole(-200)));
    assert_eq!(segs[0].0, (67, 67));
}

#[test]
fn later_frame_matches_rotate_then_project() {
    let mut a = FrameAngles::new();
    for _ in 0..45 {
        a.advance();
    }
    let t = table();
    let segs = frame_segments(&cube(), &t, a, from_whole(-200));
    let rotated = rotate(&cube(), &t, 45, 45, 45);
    assert_eq!(segs, wireframe_segments(&rotated, from_whole(-200)));
    assert_ne!(segs, wireframe_segments(&cube(), from_whole(-200)));
}

#[test]
fn frame_angles_start_at_zero() {
    let a = FrameAngles::new();
    assert_eq!((a.roll, a.pitch, a.yaw), (0, 0, 0));
}

#[test]
fn frame_angles_accumulate_one_degree_per_frame() {
    let mut a = FrameAngles::new();
    let n: i64 = 100_000;
    for _ in 0..n {
        a.advance();
    }
    assert_eq!(a.roll, n * STEP_DEGREES);
    assert_eq!(a.pitch, n);
    assert_eq!(a.yaw, n);
}

#[test]
fn frame_angles_advance_near_limit() {
    let mut a = FrameAngles { roll: i64::MAX - 1, pitch: -5, yaw: 0 };
    a.advance();
    assert_eq!((a.roll, a.pitch, a.yaw), (i64::MAX, -4, 1));
}
