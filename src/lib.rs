//! A rotating wireframe polyhedron, computed in fixed point: rotation by roll,
//! pitch and yaw in whole degrees, perspective projection to screen points, and
//! the segments to draw for each edge.
pub mod fixed;
pub mod frame;
pub mod model;
pub mod project;
pub mod rotate;
pub mod trig;
