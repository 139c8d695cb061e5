use vstd::prelude::*;

verus! {

/// A point in object space; each coordinate is a fixed-point number with
/// `fixed::ONE` units per whole unit.
#[derive(Clone, Copy, Debug, PartialEq, Eq, Structural)]
pub struct Vertex {
    pub x: i64,
    pub y: i64,
    pub z: i64,
}

impl View for Vertex {
    type V = (int, int, int);

    open spec fn view(&self) -> (int, int, int) {
        (self.x as int, self.y as int, self.z as int)
    }
}

impl Vertex {
    pub fn new(x: i64, y: i64, z: i64) -> (r: Vertex)
        ensures
            r@ == (x as int, y as int, z as int),
    {
        Vertex { x, y, z }
    }
}

/// An edge joins the vertices at two positions of the owning model's vertex list.
pub type Edge = (u8, u8);

/// Why a model could not be built.
#[derive(Clone, Copy, Debug, PartialEq, Eq, Structural)]
pub enum ModelError {
    /// An edge names a vertex position past the end of the vertex list.
    InvalidTopology,
}

/// Every edge of `edges` names positions below `n`.
pub open spec fn edges_within(edges: Seq<Edge>, n: int) -> bool {
    forall|k: int| 0 <= k < edges.len() ==> (#[trigger] edges[k]).0 < n && edges[k].1 < n
}

/// The coordinates of each vertex, in order.
pub open spec fn points_of(vs: Seq<Vertex>) -> Seq<(int, int, int)> {
    vs.map_values(|v: Vertex| v@)
}

/// A polyhedron given by its vertices and the edges that join them.
#[derive(Clone, Debug, PartialEq)]
pub struct Wireframe {
    pub vertices: Vec<Vertex>,
    pub edges: Vec<Edge>,
}

impl Wireframe {
    /// Every edge refers to an existing vertex.
    pub open spec fn wf(&self) -> bool {
        edges_within(self.edges@, self.vertices@.len() as int)
    }

    /// Builds a model, refusing an edge that refers to a missing vertex.
    pub fn new(vertices: Vec<Vertex>, edges: Vec<Edge>) -> (r: Result<Wireframe, ModelError>)
        ensures
            edges_within(edges@, vertices@.len() as int) <==> r.is_ok(),
            r matches Ok(m) ==> m.vertices@ == vertices@ && m.edges@ == edges@ && m.wf(),
            r matches Err(e) ==> e == ModelError::InvalidTopology,
    {
        let n: usize = vertices.len();
        let mut k: usize = 0;
        while k < edges.len()
            invariant
                0 <= k <= edges@.len(),
                n == vertices@.len(),
                edges_within(edges@.subrange(0, k as int), n as int),
            decreases edges@.len() - k,
        {
            let e: Edge = edges[k];
            if e.0 as usize >= n || e.1 as usize >= n {
                assert(!edges_within(edges@, n as int)) by {
                    assert(edges@[k as int] == e);
                }
                return Err(ModelError::InvalidTopology);
            }
            assert forall|j: int| 0 <= j < k + 1 implies (#[trigger] edges@.subrange(0, k + 1)[j]).0
                < n && edges@.subrange(0, k + 1)[j].1 < n by {
                if j < k {
                    assert(edges@.subrange(0, k + 1)[j] == edges@.subrange(0, k as int)[j]);
                }
            }
            k = k + 1;
        }
        assert(edges@.subrange(0, edges@.len() as int) =~= edges@);
        Ok(Wireframe { vertices, edges })
    }
}

} // verus!
