//! A triangle mesh: vertices and triangles that index them.

use vstd::prelude::*;

verus! {

/// A triangle: three indices into the mesh's vertices.
#[derive(Debug, Clone, Copy, PartialEq, Eq)]
pub struct Triangle {
    pub indices: [usize; 3],
}

/// A triangle mesh over vertices of type `V`. Every triangle references three
/// existing vertices.
pub struct Mesh<V> {
    vertices: Vec<V>,
    triangles: Vec<Triangle>,
}

impl<V> Mesh<V> {
    pub closed spec fn spec_vertices(&self) -> Seq<V> {
        self.vertices@
    }

    pub closed spec fn spec_triangles(&self) -> Seq<Triangle> {
        self.triangles@
    }

    /// Every triangle references three valid vertex indices.
    pub open spec fn wf(&self) -> bool {
        forall|t: int|
            0 <= t < self.spec_triangles().len() ==> {
                let tri = #[trigger] self.spec_triangles()[t];
                &&& tri.indices[0] < self.spec_vertices().len()
                &&& tri.indices[1] < self.spec_vertices().len()
                &&& tri.indices[2] < self.spec_vertices().len()
            }
    }

    /// An empty mesh.
    pub fn new() -> (r: Self)
        ensures
            r.wf(),
            r.spec_vertices().len() == 0,
            r.spec_triangles().len() == 0,
    {
        Mesh { vertices: Vec::new(), triangles: Vec::new() }
    }

    pub fn vertex_count(&self) -> (r: usize)
        ensures
            r == self.spec_vertices().len(),
    {
        self.vertices.len()
    }

    pub fn triangle_count(&self) -> (r: usize)
        ensures
            r == self.spec_triangles().len(),
    {
        self.triangles.len()
    }

    /// The vertices, in the order they were added.
    pub fn vertices(&self) -> (r: &Vec<V>)
        ensures
            r@ == self.spec_vertices(),
    {
        &self.vertices
    }

    /// The triangles, in the order they were added.
    pub fn triangles(&self) -> (r: &Vec<Triangle>)
        ensures
            r@ == self.spec_triangles(),
    {
        &self.triangles
    }

    /// Appends `vertex` and returns its index.
    pub fn add_vertex(&mut self, vertex: V) -> (r: usize)
        requires
            old(self).wf(),
        ensures
            final(self).wf(),
            final(self).spec_vertices() == old(self).spec_vertices().push(vertex),
            final(self).spec_triangles() == old(self).spec_triangles(),
            r == old(self).spec_vertices().len(),
    {
        self.vertices.push(vertex);
        proof {
            assert forall|t: int| 0 <= t < self.triangles@.len() implies {
                let tri = #[trigger] self.spec_triangles()[t];
                &&& tri.indices[0] < self.spec_vertices().len()
                &&& tri.indices[1] < self.spec_vertices().len()
                &&& tri.indices[2] < self.spec_vertices().len()
            } by {
                assert(old(self).spec_triangles()[t] == self.spec_triangles()[t]);
            }
        }
        self.vertices.len() - 1
    }

    /// Appends `triangle`, whose indices must reference existing vertices.
    pub fn add_triangle(&mut self, triangle: Triangle)
        requires
            old(self).wf(),
            triangle.indices[0] < old(self).spec_vertices().len(),
            triangle.indices[1] < old(self).spec_vertices().len(),
            triangle.indices[2] < old(self).spec_vertices().len(),
        ensures
            final(self).wf(),
            final(self).spec_vertices() == old(self).spec_vertices(),
            final(self).spec_triangles() == old(self).spec_triangles().push(triangle),
    {
        self.triangles.push(triangle);
        proof {
            assert forall|t: int| 0 <= t < self.triangles@.len() implies {
                let tri = #[trigger] self.spec_triangles()[t];
                &&& tri.indices[0] < self.spec_vertices().len()
                &&& tri.indices[1] < self.spec_vertices().len()
                &&& tri.indices[2] < self.spec_vertices().len()
            } by {
                if t < old(self).triangles@.len() {
                    assert(self.spec_triangles()[t] == old(self).spec_triangles()[t]);
                }
            }
        }
    }

    /// Removes every vertex and triangle.
    pub fn clear(&mut self)
        ensures
            final(self).wf(),
            final(self).spec_vertices().len() == 0,
            final(self).spec_triangles().len() == 0,
    {
        self.vertices.clear();
        self.triangles.clear();
    }

    /// Whether the mesh has no vertex.
    pub fn is_empty(&self) -> (r: bool)
        ensures
            r == (self.spec_vertices().len() == 0),
    {
        self.vertices.len() == 0
    }
}

} // verus!
