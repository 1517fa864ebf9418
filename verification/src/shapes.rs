//! Primitive shapes and the index lists that tessellate them.
//!
//! A shape describes a small polygon (a circle approximated by a fan of
//! triangles, or a square made of two) and yields the 16-bit index list that
//! the render pipeline draws with.  Vertex positions are produced by the
//! host from the same vertex count, so the well-formedness obligation here is
//! that every index stays below that count and indices come in whole
//! triangles.

use vstd::prelude::*;

verus! {

/// Value at position `k` of a triangle fan's index list: triangle `j`
/// occupies positions `3*j .. 3*j + 3` and reads `(j + 2, j + 1, 0)`.
pub open spec fn fan_index_at(k: int) -> u16
    recommends 0 <= k
{
    if k % 3 == 0 {
        (k / 3 + 2) as u16
    } else if k % 3 == 1 {
        (k / 3 + 1) as u16
    } else {
        0u16
    }
}

/// Index list of the triangle fan over `n` boundary vertices: for each
/// `j` in `[0, n - 2)` the triangle `(j + 2, j + 1, 0)`.
pub open spec fn circle_fan_indices(n: int) -> Seq<u16>
    recommends 3 <= n <= u16::MAX
{
    Seq::new((3 * (n - 2)) as nat, |k: int| fan_index_at(k))
}

/// Triangle `j` of the fan over `n` vertices, as the three indices it draws.
pub open spec fn fan_triangle(n: int, j: int) -> Seq<u16>
    recommends 3 <= n <= u16::MAX && 0 <= j < n - 2
{
    circle_fan_indices(n).subrange(3 * j, 3 * j + 3)
}

/// Some triangle of the fan over `n` vertices draws boundary vertex `v`.
pub open spec fn fan_draws_vertex(n: int, v: int) -> bool {
    exists|j: int| 0 <= j < n - 2 && fan_triangle(n, j).contains(v as u16)
}

/// Index list of the square: two triangles `(0, 2, 1)` and `(1, 2, 3)`
/// sharing the diagonal edge between vertices 2 and 1.
pub open spec fn square_index_list() -> Seq<u16> {
    seq![0u16, 2u16, 1u16, 1u16, 2u16, 3u16]
}

/// Index list of the default textured mesh: three triangles fanned around
/// the last of its five vertices.
pub open spec fn default_mesh_index_list() -> Seq<u16> {
    seq![0u16, 1u16, 4u16, 1u16, 2u16, 4u16, 2u16, 3u16, 4u16]
}

/// The default textured mesh's indices, as uploaded into its index buffer.
pub fn default_mesh_indices() -> (r: Vec<u16>)
    ensures
        r@ == default_mesh_index_list(),
{
    let r: Vec<u16> = vec![0, 1, 4, 1, 2, 4, 2, 3, 4];
    proof {
        assert(r@ =~= default_mesh_index_list());
    }
    r
}

/// Law: the default mesh's indices come in whole triangles over its five
/// vertices.
pub proof fn lemma_default_mesh_indices_in_bounds()
    ensures
        default_mesh_index_list().len() == 9,
        forall|k: int| 0 <= k < 9 ==> default_mesh_index_list()[k] < 5,
{
}

/// A shape that can be tessellated into indexed triangles.
pub trait Shape: Sized {
    /// The shape's parameters are admissible.
    spec fn inv(&self) -> bool;

    /// Number of vertices of the generated polygon.
    spec fn spec_vertex_count(&self) -> int;

    /// The index list the shape generates.
    spec fn spec_indices(&self) -> Seq<u16>;

    /// Law: the generated indices come in whole triangles and every index
    /// refers to one of the polygon's vertices.
    proof fn indices_in_bounds(&self)
        requires
            self.inv(),
        ensures
            self.spec_indices().len() % 3 == 0,
            forall|k: int|
                0 <= k < self.spec_indices().len() ==> (self.spec_indices()[k]
                    as int) < self.spec_vertex_count(),
    ;

    fn vertex_count(&self) -> (n: u16)
        requires
            self.inv(),
        ensures
            n as int == self.spec_vertex_count(),
    ;

    fn indices(&self) -> (r: Vec<u16>)
        requires
            self.inv(),
        ensures
            r@ == self.spec_indices(),
    ;
}

/// A circle approximated by a fan of triangles over `num_vertices` boundary
/// vertices, drawn clockwise so the fan's winding reads counter-clockwise.
pub struct Circle {
    pub num_vertices: u16,
}

impl Circle {
    /// Fewer than three vertices would leave nothing to tessellate, so such
    /// a circle is rejected at construction.
    pub open spec fn wf(self) -> bool {
        3 <= self.num_vertices
    }

    pub fn new(num_vertices: u16) -> (c: Circle)
        requires
            3 <= num_vertices,
        ensures
            c.wf(),
            c.num_vertices == num_vertices,
    {
        Circle { num_vertices }
    }

    pub fn num_triangles(&self) -> (t: u16)
        requires
            self.wf(),
        ensures
            t == self.num_vertices - 2,
    {
        self.num_vertices - 2
    }
}

impl Default for Circle {
    fn default() -> (c: Self)
        ensures
            c.wf(),
            c.num_vertices == 20,
    {
        Circle { num_vertices: 20 }
    }
}

impl Shape for Circle {
    open spec fn inv(&self) -> bool {
        self.wf()
    }

    open spec fn spec_vertex_count(&self) -> int {
        self.num_vertices as int
    }

    open spec fn spec_indices(&self) -> Seq<u16> {
        circle_fan_indices(self.num_vertices as int)
    }

    proof fn indices_in_bounds(&self) {
        lemma_circle_fan_closed(self.num_vertices as int);
    }

    fn vertex_count(&self) -> (n: u16) {
        self.num_vertices
    }

    fn indices(&self) -> (r: Vec<u16>) {
        let n = self.num_vertices;
        let mut r: Vec<u16> = Vec::new();
        let mut i: u16 = 1;
        while i <= n - 2
            invariant
                3 <= n,
                1 <= i <= n - 1,
                r@.len() == 3 * (i - 1),
                forall|k: int| 0 <= k < r@.len() ==> r@[k] == fan_index_at(k),
            decreases n - i,
        {
            r.push(i + 1);
            r.push(i);
            r.push(0);
            assert forall|k: int| 0 <= k < r@.len() implies r@[k] == fan_index_at(k) by {
                let j = i - 1;
                if k >= 3 * j {
                    assert(k == 3 * j || k == 3 * j + 1 || k == 3 * j + 2);
                }
            }
            i = i + 1;
        }
        proof {
            assert(r@ =~= circle_fan_indices(n as int));
        }
        r
    }
}

/// A unit square of two triangles; its index list is the same for every
/// square, whatever its placement.
pub struct Square {
}

impl Square {
    pub fn new() -> (s: Square)
        ensures
            s.inv(),
    {
        Square {  }
    }
}

impl Shape for Square {
    open spec fn inv(&self) -> bool {
        true
    }

    open spec fn spec_vertex_count(&self) -> int {
        4
    }

    open spec fn spec_indices(&self) -> Seq<u16> {
        square_index_list()
    }

    proof fn indices_in_bounds(&self) {
    }

    fn vertex_count(&self) -> (n: u16) {
        4
    }

    fn indices(&self) -> (r: Vec<u16>) {
        let r: Vec<u16> = vec![0, 2, 1, 1, 2, 3];
        proof {
            assert(r@ =~= square_index_list());
        }
        r
    }
}

/// Indexed triangle geometry: vertices of any carrier type together with the
/// 16-bit index list that groups them into triangles.
pub struct Mesh<V> {
    pub vertices: Vec<V>,
    pub indices: Vec<u16>,
}

impl<V> Mesh<V> {
    /// Indices come in whole triangles and each one names a vertex.
    pub open spec fn wf(self) -> bool {
        &&& self.indices@.len() % 3 == 0
        &&& forall|k: int|
            0 <= k < self.indices@.len() ==> (self.indices@[k] as int) < self.vertices@.len()
    }

    /// Groups `vertices` and `indices` into a mesh, rejecting index data
    /// that is not whole triangles over the vertex set.
    pub fn new(vertices: Vec<V>, indices: Vec<u16>) -> (r: Option<Mesh<V>>)
        ensures
            r is Some <==> (Mesh { vertices: vertices, indices: indices }).wf(),
            r matches Some(m) ==> m.wf() && m.vertices@ == vertices@ && m.indices@ == indices@,
    {
        if indices.len() % 3 != 0 {
            return None;
        }
        let mut k: usize = 0;
        while k < indices.len()
            invariant
                0 <= k <= indices.len(),
                forall|i: int| 0 <= i < k ==> (indices@[i] as int) < vertices@.len(),
            decreases indices.len() - k,
        {
            if indices[k] as usize >= vertices.len() {
                return None;
            }
            k = k + 1;
        }
        Some(Mesh { vertices, indices })
    }

    /// How many indices one draw call over the whole mesh covers.
    pub fn index_count(&self) -> (n: usize)
        ensures
            n == self.indices@.len(),
    {
        self.indices.len()
    }
}

/// Builds the mesh of `shape` from vertices the host generated for it; the
/// shape's index law guarantees success whenever the host supplied one
/// vertex per boundary point.
pub fn build_mesh<V, S: Shape>(shape: &S, vertices: Vec<V>) -> (r: Option<Mesh<V>>)
    requires
        shape.inv(),
    ensures
        r is Some <==> forall|k: int|
            0 <= k < shape.spec_indices().len() ==> (shape.spec_indices()[k] as int)
                < vertices@.len(),
        vertices@.len() == shape.spec_vertex_count() ==> r is Some,
        r matches Some(m) ==> m.wf() && m.vertices@ == vertices@ && m.indices@
            == shape.spec_indices(),
{
    proof {
        shape.indices_in_bounds();
    }
    let indices = shape.indices();
    Mesh::new(vertices, indices)
}

/// Law: the fan over `n` vertices has `3 * (n - 2)` indices, every index
/// names one of the `n` vertices, triangle `j` is `(j + 2, j + 1, 0)` — one
/// consistent winding around the apex — no two triangles coincide, and every
/// boundary vertex is drawn by some triangle, so the fan closes the polygon.
pub proof fn lemma_circle_fan_closed(n: int)
    requires
        3 <= n <= u16::MAX,
    ensures
        circle_fan_indices(n).len() == 3 * (n - 2),
        forall|k: int|
            0 <= k < circle_fan_indices(n).len() ==> (circle_fan_indices(n)[k] as int) < n,
        forall|j: int|
            0 <= j < n - 2 ==> fan_triangle(n, j) =~= seq![(j + 2) as u16, (j + 1) as u16, 0u16],
        forall|j1: int, j2: int|
            0 <= j1 < n - 2 && 0 <= j2 < n - 2 && j1 != j2 ==> fan_triangle(n, j1) != fan_triangle(
                n, j2),
        forall|v: int| 1 <= v < n ==> #[trigger] fan_draws_vertex(n, v),
{
    assert forall|j: int| 0 <= j < n - 2 implies fan_triangle(n, j) =~= seq![
        (j + 2) as u16,
        (j + 1) as u16,
        0u16,
    ] by {
        assert((3 * j) % 3 == 0 && (3 * j + 1) % 3 == 1 && (3 * j + 2) % 3 == 2);
        assert((3 * j) / 3 == j && (3 * j + 1) / 3 == j && (3 * j + 2) / 3 == j);
    }
    assert forall|j1: int, j2: int|
        0 <= j1 < n - 2 && 0 <= j2 < n - 2 && j1 != j2 implies fan_triangle(n, j1) != fan_triangle(
        n, j2) by {
        assert(fan_triangle(n, j1)[0] == (j1 + 2) as u16);
        assert(fan_triangle(n, j2)[0] == (j2 + 2) as u16);
    }
    assert forall|v: int| 1 <= v < n implies #[trigger] fan_draws_vertex(n, v) by {
        if v < n - 1 {
            assert(fan_triangle(n, v - 1)[1] == v as u16);
            assert(fan_triangle(n, v - 1).contains(v as u16));
        } else {
            assert(fan_triangle(n, n - 3)[0] == v as u16);
            assert(fan_triangle(n, n - 3).contains(v as u16));
        }
    }
}

/// Law: the square's index list has six entries over exactly the four
/// vertices `0..4`, and its two triangles share the diagonal edge `(2, 1)`.
pub proof fn lemma_square_indices_diagonal()
    ensures
        square_index_list().len() == 6,
        forall|k: int| 0 <= k < 6 ==> square_index_list()[k] < 4,
        forall|v: u16| v < 4 ==> square_index_list().contains(v),
        square_index_list().subrange(0, 3).contains(2u16) && square_index_list().subrange(0,
            3).contains(1u16),
        square_index_list().subrange(3, 6).contains(2u16) && square_index_list().subrange(3,
            6).contains(1u16),
{
    let s = square_index_list();
    assert forall|v: u16| v < 4 implies s.contains(v) by {
        if v == 0 {
            assert(s[0] == v);
        } else if v == 1 {
            assert(s[2] == v);
        } else if v == 2 {
            assert(s[1] == v);
        } else {
            assert(s[5] == v);
        }
    }
    assert(s.subrange(0, 3)[1] == 2u16);
    assert(s.subrange(0, 3)[2] == 1u16);
    assert(s.subrange(3, 6)[0] == 1u16);
    assert(s.subrange(3, 6)[1] == 2u16);
}

} // verus!
