//! The sphere mesh as the renderer builds it.

use vstd::prelude::*;
use crate::topology::{Facet, Mesh, pow4, face_total, edge_total, vertex_total, lemma_pow4_monotonic};
use crate::sphere::{base_edge, base_face, icosahedron, icosphere, lemma_icosphere_wf};
use crate::strip::{strip_of, strip_len, strip_at, indices_view, drawn, assemble};
use crate::vertex::Vertex;

verus! {

/// The highest level of subdivision that is built: the last at which
/// every count of the mesh, that of its triangle strip included, fits in
/// 32 bits.
pub const MAX_LEVEL: u32 = 12;

/// Why no mesh was built.
#[derive(Clone, Copy, Debug, PartialEq, Eq, Structural)]
pub enum MeshError {
    /// The level of subdivision is above `MAX_LEVEL`.
    LevelTooHigh,
    /// There is not one position and one normal for every vertex.
    AttributeCount,
}

impl MeshError {
    /// The error in words.
    pub fn describe(&self) -> (text: &'static str)
        ensures
            text@ == match *self {
                MeshError::LevelTooHigh => "mesh: level of subdivision above 12"@,
                MeshError::AttributeCount => "mesh: not one position and one normal for every vertex"@,
            },
    {
        match self {
            MeshError::LevelTooHigh => "mesh: level of subdivision above 12",
            MeshError::AttributeCount => "mesh: not one position and one normal for every vertex",
        }
    }
}

/// A triangle: its corners in winding order, and its sides, side `k`
/// running from corner `k` to the corner after it.
#[derive(Clone, Copy, Debug, PartialEq, Eq)]
pub struct Face {
    pub v: [u32; 3],
    pub e: [u32; 3],
}

impl View for Face {
    type V = Facet;

    open spec fn view(&self) -> Facet {
        Facet {
            v: (self.v[0] as int, self.v[1] as int, self.v[2] as int),
            e: (self.e[0] as int, self.e[1] as int, self.e[2] as int),
        }
    }
}

/// The two numbers of `p` as mathematical integers.
pub open spec fn pair_view(p: (u32, u32)) -> (int, int) {
    (p.0 as int, p.1 as int)
}

/// The pairs of `s` as pairs of mathematical integers.
pub open spec fn pairs_view(s: Seq<(u32, u32)>) -> Seq<(int, int)> {
    Seq::new(s.len(), |i: int| pair_view(s[i]))
}

/// The faces of `s` as faces of the model.
pub open spec fn faces_view(s: Seq<Face>) -> Seq<Facet> {
    Seq::new(s.len(), |i: int| s[i]@)
}

/// The two ends of edge `i` of the icosahedron.
fn base_edge_at(i: usize) -> (p: (u32, u32))
    requires
        i < 30,
    ensures
        pair_view(p) == base_edge(i as int),
{
    if i == 0 {
        (0, 11)
    } else if i == 1 {
        (11, 5)
    } else if i == 2 {
        (5, 0)
    } else if i == 3 {
        (5, 1)
    } else if i == 4 {
        (1, 0)
    } else if i == 5 {
        (1, 7)
    } else if i == 6 {
        (7, 0)
    } else if i == 7 {
        (7, 10)
    } else if i == 8 {
        (10, 0)
    } else if i == 9 {
        (10, 11)
    } else if i == 10 {
        (5, 9)
    } else if i == 11 {
        (9, 1)
    } else if i == 12 {
        (11, 4)
    } else if i == 13 {
        (4, 5)
    } else if i == 14 {
        (10, 2)
    } else if i == 15 {
        (2, 11)
    } else if i == 16 {
        (7, 6)
    } else if i == 17 {
        (6, 10)
    } else if i == 18 {
        (1, 8)
    } else if i == 19 {
        (8, 7)
    } else if i == 20 {
        (3, 9)
    } else if i == 21 {
        (9, 4)
    } else if i == 22 {
        (4, 3)
    } else if i == 23 {
        (4, 2)
    } else if i == 24 {
        (2, 3)
    } else if i == 25 {
        (2, 6)
    } else if i == 26 {
        (6, 3)
    } else if i == 27 {
        (6, 8)
    } else if i == 28 {
        (8, 3)
    } else {
        (8, 9)
    }
}

/// Face `i` of the icosahedron.
fn base_face_at(i: usize) -> (t: Face)
    requires
        i < 20,
    ensures
        t@ == base_face(i as int),
{
    if i == 0 {
        Face { v: [0, 11, 5], e: [0, 1, 2] }
    } else if i == 1 {
        Face { v: [0, 5, 1], e: [2, 3, 4] }
    } else if i == 2 {
        Face { v: [0, 1, 7], e: [4, 5, 6] }
    } else if i == 3 {
        Face { v: [0, 7, 10], e: [6, 7, 8] }
    } else if i == 4 {
        Face { v: [0, 10, 11], e: [8, 9, 0] }
    } else if i == 5 {
        Face { v: [1, 5, 9], e: [3, 10, 11] }
    } else if i == 6 {
        Face { v: [5, 11, 4], e: [1, 12, 13] }
    } else if i == 7 {
        Face { v: [11, 10, 2], e: [9, 14, 15] }
    } else if i == 8 {
        Face { v: [10, 7, 6], e: [7, 16, 17] }
    } else if i == 9 {
        Face { v: [7, 1, 8], e: [5, 18, 19] }
    } else if i == 10 {
        Face { v: [3, 9, 4], e: [20, 21, 22] }
    } else if i == 11 {
        Face { v: [3, 4, 2], e: [22, 23, 24] }
    } else if i == 12 {
        Face { v: [3, 2, 6], e: [24, 25, 26] }
    } else if i == 13 {
        Face { v: [3, 6, 8], e: [26, 27, 28] }
    } else if i == 14 {
        Face { v: [3, 8, 9], e: [28, 29, 20] }
    } else if i == 15 {
        Face { v: [4, 9, 5], e: [21, 10, 13] }
    } else if i == 16 {
        Face { v: [2, 4, 11], e: [23, 12, 15] }
    } else if i == 17 {
        Face { v: [6, 2, 10], e: [25, 14, 17] }
    } else if i == 18 {
        Face { v: [8, 6, 7], e: [27, 16, 19] }
    } else {
        Face { v: [9, 8, 1], e: [29, 18, 11] }
    }
}

/// The shorter coordinate of a corner of the icosahedron inscribed in the
/// unit sphere, as the bits of a single precision number (0.5257311).
pub const CORNER_SHORT: u32 = 0x3f06_9650;

/// The longer coordinate of such a corner (0.8506508).
pub const CORNER_LONG: u32 = 0x3f59_c440;

/// The bit that tells a negative single precision number.
pub const SIGN_BIT: u32 = 0x8000_0000;

/// The position of corner `i` of the icosahedron, as the bits of three
/// single precision numbers. The corners are the cyclic permutations of
/// (±short, ±long, 0).
pub open spec fn corner_bits(i: int) -> [u32; 3] {
    let a = CORNER_SHORT;
    let b = CORNER_LONG;
    let na = (CORNER_SHORT + SIGN_BIT) as u32;
    let nb = (CORNER_LONG + SIGN_BIT) as u32;
    if i == 0 {
        [na, b, 0]
    } else if i == 1 {
        [a, b, 0]
    } else if i == 2 {
        [na, nb, 0]
    } else if i == 3 {
        [a, nb, 0]
    } else if i == 4 {
        [0, na, b]
    } else if i == 5 {
        [0, a, b]
    } else if i == 6 {
        [0, na, nb]
    } else if i == 7 {
        [0, a, nb]
    } else if i == 8 {
        [b, 0, na]
    } else if i == 9 {
        [b, 0, a]
    } else if i == 10 {
        [nb, 0, na]
    } else {
        [nb, 0, a]
    }
}

/// The position of corner `i` of the icosahedron; `None` from twelve on.
pub fn corner(i: usize) -> (p: Option<[u32; 3]>)
    ensures
        p is Some <==> i < 12,
        p is Some ==> p->Some_0 == corner_bits(i as int),
{
    let a: u32 = CORNER_SHORT;
    let b: u32 = CORNER_LONG;
    let na: u32 = CORNER_SHORT + SIGN_BIT;
    let nb: u32 = CORNER_LONG + SIGN_BIT;
    if i == 0 {
        Some([na, b, 0])
    } else if i == 1 {
        Some([a, b, 0])
    } else if i == 2 {
        Some([na, nb, 0])
    } else if i == 3 {
        Some([a, nb, 0])
    } else if i == 4 {
        Some([0, na, b])
    } else if i == 5 {
        Some([0, a, b])
    } else if i == 6 {
        Some([0, na, nb])
    } else if i == 7 {
        Some([0, a, nb])
    } else if i == 8 {
        Some([b, 0, na])
    } else if i == 9 {
        Some([b, 0, a])
    } else if i == 10 {
        Some([nb, 0, na])
    } else if i == 11 {
        Some([nb, 0, a])
    } else {
        None
    }
}

/// The counts of every level that is built fit in 32 bits.
pub proof fn lemma_totals_bounded(l: nat)
    requires
        l <= MAX_LEVEL,
    ensures
        12 <= vertex_total(l) <= 167_772_162,
        30 <= edge_total(l) <= 503_316_480,
        20 <= face_total(l) <= 335_544_320,
{
    lemma_pow4_monotonic(0, l);
    lemma_pow4_monotonic(l, 12);
    assert(pow4(0) == 1);
    assert(pow4(12) == 16_777_216) by {
        reveal_with_fuel(pow4, 13);
    }
}

/// The unit sphere as a mesh of triangles: the icosahedron, subdivided as
/// often as its level says.
///
/// Vertices are numbers from 0. The first twelve are the corners of the
/// icosahedron. Every later one lies on the sphere above the middle of two
/// earlier ones, its parents.
pub struct IcoSphere {
    level: u32,
    parents: Vec<(u32, u32)>,
    edges: Vec<(u32, u32)>,
    faces: Vec<Face>,
}

impl View for IcoSphere {
    type V = Mesh;

    closed spec fn view(&self) -> Mesh {
        Mesh {
            level: self.level as nat,
            vertices: 12 + self.parents@.len() as int,
            parents: pairs_view(self.parents@),
            edges: pairs_view(self.edges@),
            faces: faces_view(self.faces@),
        }
    }
}

impl IcoSphere {
    /// The mesh is the sphere of its level, and the level is one that is
    /// built.
    pub open spec fn wf(&self) -> bool {
        &&& self@.level <= MAX_LEVEL
        &&& self@ == icosphere(self@.level)
    }

    /// The icosahedron itself.
    pub fn new() -> (s: IcoSphere)
        ensures
            s.wf(),
            s@ == icosahedron(),
    {
        let mut edges: Vec<(u32, u32)> = Vec::new();
        let mut i: usize = 0;
        while i < 30
            invariant
                i <= 30,
                edges@.len() == i,
                forall|j: int| 0 <= j < i ==> pair_view(#[trigger] edges@[j]) == base_edge(j),
            decreases 30 - i,
        {
            edges.push(base_edge_at(i));
            i += 1;
        }
        let mut faces: Vec<Face> = Vec::new();
        let mut i: usize = 0;
        while i < 20
            invariant
                i <= 20,
                faces@.len() == i,
                forall|j: int| 0 <= j < i ==> (#[trigger] faces@[j])@ == base_face(j),
            decreases 20 - i,
        {
            faces.push(base_face_at(i));
            i += 1;
        }
        let s = IcoSphere { level: 0, parents: Vec::new(), edges, faces };
        proof {
            let m = icosahedron();
            assert(s@.parents =~= m.parents);
            assert(s@.edges =~= m.edges);
            assert(s@.faces =~= m.faces);
        }
        s
    }

    /// The number of the half of edge `e` that ends in its end `x`.
    fn half(&self, e: u32, x: u32) -> (h: u32)
        requires
            e < self.edges@.len() <= 503_316_480,
        ensures
            h == self@.half(e as int, x as int),
    {
        if self.edges[e as usize].0 == x {
            2 * e
        } else {
            2 * e + 1
        }
    }

    /// The parents of the subdivided mesh: the old ones, then the ends of
    /// every edge.
    fn split_parents(&self) -> (out: Vec<(u32, u32)>)
        ensures
            pairs_view(out@) == self@.subdivided().parents,
    {
        let mut out: Vec<(u32, u32)> = Vec::new();
        let mut i: usize = 0;
        while i < self.parents.len()
            invariant
                i <= self.parents@.len(),
                out@ == self.parents@.take(i as int),
            decreases self.parents@.len() - i,
        {
            out.push(self.parents[i]);
            assert(out@ =~= self.parents@.take(i + 1));
            i += 1;
        }
        let mut j: usize = 0;
        while j < self.edges.len()
            invariant
                j <= self.edges@.len(),
                out@ == self.parents@ + self.edges@.take(j as int),
            decreases self.edges@.len() - j,
        {
            out.push(self.edges[j]);
            assert(out@ =~= self.parents@ + self.edges@.take(j + 1));
            j += 1;
        }
        assert(pairs_view(out@) =~= self@.subdivided().parents);
        out
    }

    /// The edges of the subdivided mesh.
    fn split_edges(&self) -> (out: Vec<(u32, u32)>)
        requires
            self.wf(),
            self@.level < MAX_LEVEL,
        ensures
            pairs_view(out@) == self@.subdivided().edges,
    {
        let ghost m = self@;
        proof {
            lemma_icosphere_wf(m.level);
            lemma_totals_bounded(m.level);
        }
        let first: u32 = (12 + self.parents.len()) as u32;
        let mut out: Vec<(u32, u32)> = Vec::new();
        let mut i: usize = 0;
        while i < self.edges.len()
            invariant
                m == self@,
                m.wf(),
                m.vertices <= 167_772_162,
                m.edges.len() <= 503_316_480,
                first == m.vertices,
                i <= self.edges@.len(),
                out@.len() == 2 * i,
                forall|j: int| 0 <= j < 2 * i ==> pair_view(#[trigger] out@[j]) == m.split_edge(j),
            decreases self.edges@.len() - i,
        {
            let p = self.edges[i];
            let mid: u32 = first + i as u32;
            out.push((p.0, mid));
            out.push((p.1, mid));
            i += 1;
        }
        let mut f: usize = 0;
        while f < self.faces.len()
            invariant
                m == self@,
                m.wf(),
                m.vertices <= 167_772_162,
                m.edges.len() <= 503_316_480,
                first == m.vertices,
                f <= self.faces@.len(),
                out@.len() == 2 * m.edges.len() + 3 * f,
                forall|j: int|
                    0 <= j < 2 * m.edges.len() + 3 * f ==> pair_view(#[trigger] out@[j])
                        == m.split_edge(j),
            decreases self.faces@.len() - f,
        {
            let t = self.faces[f];
            proof {
                assert(m.face_ok(m.faces[f as int]));
                assert(m.faces[f as int] == t@);
                assert(m.side_ok(t@, 0) && m.side_ok(t@, 1) && m.side_ok(t@, 2));
            }
            let m0: u32 = first + t.e[0];
            let m1: u32 = first + t.e[1];
            let m2: u32 = first + t.e[2];
            out.push((m0, m2));
            out.push((m1, m0));
            out.push((m2, m1));
            f += 1;
        }
        assert(pairs_view(out@) =~= m.subdivided().edges);
        out
    }

    /// The faces of the subdivided mesh.
    fn split_faces(&self) -> (out: Vec<Face>)
        requires
            self.wf(),
            self@.level < MAX_LEVEL,
        ensures
            faces_view(out@) == self@.subdivided().faces,
    {
        let ghost m = self@;
        proof {
            lemma_icosphere_wf(m.level);
            lemma_totals_bounded(m.level);
        }
        let first: u32 = (12 + self.parents.len()) as u32;
        let twice: u32 = (2 * self.edges.len()) as u32;
        let mut out: Vec<Face> = Vec::new();
        let mut f: usize = 0;
        while f < self.faces.len()
            invariant
                m == self@,
                m.wf(),
                m.vertices <= 167_772_162,
                m.edges.len() <= 503_316_480,
                m.faces.len() <= 335_544_320,
                first == m.vertices,
                twice == 2 * m.edges.len(),
                f <= self.faces@.len(),
                out@.len() == 4 * f,
                forall|j: int|
                    0 <= j < 4 * f ==> (#[trigger] out@[j])@ == m.child(j / 4, j % 4),
            decreases self.faces@.len() - f,
        {
            let t = self.faces[f];
            proof {
                assert(m.face_ok(m.faces[f as int]));
                assert(m.faces[f as int] == t@);
                assert(m.side_ok(t@, 0) && m.side_ok(t@, 1) && m.side_ok(t@, 2));
            }
            let m0: u32 = first + t.e[0];
            let m1: u32 = first + t.e[1];
            let m2: u32 = first + t.e[2];
            let cut: u32 = twice + 3 * (f as u32);
            let c0 = Face {
                v: [t.v[0], m0, m2],
                e: [self.half(t.e[0], t.v[0]), cut, self.half(t.e[2], t.v[0])],
            };
            let c1 = Face {
                v: [t.v[1], m1, m0],
                e: [self.half(t.e[1], t.v[1]), cut + 1, self.half(t.e[0], t.v[1])],
            };
            let c2 = Face {
                v: [t.v[2], m2, m1],
                e: [self.half(t.e[2], t.v[2]), cut + 2, self.half(t.e[1], t.v[2])],
            };
            let c3 = Face { v: [m0, m1, m2], e: [cut + 1, cut + 2, cut] };
            proof {
                assert(c0@ == m.child(f as int, 0));
                assert(c1@ == m.child(f as int, 1));
                assert(c2@ == m.child(f as int, 2));
                assert(c3@ == m.child(f as int, 3));
            }
            out.push(c0);
            out.push(c1);
            out.push(c2);
            out.push(c3);
            f += 1;
        }
        assert(faces_view(out@) =~= m.subdivided().faces);
        out
    }

    /// The sphere one level up: a new vertex on every edge, and four
    /// faces for every face. At the highest level there is none.
    pub fn subdivide(&self) -> (r: Result<IcoSphere, MeshError>)
        requires
            self.wf(),
        ensures
            self@.level < MAX_LEVEL ==> r is Ok && r->Ok_0.wf() && r->Ok_0@
                == self@.subdivided(),
            self@.level >= MAX_LEVEL ==> r is Err && r->Err_0 == MeshError::LevelTooHigh,
    {
        if self.level >= MAX_LEVEL {
            return Err(MeshError::LevelTooHigh);
        }
        let parents = self.split_parents();
        let edges = self.split_edges();
        let faces = self.split_faces();
        let s = IcoSphere { level: self.level + 1, parents, edges, faces };
        proof {
            let n = self@.subdivided();
            assert(s@.parents == n.parents);
            assert(s@.vertices == n.vertices);
            assert(s@ == n);
        }
        Ok(s)
    }

    /// The sphere at `level`: the icosahedron for 0, and each level above
    /// it the subdivision of the one below.
    pub fn generate(level: u32) -> (r: Result<IcoSphere, MeshError>)
        ensures
            level <= MAX_LEVEL ==> r is Ok && r->Ok_0.wf() && r->Ok_0@ == icosphere(level as nat),
            level > MAX_LEVEL ==> r is Err && r->Err_0 == MeshError::LevelTooHigh,
    {
        if level > MAX_LEVEL {
            return Err(MeshError::LevelTooHigh);
        }
        let mut s = IcoSphere::new();
        let mut l: u32 = 0;
        while l < level
            invariant
                l <= level <= MAX_LEVEL,
                s.wf(),
                s@ == icosphere(l as nat),
            decreases level - l,
        {
            proof {
                lemma_icosphere_wf(l as nat);
            }
            match s.subdivide() {
                Ok(next) => {
                    s = next;
                },
                Err(e) => {
                    return Err(e);
                },
            }
            l += 1;
            proof {
                lemma_icosphere_wf(l as nat);
            }
        }
        Ok(s)
    }

    /// How often the icosahedron was subdivided.
    pub fn level(&self) -> (l: u32)
        ensures
            l == self@.level,
    {
        self.level
    }

    /// The number of vertices.
    pub fn vertex_count(&self) -> (n: usize)
        requires
            self.wf(),
        ensures
            n == self@.vertices,
            n == vertex_total(self@.level),
    {
        proof {
            lemma_icosphere_wf(self@.level);
            lemma_totals_bounded(self@.level);
        }
        self.parents.len() + 12
    }

    /// The number of edges.
    pub fn edge_count(&self) -> (n: usize)
        requires
            self.wf(),
        ensures
            n == self@.edges.len(),
            n == edge_total(self@.level),
    {
        proof {
            lemma_icosphere_wf(self@.level);
        }
        self.edges.len()
    }

    /// The number of faces.
    pub fn face_count(&self) -> (n: usize)
        requires
            self.wf(),
        ensures
            n == self@.faces.len(),
            n == face_total(self@.level),
    {
        proof {
            lemma_icosphere_wf(self@.level);
        }
        self.faces.len()
    }

    /// The two vertices between which vertex `v` lies; `None` for a corner
    /// of the icosahedron and for a number that is no vertex.
    pub fn parents(&self, v: usize) -> (p: Option<(u32, u32)>)
        ensures
            p is Some <==> 12 <= v < self@.vertices,
            p is Some ==> pair_view(p->Some_0) == self@.parents[v - 12],
    {
        if v >= 12 && v - 12 < self.parents.len() {
            Some(self.parents[v - 12])
        } else {
            None
        }
    }

    /// The two ends of edge `i`; `None` where there is no such edge.
    pub fn edge(&self, i: usize) -> (p: Option<(u32, u32)>)
        ensures
            p is Some <==> i < self@.edges.len(),
            p is Some ==> pair_view(p->Some_0) == self@.edges[i as int],
    {
        if i < self.edges.len() {
            Some(self.edges[i])
        } else {
            None
        }
    }

    /// Face `i`; `None` where there is no such face.
    pub fn face(&self, i: usize) -> (t: Option<Face>)
        ensures
            t is Some <==> i < self@.faces.len(),
            t is Some ==> t->Some_0@ == self@.faces[i as int],
    {
        if i < self.faces.len() {
            Some(self.faces[i])
        } else {
            None
        }
    }

    /// The faces as one triangle strip of vertex numbers.
    pub fn strip(&self) -> (out: Vec<u32>)
        requires
            self.wf(),
        ensures
            indices_view(out@) == strip_of(self@.faces),
            out@.len() == strip_len(face_total(self@.level)),
    {
        let ghost faces = self@.faces;
        proof {
            lemma_icosphere_wf(self@.level);
            lemma_totals_bounded(self@.level);
        }
        let count: usize = self.faces.len();
        let mut out: Vec<u32> = Vec::new();
        let mut f: usize = 0;
        while f < count
            invariant
                faces == self@.faces,
                count == self.faces@.len(),
                count <= 335_544_320,
                f <= count,
                out@.len() == (if f == count { strip_len(count as int) } else { 6 * f }),
                forall|j: int| 0 <= j < out@.len() ==> (#[trigger] out@[j]) as int == strip_at(faces, j),
            decreases count - f,
        {
            let t = self.faces[f];
            assert(faces[f as int] == t@);
            out.push(t.v[0]);
            out.push(t.v[1]);
            out.push(t.v[2]);
            if f + 1 < count {
                let next = self.faces[f + 1];
                assert(faces[f + 1] == next@);
                out.push(t.v[2]);
                out.push(next.v[0]);
                out.push(next.v[0]);
            }
            f += 1;
        }
        assert(indices_view(out@) =~= strip_of(faces));
        out
    }

    /// The vertex sequence to draw as a triangle strip, from a position and
    /// a normal for every vertex of the mesh.
    pub fn vertices(&self, positions: &[[u32; 3]], normals: &[[u32; 3]]) -> (r: Result<
        Vec<Vertex>,
        MeshError,
    >)
        requires
            self.wf(),
        ensures
            r is Ok <==> positions@.len() == self@.vertices && normals@.len() == self@.vertices,
            r is Ok ==> r->Ok_0@ == drawn(strip_of(self@.faces), positions@, normals@),
            r is Err ==> r->Err_0 == MeshError::AttributeCount,
    {
        let n = self.vertex_count();
        if positions.len() != n || normals.len() != n {
            return Err(MeshError::AttributeCount);
        }
        let strip = self.strip();
        proof {
            lemma_icosphere_wf(self@.level);
            let m = self@;
            assert forall|i: int| 0 <= i < strip@.len() implies (#[trigger] strip@[i]) < n by {
                assert(indices_view(strip@)[i] == strip_at(m.faces, i));
                let t = m.faces[i / 6];
                let u = m.faces[i / 6 + 1];
                assert(m.face_ok(t));
                assert(m.side_ok(t, 0) && m.side_ok(t, 1) && m.side_ok(t, 2));
                if i % 6 >= 4 {
                    assert(m.face_ok(u));
                    assert(m.side_ok(u, 0));
                }
            }
        }
        match assemble(strip.as_slice(), positions, normals) {
            Some(v) => Ok(v),
            None => Err(MeshError::AttributeCount),
        }
    }
}

} // verus!
