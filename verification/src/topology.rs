//! The combinatorial model of a triangulated sphere and of its subdivision.
//!
//! A mesh is told by numbers alone: how many vertices it has, which two
//! vertices each edge joins, and which three vertices and three edges each
//! face has. Subdividing puts one new vertex on every edge and replaces every
//! face by four. Because the new vertex belongs to the edge, the two faces on
//! either side of an edge cannot help but use the same one.

use vstd::prelude::*;

verus! {

/// Four to the power `l`.
pub open spec fn pow4(l: nat) -> int
    decreases l,
{
    if l == 0 {
        1
    } else {
        4 * pow4((l - 1) as nat)
    }
}

/// The number of faces of the sphere subdivided `l` times.
pub open spec fn face_total(l: nat) -> int {
    20 * pow4(l)
}

/// The number of edges of the sphere subdivided `l` times.
pub open spec fn edge_total(l: nat) -> int {
    30 * pow4(l)
}

/// The number of vertices of the sphere subdivided `l` times.
pub open spec fn vertex_total(l: nat) -> int {
    10 * pow4(l) + 2
}

/// The number of vertices that the sphere had one level before level `l`;
/// none before the first.
pub open spec fn vertex_prior(l: nat) -> int {
    if l == 0 {
        0
    } else {
        vertex_total((l - 1) as nat)
    }
}

/// Whether `p` and `q` are the same two numbers, in either order.
pub open spec fn same_pair(p: (int, int), q: (int, int)) -> bool {
    p == q || (p.0 == q.1 && p.1 == q.0)
}

/// A triangle: its corners in winding order, and its sides, side `k`
/// running from corner `k` to the corner after it.
pub struct Facet {
    pub v: (int, int, int),
    pub e: (int, int, int),
}

impl Facet {
    /// Corner `k`, counted round the triangle, for `k` from 0 to 5.
    pub open spec fn vert(self, k: int) -> int {
        if k == 0 || k == 3 {
            self.v.0
        } else if k == 1 || k == 4 {
            self.v.1
        } else {
            self.v.2
        }
    }

    /// Side `k`, counted round the triangle, for `k` from 0 to 5.
    pub open spec fn edge(self, k: int) -> int {
        if k == 0 || k == 3 {
            self.e.0
        } else if k == 1 || k == 4 {
            self.e.1
        } else {
            self.e.2
        }
    }

    /// Whether `e` is one of the sides.
    pub open spec fn has_edge(self, e: int) -> bool {
        e == self.e.0 || e == self.e.1 || e == self.e.2
    }

    /// How many sides of `self` are sides of `other` too.
    pub open spec fn common(self, other: Facet) -> int {
        (if other.has_edge(self.e.0) { 1int } else { 0 })
        + (if other.has_edge(self.e.1) { 1int } else { 0 })
        + (if other.has_edge(self.e.2) { 1int } else { 0 })
    }
}

/// A triangulated surface at some level of subdivision.
pub struct Mesh {
    /// How often the icosahedron was subdivided to get here.
    pub level: nat,
    /// The number of vertices; they are numbered from 0.
    pub vertices: int,
    /// For every vertex from the thirteenth on, the two vertices between
    /// which it was put.
    pub parents: Seq<(int, int)>,
    /// The two ends of every edge.
    pub edges: Seq<(int, int)>,
    /// The faces.
    pub faces: Seq<Facet>,
}

impl Mesh {
    /// The vertex that subdivision puts on edge `e`.
    pub open spec fn midpoint(self, e: int) -> int {
        self.vertices + e
    }

    /// One half of edge `e` after subdivision: from its first end
    /// (`side` 0) or its second (`side` 1) to its midpoint.
    pub open spec fn half_edge(self, e: int, side: int) -> (int, int) {
        if side == 0 {
            (self.edges[e].0, self.midpoint(e))
        } else {
            (self.edges[e].1, self.midpoint(e))
        }
    }

    /// The number that the half of edge `e` at its end `v` gets.
    pub open spec fn half(self, e: int, v: int) -> int {
        if self.edges[e].0 == v {
            2 * e
        } else {
            2 * e + 1
        }
    }

    /// The number of the new edge that cuts corner `k` off face `f`.
    pub open spec fn inner(self, f: int, k: int) -> int {
        2 * self.edges.len() + 3 * f + k
    }

    /// The new edge that cuts corner `k` off face `f`: it joins the
    /// midpoints of the two sides that meet in that corner.
    pub open spec fn inner_edge(self, f: int, k: int) -> (int, int) {
        (self.midpoint(self.faces[f].edge(k)), self.midpoint(self.faces[f].edge(k + 2)))
    }

    /// Edge `i` of the subdivided mesh: first the two halves of every old
    /// edge, then the three inner edges of every old face.
    pub open spec fn split_edge(self, i: int) -> (int, int) {
        if i < 2 * self.edges.len() {
            self.half_edge(i / 2, i % 2)
        } else {
            self.inner_edge((i - 2 * self.edges.len()) / 3, (i - 2 * self.edges.len()) % 3)
        }
    }

    /// The `k`-th of the four faces that replace face `f`: for `k` below 3
    /// the one at corner `k`, for 3 the one in the middle. Each keeps the
    /// winding of `f`.
    pub open spec fn child(self, f: int, k: int) -> Facet {
        let t = self.faces[f];
        if k < 3 {
            Facet {
                v: (t.vert(k), self.midpoint(t.edge(k)), self.midpoint(t.edge(k + 2))),
                e: (
                    self.half(t.edge(k), t.vert(k)),
                    self.inner(f, k),
                    self.half(t.edge(k + 2), t.vert(k)),
                ),
            }
        } else {
            Facet {
                v: (self.midpoint(t.e.0), self.midpoint(t.e.1), self.midpoint(t.e.2)),
                e: (self.inner(f, 1), self.inner(f, 2), self.inner(f, 0)),
            }
        }
    }

    /// The mesh with every face replaced by four.
    pub open spec fn subdivided(self) -> Mesh {
        Mesh {
            level: self.level + 1,
            vertices: self.vertices + self.edges.len(),
            parents: self.parents + self.edges,
            edges: Seq::new((2 * self.edges.len() + 3 * self.faces.len()) as nat, |i: int| self.split_edge(i)),
            faces: Seq::new((4 * self.faces.len()) as nat, |i: int| self.child(i / 4, i % 4)),
        }
    }

    /// The mesh has as many vertices, edges and faces as its level asks for.
    pub open spec fn counts_ok(self) -> bool {
        &&& self.vertices == vertex_total(self.level)
        &&& self.edges.len() == edge_total(self.level)
        &&& self.faces.len() == face_total(self.level)
        &&& self.parents.len() == self.vertices - 12
    }

    /// Every edge joins two different vertices of the mesh, one of them
    /// new at this level, and no two edges join the same two.
    pub open spec fn edges_ok(self) -> bool {
        &&& forall|i: int|
            0 <= i < self.edges.len() ==> {
                let p = #[trigger] self.edges[i];
                &&& 0 <= p.0 < self.vertices
                &&& 0 <= p.1 < self.vertices
                &&& p.0 != p.1
                &&& (p.0 >= vertex_prior(self.level) || p.1 >= vertex_prior(self.level))
            }
        &&& forall|i: int, j: int|
            0 <= i < j < self.edges.len() ==> !same_pair(
                #[trigger] self.edges[i],
                #[trigger] self.edges[j],
            )
    }

    /// Side `k` of `t` is an edge of the mesh that joins corner `k` of `t`
    /// and the corner after it.
    pub open spec fn side_ok(self, t: Facet, k: int) -> bool {
        &&& 0 <= t.vert(k) < self.vertices
        &&& 0 <= t.edge(k) < self.edges.len()
        &&& same_pair(self.edges[t.edge(k)], (t.vert(k), t.vert(k + 1)))
    }

    /// The three sides of `t` are edges of the mesh between its corners.
    pub open spec fn face_ok(self, t: Facet) -> bool {
        self.side_ok(t, 0) && self.side_ok(t, 1) && self.side_ok(t, 2)
    }

    /// Every face is a triangle of edges of the mesh.
    pub open spec fn faces_ok(self) -> bool {
        forall|i: int| 0 <= i < self.faces.len() ==> self.face_ok(#[trigger] self.faces[i])
    }

    /// Two different faces have at most one side in common.
    pub open spec fn faces_apart(self) -> bool {
        forall|i: int, j: int|
            0 <= i < self.faces.len() && 0 <= j < self.faces.len() && i != j ==> (
            #[trigger] self.faces[i]).common(#[trigger] self.faces[j]) <= 1
    }

    /// Every vertex beyond the first twelve lies between two different
    /// vertices that are older than it and older than this level, and no
    /// two vertices lie between the same two.
    pub open spec fn parents_ok(self) -> bool {
        &&& forall|i: int|
            0 <= i < self.parents.len() ==> {
                let p = #[trigger] self.parents[i];
                &&& 0 <= p.0 < 12 + i
                &&& 0 <= p.1 < 12 + i
                &&& p.0 != p.1
                &&& p.0 < vertex_prior(self.level)
                &&& p.1 < vertex_prior(self.level)
            }
        &&& forall|i: int, j: int|
            0 <= i < j < self.parents.len() ==> !same_pair(
                #[trigger] self.parents[i],
                #[trigger] self.parents[j],
            )
    }

    /// The faces are wound alike: where two of them have a side in
    /// common, they run along it in opposite directions, so no edge is run
    /// along twice from the same end.
    pub open spec fn wound(self) -> bool {
        forall|i: int, j: int, k: int, l: int|
            0 <= i < self.faces.len() && 0 <= j < self.faces.len() && 0 <= k < 3 && 0 <= l < 3 && (i
                != j || k != l) && #[trigger] self.faces[i].edge(k) == #[trigger] self.faces[j].edge(
                l,
            ) ==> self.faces[i].vert(k) != self.faces[j].vert(l)
    }

    /// Face `f` runs along edge `e` with its side `k`, starting at vertex `from`.
    pub open spec fn runs(self, f: int, k: int, e: int, from: int) -> bool {
        &&& 0 <= f < self.faces.len()
        &&& 0 <= k < 3
        &&& self.faces[f].edge(k) == e
        &&& self.faces[f].vert(k) == from
    }

    /// Along edge `e` runs a face from its first end, and another from
    /// its second.
    pub open spec fn winged(self, e: int) -> bool {
        &&& exists|f: int, k: int| self.runs(f, k, e, self.edges[e].0)
        &&& exists|f: int, k: int| self.runs(f, k, e, self.edges[e].1)
    }

    /// The surface has no border: every edge has a face on either side.
    pub open spec fn closed(self) -> bool {
        forall|e: int| 0 <= e < self.edges.len() ==> #[trigger] self.winged(e)
    }

    /// The mesh is a well formed triangulation at its level.
    pub open spec fn wf(self) -> bool {
        &&& self.counts_ok()
        &&& self.edges_ok()
        &&& self.faces_ok()
        &&& self.faces_apart()
        &&& self.wound()
        &&& self.closed()
        &&& self.parents_ok()
    }
}

/// Four to any power is at least one.
pub proof fn lemma_pow4_positive(l: nat)
    ensures
        pow4(l) >= 1,
    decreases l,
{
    if l > 0 {
        lemma_pow4_positive((l - 1) as nat);
    }
}

/// Four to a higher power is not smaller.
pub proof fn lemma_pow4_monotonic(a: nat, b: nat)
    requires
        a <= b,
    ensures
        pow4(a) <= pow4(b),
    decreases b,
{
    if a < b {
        lemma_pow4_monotonic(a, (b - 1) as nat);
        lemma_pow4_positive((b - 1) as nat);
    }
}

} // verus!
