//! The icosahedron, and the sphere that comes of subdividing it.

use vstd::prelude::*;
use crate::topology::{Facet, Mesh, same_pair, pow4};
use crate::subdivision::lemma_subdivided_wf;

verus! {

/// The two ends of edge `i` of the icosahedron.
pub open spec fn base_edge(i: int) -> (int, int) {
    if i == 0 {
        (0, 11)
    } else if i == 1 {
        (11, 5)
    } else if i == 2 {
        (5, 0)
    } else if i == 3 {
        (5, 1)
    } else if i == 4 {
        (1, 0)
    } else if i == 5 {
        (1, 7)
    } else if i == 6 {
        (7, 0)
    } else if i == 7 {
        (7, 10)
    } else if i == 8 {
        (10, 0)
    } else if i == 9 {
        (10, 11)
    } else if i == 10 {
        (5, 9)
    } else if i == 11 {
        (9, 1)
    } else if i == 12 {
        (11, 4)
    } else if i == 13 {
        (4, 5)
    } else if i == 14 {
        (10, 2)
    } else if i == 15 {
        (2, 11)
    } else if i == 16 {
        (7, 6)
    } else if i == 17 {
        (6, 10)
    } else if i == 18 {
        (1, 8)
    } else if i == 19 {
        (8, 7)
    } else if i == 20 {
        (3, 9)
    } else if i == 21 {
        (9, 4)
    } else if i == 22 {
        (4, 3)
    } else if i == 23 {
        (4, 2)
    } else if i == 24 {
        (2, 3)
    } else if i == 25 {
        (2, 6)
    } else if i == 26 {
        (6, 3)
    } else if i == 27 {
        (6, 8)
    } else if i == 28 {
        (8, 3)
    } else {
        (8, 9)
    }
}

/// Face `i` of the icosahedron, wound counter-clockwise as seen from
/// outside.
pub open spec fn base_face(i: int) -> Facet {
    if i == 0 {
        Facet { v: (0, 11, 5), e: (0, 1, 2) }
    } else if i == 1 {
        Facet { v: (0, 5, 1), e: (2, 3, 4) }
    } else if i == 2 {
        Facet { v: (0, 1, 7), e: (4, 5, 6) }
    } else if i == 3 {
        Facet { v: (0, 7, 10), e: (6, 7, 8) }
    } else if i == 4 {
        Facet { v: (0, 10, 11), e: (8, 9, 0) }
    } else if i == 5 {
        Facet { v: (1, 5, 9), e: (3, 10, 11) }
    } else if i == 6 {
        Facet { v: (5, 11, 4), e: (1, 12, 13) }
    } else if i == 7 {
        Facet { v: (11, 10, 2), e: (9, 14, 15) }
    } else if i == 8 {
        Facet { v: (10, 7, 6), e: (7, 16, 17) }
    } else if i == 9 {
        Facet { v: (7, 1, 8), e: (5, 18, 19) }
    } else if i == 10 {
        Facet { v: (3, 9, 4), e: (20, 21, 22) }
    } else if i == 11 {
        Facet { v: (3, 4, 2), e: (22, 23, 24) }
    } else if i == 12 {
        Facet { v: (3, 2, 6), e: (24, 25, 26) }
    } else if i == 13 {
        Facet { v: (3, 6, 8), e: (26, 27, 28) }
    } else if i == 14 {
        Facet { v: (3, 8, 9), e: (28, 29, 20) }
    } else if i == 15 {
        Facet { v: (4, 9, 5), e: (21, 10, 13) }
    } else if i == 16 {
        Facet { v: (2, 4, 11), e: (23, 12, 15) }
    } else if i == 17 {
        Facet { v: (6, 2, 10), e: (25, 14, 17) }
    } else if i == 18 {
        Facet { v: (8, 6, 7), e: (27, 16, 19) }
    } else {
        Facet { v: (9, 8, 1), e: (29, 18, 11) }
    }
}

/// The two faces on edge `e` of the icosahedron, each with the side that
/// runs along `e`: first the face that starts at the first end of `e`, then
/// the one that starts at its second.
pub open spec fn base_wings(e: int) -> ((int, int), (int, int)) {
    if e == 0 {
        ((0, 0), (4, 2))
    } else if e == 1 {
        ((0, 1), (6, 0))
    } else if e == 2 {
        ((0, 2), (1, 0))
    } else if e == 3 {
        ((1, 1), (5, 0))
    } else if e == 4 {
        ((1, 2), (2, 0))
    } else if e == 5 {
        ((2, 1), (9, 0))
    } else if e == 6 {
        ((2, 2), (3, 0))
    } else if e == 7 {
        ((3, 1), (8, 0))
    } else if e == 8 {
        ((3, 2), (4, 0))
    } else if e == 9 {
        ((4, 1), (7, 0))
    } else if e == 10 {
        ((5, 1), (15, 1))
    } else if e == 11 {
        ((5, 2), (19, 2))
    } else if e == 12 {
        ((6, 1), (16, 1))
    } else if e == 13 {
        ((6, 2), (15, 2))
    } else if e == 14 {
        ((7, 1), (17, 1))
    } else if e == 15 {
        ((7, 2), (16, 2))
    } else if e == 16 {
        ((8, 1), (18, 1))
    } else if e == 17 {
        ((8, 2), (17, 2))
    } else if e == 18 {
        ((9, 1), (19, 1))
    } else if e == 19 {
        ((9, 2), (18, 2))
    } else if e == 20 {
        ((10, 0), (14, 2))
    } else if e == 21 {
        ((10, 1), (15, 0))
    } else if e == 22 {
        ((10, 2), (11, 0))
    } else if e == 23 {
        ((11, 1), (16, 0))
    } else if e == 24 {
        ((11, 2), (12, 0))
    } else if e == 25 {
        ((12, 1), (17, 0))
    } else if e == 26 {
        ((12, 2), (13, 0))
    } else if e == 27 {
        ((13, 1), (18, 0))
    } else if e == 28 {
        ((13, 2), (14, 0))
    } else {
        ((14, 1), (19, 0))
    }
}

/// The icosahedron: twelve vertices, thirty edges, twenty faces.
pub open spec fn icosahedron() -> Mesh {
    Mesh {
        level: 0,
        vertices: 12,
        parents: Seq::empty(),
        edges: Seq::new(30, |i: int| base_edge(i)),
        faces: Seq::new(20, |i: int| base_face(i)),
    }
}

/// The icosahedron subdivided `level` times.
pub open spec fn icosphere(level: nat) -> Mesh
    decreases level,
{
    if level == 0 {
        icosahedron()
    } else {
        icosphere((level - 1) as nat).subdivided()
    }
}

/// The icosahedron is a well formed mesh.
pub proof fn lemma_icosahedron_wf()
    ensures
        icosahedron().wf(),
{
    let m = icosahedron();
    assert(pow4(0) == 1);
    assert(m.counts_ok());
    assert(m.edges_ok());
    assert forall|i: int| 0 <= i < m.faces.len() implies m.face_ok(#[trigger] m.faces[i]) by {
        let t = m.faces[i];
        assert(t == base_face(i));
        assert(m.edges[t.e.0] == base_edge(t.e.0));
        assert(m.edges[t.e.1] == base_edge(t.e.1));
        assert(m.edges[t.e.2] == base_edge(t.e.2));
    }
    assert(m.faces_apart());
    assert(m.wound());
    assert forall|e: int| 0 <= e < m.edges.len() implies #[trigger] m.winged(e) by {
        let w = base_wings(e);
        let p = m.edges[e];
        assert(m.faces[w.0.0] == base_face(w.0.0));
        assert(m.faces[w.1.0] == base_face(w.1.0));
        assert(m.runs(w.0.0, w.0.1, e, p.0));
        assert(m.runs(w.1.0, w.1.1, e, p.1));
    }
    assert(m.parents_ok());
}

/// At every level the sphere is a well formed mesh of that level.
pub proof fn lemma_icosphere_wf(level: nat)
    ensures
        icosphere(level).wf(),
        icosphere(level).level == level,
    decreases level,
{
    if level == 0 {
        lemma_icosahedron_wf();
    } else {
        lemma_icosphere_wf((level - 1) as nat);
        lemma_subdivided_wf(icosphere((level - 1) as nat));
    }
}

/// At every level the sphere has twenty faces, thirty edges and ten
/// vertices for every fourth power of its level, and two vertices more.
pub proof fn lemma_icosphere_counts(level: nat)
    ensures
        icosphere(level).faces.len() == 20 * pow4(level),
        icosphere(level).edges.len() == 30 * pow4(level),
        icosphere(level).vertices == 10 * pow4(level) + 2,
        icosphere(level).parents.len() == 10 * pow4(level) - 10,
{
    lemma_icosphere_wf(level);
}

/// Two faces that have a side between the same two vertices have the same
/// edge there, and subdivision gives both the same vertex on it: the faces
/// cut off at the corners where the two sides start meet in that vertex.
pub proof fn lemma_midpoint_shared(level: nat, f: int, j: int, g: int, k: int)
    requires
        0 <= f < icosphere(level).faces.len(),
        0 <= g < icosphere(level).faces.len(),
        0 <= j < 3,
        0 <= k < 3,
        same_pair(
            (icosphere(level).faces[f].vert(j), icosphere(level).faces[f].vert(j + 1)),
            (icosphere(level).faces[g].vert(k), icosphere(level).faces[g].vert(k + 1)),
        ),
    ensures
        icosphere(level).faces[f].edge(j) == icosphere(level).faces[g].edge(k),
        icosphere(level).child(f, j).v.1 == icosphere(level).child(g, k).v.1,
        icosphere(level).child(f, j).v.1 == icosphere(level).midpoint(
            icosphere(level).faces[f].edge(j),
        ),
{
    let m = icosphere(level);
    lemma_icosphere_wf(level);
    let t = m.faces[f];
    let u = m.faces[g];
    assert(m.face_ok(t));
    assert(m.face_ok(u));
    assert(m.side_ok(t, 0) && m.side_ok(t, 1) && m.side_ok(t, 2));
    assert(m.side_ok(u, 0) && m.side_ok(u, 1) && m.side_ok(u, 2));
    let a = t.edge(j);
    let b = u.edge(k);
    let p = m.edges[a];
    let q = m.edges[b];
    if a < b {
        assert(!same_pair(m.edges[a], m.edges[b]));
    } else if b < a {
        assert(!same_pair(m.edges[b], m.edges[a]));
    }
}

/// No two vertices lie between the same two vertices: every edge that was
/// ever cut got one vertex, whichever face was cut first.
pub proof fn lemma_midpoints_distinct(level: nat, v: int, w: int)
    requires
        12 <= v < icosphere(level).vertices,
        12 <= w < icosphere(level).vertices,
        v != w,
    ensures
        !same_pair(icosphere(level).parents[v - 12], icosphere(level).parents[w - 12]),
{
    let m = icosphere(level);
    lemma_icosphere_wf(level);
    if v < w {
        assert(!same_pair(m.parents[v - 12], m.parents[w - 12]));
    } else {
        assert(!same_pair(m.parents[w - 12], m.parents[v - 12]));
    }
}

/// Every vertex beyond the corners of the icosahedron lies between two
/// different vertices that were there before it.
pub proof fn lemma_parents_older(level: nat, v: int)
    requires
        12 <= v < icosphere(level).vertices,
    ensures
        0 <= icosphere(level).parents[v - 12].0 < v,
        0 <= icosphere(level).parents[v - 12].1 < v,
        icosphere(level).parents[v - 12].0 != icosphere(level).parents[v - 12].1,
{
    let m = icosphere(level);
    lemma_icosphere_wf(level);
    let p = m.parents[v - 12];
}

/// The sphere has no seam: along every edge run exactly two faces, one
/// from each end, so the two wind the same way round.
pub proof fn lemma_two_faces_per_edge(level: nat, e: int)
    requires
        0 <= e < icosphere(level).edges.len(),
    ensures
        exists|f: int, k: int| icosphere(level).runs(f, k, e, icosphere(level).edges[e].0),
        exists|f: int, k: int| icosphere(level).runs(f, k, e, icosphere(level).edges[e].1),
        forall|f: int, k: int, g: int, l: int, x: int|
            icosphere(level).runs(f, k, e, x) && icosphere(level).runs(g, l, e, x) ==> f == g && k
                == l,
{
    let m = icosphere(level);
    lemma_icosphere_wf(level);
    assert(m.winged(e));
    assert forall|f: int, k: int, g: int, l: int, x: int|
        m.runs(f, k, e, x) && m.runs(g, l, e, x) implies f == g && k == l by {
        if f != g || k != l {
            assert(m.faces[f].edge(k) == m.faces[g].edge(l));
            assert(m.faces[f].vert(k) != m.faces[g].vert(l));
        }
    }
}

/// The parents of a vertex stay what they are at every higher level, and
/// so do its number and the numbers of the older vertices.
pub proof fn lemma_parents_kept(level: nat, v: int)
    requires
        12 <= v < icosphere(level).vertices,
    ensures
        v < icosphere(level + 1).vertices,
        icosphere(level + 1).parents[v - 12] == icosphere(level).parents[v - 12],
{
    lemma_icosphere_wf(level);
    assert(icosphere(level + 1) == icosphere(level).subdivided());
}

} // verus!
