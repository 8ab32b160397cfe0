//! Subdividing a well formed mesh gives a well formed mesh.

use vstd::prelude::*;
use crate::topology::{Facet, Mesh, same_pair, pow4, vertex_prior, lemma_pow4_positive};

verus! {

/// The corners of a face of a well formed mesh are three different
/// vertices, and its sides three different edges.
pub proof fn lemma_face_distinct(m: Mesh, t: Facet)
    requires
        m.edges_ok(),
        m.face_ok(t),
    ensures
        t.v.0 != t.v.1,
        t.v.1 != t.v.2,
        t.v.2 != t.v.0,
        t.e.0 != t.e.1,
        t.e.1 != t.e.2,
        t.e.2 != t.e.0,
{
    assert(m.side_ok(t, 0) && m.side_ok(t, 1) && m.side_ok(t, 2));
    let p0 = m.edges[t.e.0];
    let p1 = m.edges[t.e.1];
    let p2 = m.edges[t.e.2];
    assert(p0.0 != p0.1 && p1.0 != p1.1 && p2.0 != p2.1);
}

/// The counts of the subdivided mesh are those of the next level.
pub proof fn lemma_subdivided_counts(m: Mesh)
    requires
        m.counts_ok(),
    ensures
        m.subdivided().counts_ok(),
{
    let n = m.subdivided();
    lemma_pow4_positive(m.level);
    assert(pow4(n.level) == 4 * pow4(m.level));
}

/// The number of vertices never falls from one level to the next.
pub proof fn lemma_prior_below(m: Mesh)
    requires
        m.counts_ok(),
    ensures
        0 <= vertex_prior(m.level) <= m.vertices,
        vertex_prior(m.subdivided().level) == m.vertices,
{
    lemma_pow4_positive(m.level);
    if m.level > 0 {
        lemma_pow4_positive((m.level - 1) as nat);
    }
}

/// The edges of the subdivided mesh are in order.
pub proof fn lemma_subdivided_edges(m: Mesh)
    requires
        m.wf(),
    ensures
        m.subdivided().edges_ok(),
{
    let n = m.subdivided();
    let e2 = 2 * m.edges.len();
    lemma_prior_below(m);
    assert forall|i: int| 0 <= i < n.edges.len() implies {
        let p = #[trigger] n.edges[i];
        &&& 0 <= p.0 < n.vertices
        &&& 0 <= p.1 < n.vertices
        &&& p.0 != p.1
        &&& (p.0 >= vertex_prior(n.level) || p.1 >= vertex_prior(n.level))
    } by {
        if i >= e2 {
            let t = m.faces[(i - e2) / 3];
            assert(m.face_ok(t));
            lemma_face_distinct(m, t);
        }
    }
    assert forall|i: int, j: int| 0 <= i < j < n.edges.len() implies !same_pair(
        #[trigger] n.edges[i],
        #[trigger] n.edges[j],
    ) by {
        // Two halves differ in their midpoint or in their old end, and a half
        // has an old end where an inner edge has none. Two inner edges that
        // join the same midpoints would lie in faces with two sides in common.
        if i >= e2 {
            let f = (i - e2) / 3;
            let g = (j - e2) / 3;
            assert(m.face_ok(m.faces[f]));
            assert(m.face_ok(m.faces[g]));
            lemma_face_distinct(m, m.faces[f]);
            lemma_face_distinct(m, m.faces[g]);
            if f != g {
                assert(m.faces[f].common(m.faces[g]) <= 1);
            }
        }
    }
}

/// The faces of the subdivided mesh are triangles of its edges.
pub proof fn lemma_subdivided_faces_ok(m: Mesh)
    requires
        m.wf(),
    ensures
        m.subdivided().faces_ok(),
{
    let n = m.subdivided();
    assert forall|i: int| 0 <= i < n.faces.len() implies n.face_ok(#[trigger] n.faces[i]) by {
        let f = i / 4;
        let k = i % 4;
        let t = m.faces[f];
        let c = n.faces[i];
        assert(c == m.child(f, k));
        assert(m.face_ok(t));
        lemma_face_distinct(m, t);
        assert(m.side_ok(t, 0) && m.side_ok(t, 1) && m.side_ok(t, 2));
        assert(n.edges[c.e.0] == m.split_edge(c.e.0));
        assert(n.edges[c.e.1] == m.split_edge(c.e.1));
        assert(n.edges[c.e.2] == m.split_edge(c.e.2));
        assert(n.side_ok(c, 0));
        assert(n.side_ok(c, 1));
        assert(n.side_ok(c, 2));
    }
}

/// Two different faces of the subdivided mesh have at most one side in
/// common.
pub proof fn lemma_subdivided_faces_apart(m: Mesh)
    requires
        m.wf(),
    ensures
        m.subdivided().faces_apart(),
{
    let n = m.subdivided();
    assert forall|i: int, j: int|
        0 <= i < n.faces.len() && 0 <= j < n.faces.len() && i != j implies (
    #[trigger] n.faces[i]).common(#[trigger] n.faces[j]) <= 1 by {
        let f = i / 4;
        let g = j / 4;
        let t = m.faces[f];
        let u = m.faces[g];
        assert(n.faces[i] == m.child(f, i % 4));
        assert(n.faces[j] == m.child(g, j % 4));
        assert(m.face_ok(t));
        assert(m.face_ok(u));
        lemma_face_distinct(m, t);
        lemma_face_distinct(m, u);
        assert(m.side_ok(t, 0) && m.side_ok(t, 1) && m.side_ok(t, 2));
        assert(m.side_ok(u, 0) && m.side_ok(u, 1) && m.side_ok(u, 2));
        if f != g {
            assert(t.common(u) <= 1);
        }
    }
}

/// The faces of the subdivided mesh are wound alike.
pub proof fn lemma_subdivided_wound(m: Mesh)
    requires
        m.wf(),
    ensures
        m.subdivided().wound(),
{
    let n = m.subdivided();
    assert forall|i: int, j: int, k: int, l: int|
        0 <= i < n.faces.len() && 0 <= j < n.faces.len() && 0 <= k < 3 && 0 <= l < 3 && (i != j
            || k != l) && #[trigger] n.faces[i].edge(k) == #[trigger] n.faces[j].edge(
            l,
        ) implies n.faces[i].vert(k) != n.faces[j].vert(l) by {
        let f = i / 4;
        let g = j / 4;
        let a = i % 4;
        let b = j % 4;
        let t = m.faces[f];
        let u = m.faces[g];
        assert(n.faces[i] == m.child(f, a));
        assert(n.faces[j] == m.child(g, b));
        assert(m.face_ok(t));
        assert(m.face_ok(u));
        lemma_face_distinct(m, t);
        lemma_face_distinct(m, u);
        assert(m.side_ok(t, 0) && m.side_ok(t, 1) && m.side_ok(t, 2));
        assert(m.side_ok(u, 0) && m.side_ok(u, 1) && m.side_ok(u, 2));
        if a < 3 && b < 3 {
            if k == 0 && l == 0 {
                assert(t.edge(a) == u.edge(b));
            } else if k == 2 && l == 2 {
                assert(t.edge(a + 2) == u.edge(b + 2));
                let a2 = if a == 0 { 2int } else { a - 1 };
                let b2 = if b == 0 { 2int } else { b - 1 };
                assert(t.edge(a2) == u.edge(b2));
                assert(f != g || a2 != b2);
                assert(t.vert(a2) != u.vert(b2));
            }
        }
    }
}

/// The subdivided surface has no border.
pub proof fn lemma_subdivided_closed(m: Mesh)
    requires
        m.wf(),
    ensures
        m.subdivided().closed(),
{
    let n = m.subdivided();
    let e2 = 2 * m.edges.len();
    assert forall|i: int| 0 <= i < n.edges.len() implies #[trigger] n.winged(i) by {
        let p = n.edges[i];
        if i < e2 {
            let e = i / 2;
            let q = m.edges[e];
            let x = if i % 2 == 0 { q.0 } else { q.1 };
            let y = if i % 2 == 0 { q.1 } else { q.0 };
            assert(m.winged(e));
            // the old face that leaves `x` along `e`, and the one that arrives there
            let (f, k) = choose|f: int, k: int| m.runs(f, k, e, x);
            let (g, l) = choose|g: int, l: int| m.runs(g, l, e, y);
            assert(m.runs(f, k, e, x));
            assert(m.runs(g, l, e, y));
            let t = m.faces[f];
            let u = m.faces[g];
            assert(m.face_ok(t));
            assert(m.face_ok(u));
            assert(m.side_ok(t, 0) && m.side_ok(t, 1) && m.side_ok(t, 2));
            assert(m.side_ok(u, 0) && m.side_ok(u, 1) && m.side_ok(u, 2));
            let l1 = if l == 2 { 0int } else { l + 1 };
            assert(n.faces[4 * f + k] == m.child(f, k));
            assert(n.faces[4 * g + l1] == m.child(g, l1));
            assert(n.runs(4 * f + k, 0, i, p.0));
            assert(n.runs(4 * g + l1, 2, i, p.1));
        } else {
            let f = (i - e2) / 3;
            let k = (i - e2) % 3;
            let k2 = if k == 0 { 2int } else { k - 1 };
            assert(n.faces[4 * f + k] == m.child(f, k));
            assert(n.faces[4 * f + 3] == m.child(f, 3));
            assert(n.runs(4 * f + k, 1, i, p.0));
            assert(n.runs(4 * f + 3, k2, i, p.1));
        }
    }
}

/// The new vertices of the subdivided mesh lie between the ends of the
/// old edges, each on an edge of its own.
pub proof fn lemma_subdivided_parents(m: Mesh)
    requires
        m.wf(),
    ensures
        m.subdivided().parents_ok(),
{
    let n = m.subdivided();
    let old_len = m.parents.len() as int;
    lemma_prior_below(m);
    assert forall|i: int| 0 <= i < n.parents.len() implies {
        let p = #[trigger] n.parents[i];
        &&& 0 <= p.0 < 12 + i
        &&& 0 <= p.1 < 12 + i
        &&& p.0 != p.1
        &&& p.0 < vertex_prior(n.level)
        &&& p.1 < vertex_prior(n.level)
    } by {
        if i < old_len {
            assert(n.parents[i] == m.parents[i]);
        } else {
            assert(n.parents[i] == m.edges[i - old_len]);
        }
    }
    assert forall|i: int, j: int| 0 <= i < j < n.parents.len() implies !same_pair(
        #[trigger] n.parents[i],
        #[trigger] n.parents[j],
    ) by {
        if j < old_len {
            assert(n.parents[i] == m.parents[i]);
            assert(n.parents[j] == m.parents[j]);
        } else if i < old_len {
            assert(n.parents[i] == m.parents[i]);
            assert(n.parents[j] == m.edges[j - old_len]);
        } else {
            assert(n.parents[i] == m.edges[i - old_len]);
            assert(n.parents[j] == m.edges[j - old_len]);
        }
    }
}

/// Subdividing a well formed mesh gives a well formed mesh, one level up.
pub proof fn lemma_subdivided_wf(m: Mesh)
    requires
        m.wf(),
    ensures
        m.subdivided().wf(),
        m.subdivided().level == m.level + 1,
{
    lemma_subdivided_counts(m);
    lemma_subdivided_edges(m);
    lemma_subdivided_faces_ok(m);
    lemma_subdivided_faces_apart(m);
    lemma_subdivided_wound(m);
    lemma_subdivided_closed(m);
    lemma_subdivided_parents(m);
}

} // verus!
