//! Faces laid out as one triangle strip.
//!
//! A strip draws a triangle for every three consecutive entries, and turns
//! every second one round. Each face therefore takes six entries: its three
//! corners, then its last corner once more and the first corner of the next
//! face twice. The face itself then always starts at an even entry and keeps
//! its winding, and every triangle in between has two equal corners and
//! covers nothing.

use vstd::prelude::*;
use crate::topology::Facet;
use crate::vertex::Vertex;

verus! {

/// The number of entries of the strip of `faces` faces.
pub open spec fn strip_len(faces: int) -> int {
    if faces <= 0 {
        0
    } else {
        6 * faces - 3
    }
}

/// Entry `i` of the strip of `faces`.
pub open spec fn strip_at(faces: Seq<Facet>, i: int) -> int {
    let t = faces[i / 6];
    let r = i % 6;
    if r == 0 {
        t.v.0
    } else if r == 1 {
        t.v.1
    } else if r == 2 || r == 3 {
        t.v.2
    } else {
        faces[i / 6 + 1].v.0
    }
}

/// The strip of `faces`: the vertex to draw at every entry.
pub open spec fn strip_of(faces: Seq<Facet>) -> Seq<int> {
    Seq::new(strip_len(faces.len() as int) as nat, |i: int| strip_at(faces, i))
}

/// The numbers of `s` as mathematical integers.
pub open spec fn indices_view(s: Seq<u32>) -> Seq<int> {
    Seq::new(s.len(), |i: int| s[i] as int)
}

/// The triangle that a strip draws at entry `p` is face `p / 6` where `p`
/// is a multiple of six, and has two equal corners everywhere else. So the
/// strip draws every face once, wound as it is, and nothing besides.
pub proof fn lemma_strip_triangles(faces: Seq<Facet>, p: int)
    requires
        0 <= p,
        p + 2 < strip_len(faces.len() as int),
    ensures
        strip_of(faces).len() == strip_len(faces.len() as int),
        p % 6 == 0 ==> {
            &&& p / 6 < faces.len()
            &&& p % 2 == 0
            &&& strip_of(faces)[p] == faces[p / 6].v.0
            &&& strip_of(faces)[p + 1] == faces[p / 6].v.1
            &&& strip_of(faces)[p + 2] == faces[p / 6].v.2
        },
        p % 6 != 0 ==> {
            ||| strip_of(faces)[p] == strip_of(faces)[p + 1]
            ||| strip_of(faces)[p + 1] == strip_of(faces)[p + 2]
        },
{
}

/// Every face is drawn: face `f` stands at entry `6 * f` of the strip.
pub proof fn lemma_strip_covers(faces: Seq<Facet>, f: int)
    requires
        0 <= f < faces.len(),
    ensures
        6 * f + 2 < strip_of(faces).len(),
        strip_of(faces)[6 * f] == faces[f].v.0,
        strip_of(faces)[6 * f + 1] == faces[f].v.1,
        strip_of(faces)[6 * f + 2] == faces[f].v.2,
{
}

/// The vertices that a strip draws: for every entry the position and the
/// normal of the vertex it names.
pub open spec fn drawn(indices: Seq<int>, positions: Seq<[u32; 3]>, normals: Seq<[u32; 3]>) -> Seq<
    Vertex,
> {
    Seq::new(
        indices.len(),
        |i: int| Vertex { position: positions[indices[i]], normal: normals[indices[i]] },
    )
}

/// Looks up the position and the normal of every entry of `indices`.
/// `None` where an entry names a vertex that has no position or no normal.
pub fn assemble(indices: &[u32], positions: &[[u32; 3]], normals: &[[u32; 3]]) -> (out: Option<
    Vec<Vertex>,
>)
    ensures
        out is Some <==> forall|i: int|
            0 <= i < indices@.len() ==> (#[trigger] indices@[i]) < positions@.len() && indices@[i]
                < normals@.len(),
        out is Some ==> out->Some_0@ == drawn(indices_view(indices@), positions@, normals@),
{
    let mut out: Vec<Vertex> = Vec::new();
    let mut i: usize = 0;
    while i < indices.len()
        invariant
            i <= indices@.len(),
            out@.len() == i,
            forall|j: int|
                0 <= j < i ==> (#[trigger] indices@[j]) < positions@.len() && indices@[j]
                    < normals@.len(),
            forall|j: int|
                0 <= j < i ==> #[trigger] out@[j] == (Vertex {
                    position: positions@[indices@[j] as int],
                    normal: normals@[indices@[j] as int],
                }),
        decreases indices@.len() - i,
    {
        let at: usize = indices[i] as usize;
        if at >= positions.len() || at >= normals.len() {
            return None;
        }
        out.push(Vertex { position: positions[at], normal: normals[at] });
        i += 1;
    }
    assert(out@ =~= drawn(indices_view(indices@), positions@, normals@));
    Some(out)
}

} // verus!
