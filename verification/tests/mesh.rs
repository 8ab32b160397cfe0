use sphere_scene::icosphere::{corner, Face, IcoSphere, MeshError, MAX_LEVEL};
use sphere_scene::strip::assemble;
use std::collections::{HashMap, HashSet};

fn positions(sphere: &IcoSphere) -> Vec<[f32; 3]> {
    let mut out: Vec<[f32; 3]> = Vec::new();
    for v in 0..sphere.vertex_count() {
        if let Some(bits) = corner(v) {
            out.push([f32::from_bits(bits[0]), f32::from_bits(bits[1]), f32::from_bits(bits[2])]);
        } else {
            let (a, b) = sphere.parents(v).unwrap();
            let p = out[a as usize];
            let q = out[b as usize];
            let m = [p[0] + q[0], p[1] + q[1], p[2] + q[2]];
            let n = (m[0] * m[0] + m[1] * m[1] + m[2] * m[2]).sqrt();
            out.push([m[0] / n, m[1] / n, m[2] / n]);
        }
    }
    out
}

fn faces(sphere: &IcoSphere) -> Vec<Face> {
    (0..sphere.face_count()).map(|i| sphere.face(i).unwrap()).collect()
}

fn pow4(level: u32) -> usize {
    4usize.pow(level)
}

#[test]
fn icosahedron_has_twenty_faces_and_twelve_vertices() {
    let s = IcoSphere::new();
    assert_eq!(s.level(), 0);
    assert_eq!(s.face_count(), 20);
    assert_eq!(s.vertex_count(), 12);
    assert_eq!(s.edge_count(), 30);
    assert_eq!(s.face(0), Some(Face { v: [0, 11, 5], e: [0, 1, 2] }));
    assert_eq!(s.face(19), Some(Face { v: [9, 8, 1], e: [29, 18, 11] }));
    assert_eq!(s.face(20), None);
    assert_eq!(s.edge(0), Some((0, 11)));
    assert_eq!(s.edge(29), Some((8, 9)));
    assert_eq!(s.edge(30), None);
    assert_eq!(s.parents(0), None);
    assert_eq!(s.parents(11), None);
    assert_eq!(s.parents(12), None);
}

#[test]
fn generate_level_zero_is_the_icosahedron() {
    let s = IcoSphere::generate(0).unwrap();
    let t = IcoSphere::new();
    assert_eq!(faces(&s), faces(&t));
    assert_eq!(s.vertex_count(), 12);
}

#[test]
fn counts_follow_the_formula() {
    for level in 0..=5u32 {
        let s = IcoSphere::generate(level).unwrap();
        assert_eq!(s.level(), level);
        assert_eq!(s.face_count(), 20 * pow4(level));
        assert_eq!(s.edge_count(), 30 * pow4(level));
        assert_eq!(s.vertex_count(), 10 * pow4(level) + 2);
    }
}

#[test]
fn level_one_counts_are_exact() {
    let s = IcoSphere::generate(1).unwrap();
    assert_eq!(s.face_count(), 80);
    assert_eq!(s.edge_count(), 120);
    assert_eq!(s.vertex_count(), 42);
}

#[test]
fn level_above_the_limit_is_refused() {
    assert_eq!(MAX_LEVEL, 12);
    assert!(matches!(IcoSphere::generate(13), Err(MeshError::LevelTooHigh)));
    assert!(matches!(IcoSphere::generate(u32::MAX), Err(MeshError::LevelTooHigh)));
}

#[test]
fn subdivide_goes_one_level_up() {
    let s = IcoSphere::generate(1).unwrap();
    let t = s.subdivide().unwrap();
    let u = IcoSphere::generate(2).unwrap();
    assert_eq!(t.level(), 2);
    assert_eq!(faces(&t), faces(&u));
    assert_eq!(t.vertex_count(), u.vertex_count());
    for v in 0..t.vertex_count() {
        assert_eq!(t.parents(v), u.parents(v));
    }
    for e in 0..t.edge_count() {
        assert_eq!(t.edge(e), u.edge(e));
    }
}

#[test]
fn first_subdivision_is_as_written_out() {
    let s = IcoSphere::generate(1).unwrap();
    // face (0, 11, 5) with sides 0, 1, 2 and midpoints 12, 13, 14
    assert_eq!(s.face(0), Some(Face { v: [0, 12, 14], e: [0, 60, 5] }));
    assert_eq!(s.face(1), Some(Face { v: [11, 13, 12], e: [2, 61, 1] }));
    assert_eq!(s.face(2), Some(Face { v: [5, 14, 13], e: [4, 62, 3] }));
    assert_eq!(s.face(3), Some(Face { v: [12, 13, 14], e: [61, 62, 60] }));
    assert_eq!(s.parents(12), Some((0, 11)));
    assert_eq!(s.parents(13), Some((11, 5)));
    assert_eq!(s.parents(41), Some((8, 9)));
    assert_eq!(s.parents(42), None);
    assert_eq!(s.edge(0), Some((0, 12)));
    assert_eq!(s.edge(1), Some((11, 12)));
    assert_eq!(s.edge(60), Some((12, 14)));
    assert_eq!(s.edge(61), Some((13, 12)));
    assert_eq!(s.edge(62), Some((14, 13)));
}

#[test]
fn corners_lie_on_the_unit_sphere() {
    for i in 0..12 {
        let c = corner(i).unwrap();
        let p = [f32::from_bits(c[0]), f32::from_bits(c[1]), f32::from_bits(c[2])];
        let n = (p[0] * p[0] + p[1] * p[1] + p[2] * p[2]).sqrt();
        assert!((n - 1.0).abs() < 1e-6);
    }
    assert_eq!(corner(12), None);
    let c = corner(0).unwrap();
    assert_eq!(f32::from_bits(c[0]), -0.5257311);
    assert_eq!(f32::from_bits(c[1]), 0.8506508);
    assert_eq!(f32::from_bits(c[2]), 0.0);
    let c = corner(11).unwrap();
    assert_eq!(f32::from_bits(c[0]), -0.8506508);
    assert_eq!(f32::from_bits(c[2]), 0.5257311);
}

#[test]
fn every_position_has_norm_one() {
    for level in 0..=3u32 {
        let s = IcoSphere::generate(level).unwrap();
        for p in positions(&s) {
            let n = (p[0] * p[0] + p[1] * p[1] + p[2] * p[2]).sqrt();
            assert!((n - 1.0).abs() < 1e-5);
        }
    }
}

#[test]
fn no_position_occurs_twice() {
    for level in 1..=3u32 {
        let s = IcoSphere::generate(level).unwrap();
        let seen: HashSet<[u32; 3]> = positions(&s)
            .iter()
            .map(|p| [p[0].to_bits(), p[1].to_bits(), p[2].to_bits()])
            .collect();
        assert_eq!(seen.len(), 10 * pow4(level) + 2);
    }
}

#[test]
fn no_two_vertices_have_the_same_parents() {
    let s = IcoSphere::generate(3).unwrap();
    let mut seen: HashSet<(u32, u32)> = HashSet::new();
    for v in 12..s.vertex_count() {
        let (a, b) = s.parents(v).unwrap();
        assert!(a != b);
        assert!((a as usize) < v && (b as usize) < v);
        assert!(seen.insert((a.min(b), a.max(b))));
    }
    assert_eq!(seen.len(), s.vertex_count() - 12);
}

#[test]
fn faces_wind_counter_clockwise_seen_from_outside() {
    for level in 0..=3u32 {
        let s = IcoSphere::generate(level).unwrap();
        let pos = positions(&s);
        for t in faces(&s) {
            let a = pos[t.v[0] as usize];
            let b = pos[t.v[1] as usize];
            let c = pos[t.v[2] as usize];
            let u = [b[0] - a[0], b[1] - a[1], b[2] - a[2]];
            let w = [c[0] - a[0], c[1] - a[1], c[2] - a[2]];
            let n = [
                u[1] * w[2] - u[2] * w[1],
                u[2] * w[0] - u[0] * w[2],
                u[0] * w[1] - u[1] * w[0],
            ];
            assert!(n[0] * a[0] + n[1] * a[1] + n[2] * a[2] > 0.0);
        }
    }
}

#[test]
fn every_edge_has_a_face_on_either_side() {
    for level in 0..=3u32 {
        let s = IcoSphere::generate(level).unwrap();
        let mut runs: HashMap<(u32, u32), usize> = HashMap::new();
        for t in faces(&s) {
            for k in 0..3 {
                let (a, b) = s.edge(t.e[k] as usize).unwrap();
                let from = t.v[k];
                let to = t.v[(k + 1) % 3];
                assert!((a, b) == (from, to) || (a, b) == (to, from));
                *runs.entry((t.e[k], from)).or_insert(0) += 1;
            }
        }
        assert_eq!(runs.len(), 2 * s.edge_count());
        assert!(runs.values().all(|n| *n == 1));
    }
}

#[test]
fn neighbours_share_the_vertex_on_their_edge() {
    let s = IcoSphere::generate(0).unwrap();
    let t = IcoSphere::generate(1).unwrap();
    // faces 0 = (0, 11, 5) and 1 = (0, 5, 1) of the icosahedron meet in edge 2 = (5, 0)
    assert_eq!(s.face(0).unwrap().e[2], s.face(1).unwrap().e[0]);
    // the corner faces at 0 of both use vertex 12 + 2
    assert_eq!(t.face(0).unwrap().v[2], 14);
    assert_eq!(t.face(4).unwrap().v[1], 14);
    assert_eq!(t.parents(14), Some((5, 0)));
}

#[test]
fn strip_of_the_icosahedron() {
    let s = IcoSphere::new();
    let strip = s.strip();
    assert_eq!(strip.len(), 117);
    assert_eq!(&strip[0..9], &[0, 11, 5, 5, 0, 0, 0, 5, 1]);
    assert_eq!(&strip[114..117], &[9, 8, 1]);
}

#[test]
fn strip_draws_every_face_once_and_nothing_else() {
    for level in 0..=2u32 {
        let s = IcoSphere::generate(level).unwrap();
        let strip = s.strip();
        let all = faces(&s);
        assert_eq!(strip.len(), 6 * all.len() - 3);
        for p in 0..strip.len() - 2 {
            let tri = [strip[p], strip[p + 1], strip[p + 2]];
            if p % 6 == 0 {
                assert_eq!(tri, all[p / 6].v);
            } else {
                assert!(tri[0] == tri[1] || tri[1] == tri[2]);
            }
        }
    }
}

#[test]
fn vertices_follow_the_strip() {
    let s = IcoSphere::new();
    let pos: Vec<[u32; 3]> = (0..12).map(|i| corner(i).unwrap()).collect();
    let nor: Vec<[u32; 3]> = (0..12u32).map(|i| [i, i + 100, i + 200]).collect();
    let mesh = s.vertices(&pos, &nor).unwrap();
    let strip = s.strip();
    assert_eq!(mesh.len(), 117);
    for (i, v) in mesh.iter().enumerate() {
        assert_eq!(v.position, pos[strip[i] as usize]);
        assert_eq!(v.normal, nor[strip[i] as usize]);
    }
    assert_eq!(mesh[1].position, corner(11).unwrap());
    assert_eq!(mesh[1].normal, [11, 111, 211]);
}

#[test]
fn vertices_need_one_attribute_for_each_vertex() {
    let s = IcoSphere::new();
    let pos: Vec<[u32; 3]> = (0..12).map(|i| corner(i).unwrap()).collect();
    let short: Vec<[u32; 3]> = pos[0..11].to_vec();
    let mut long = pos.clone();
    long.push([0, 0, 0]);
    assert_eq!(s.vertices(&short, &pos), Err(MeshError::AttributeCount));
    assert_eq!(s.vertices(&pos, &short), Err(MeshError::AttributeCount));
    assert_eq!(s.vertices(&long, &long), Err(MeshError::AttributeCount));
    assert!(s.vertices(&pos, &pos).is_ok());
}

#[test]
fn assemble_refuses_a_vertex_without_attributes() {
    let pos = vec![[1u32, 2, 3], [4, 5, 6]];
    let nor = vec![[7u32, 8, 9], [10, 11, 12]];
    let out = assemble(&[1, 0, 1], &pos, &nor).unwrap();
    assert_eq!(out.len(), 3);
    assert_eq!(out[0].position, [4, 5, 6]);
    assert_eq!(out[0].normal, [10, 11, 12]);
    assert_eq!(out[1].position, [1, 2, 3]);
    assert_eq!(assemble(&[0, 2], &pos, &nor), None);
    assert_eq!(assemble(&[1], &pos, &nor[0..1]), None);
    assert_eq!(assemble(&[], &pos, &nor), Some(vec![]));
}

#[test]
fn mesh_errors_in_words() {
    assert_eq!(MeshError::LevelTooHigh.describe(), "mesh: level of subdivision above 12");
    assert_eq!(
        MeshError::AttributeCount.describe(),
        "mesh: not one position and one normal for every vertex"
    );
}
