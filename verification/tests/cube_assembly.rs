use cubescene::faces::{apply_transform, face_transform};
use cubescene::fixed::Vec3fx;
use cubescene::mesh::{build_face, AtlasCoord, HALF};

#[test]
fn six_placements_give_eight_unique_corners() {
    let mesh = build_face(AtlasCoord { u: 0, v: 0 });
    let mut corners: Vec<Vec3fx> = Vec::new();
    for i in 0..6 {
        let t = face_transform(i).unwrap();
        for p in &mesh.positions {
            let q = apply_transform(&t, p);
            assert!(q.x == HALF || q.x == -HALF);
            assert!(q.y == HALF || q.y == -HALF);
            assert!(q.z == HALF || q.z == -HALF);
            if !corners.contains(&q) {
                corners.push(q);
            }
        }
    }
    assert_eq!(corners.len(), 8);
}

#[test]
fn face_centers_sit_on_the_axes() {
    let center = Vec3fx { x: 0, y: HALF, z: 0 };
    let expected = [
        Vec3fx { x: 0, y: -HALF, z: 0 },
        Vec3fx { x: -HALF, y: 0, z: 0 },
        Vec3fx { x: HALF, y: 0, z: 0 },
        Vec3fx { x: 0, y: 0, z: -HALF },
        Vec3fx { x: 0, y: 0, z: HALF },
        Vec3fx { x: 0, y: HALF, z: 0 },
    ];
    for i in 0..6 {
        let t = face_transform(i).unwrap();
        assert_eq!(apply_transform(&t, &center), expected[i]);
    }
}

#[test]
fn placements_keep_the_face_rigid() {
    // A rigid transform keeps squared distances; check one edge and one
    // diagonal of every placed face against the canonical face.
    let mesh = build_face(AtlasCoord { u: 0, v: 0 });
    let dist2 = |a: &Vec3fx, b: &Vec3fx| -> i128 {
        let dx = (a.x - b.x) as i128;
        let dy = (a.y - b.y) as i128;
        let dz = (a.z - b.z) as i128;
        dx * dx + dy * dy + dz * dz
    };
    let edge = dist2(&mesh.positions[0], &mesh.positions[1]);
    let diagonal = dist2(&mesh.positions[0], &mesh.positions[2]);
    for i in 0..6 {
        let t = face_transform(i).unwrap();
        let q: Vec<Vec3fx> = mesh.positions.iter().map(|p| apply_transform(&t, p)).collect();
        assert_eq!(dist2(&q[0], &q[1]), edge);
        assert_eq!(dist2(&q[0], &q[2]), diagonal);
    }
}
