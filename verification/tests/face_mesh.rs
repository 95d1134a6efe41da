use cubescene::faces::{cube_faces, face_atlas, face_kind, face_transform, FaceKind};
use cubescene::fixed::Vec3fx;
use cubescene::mesh::{atlas_cell_in_grid, build_face, AtlasCoord, Uv, CELL, HALF};

#[test]
fn build_face_counts() {
    let m = build_face(AtlasCoord { u: 1080, v: 2520 });
    assert_eq!(m.positions.len(), 4);
    assert_eq!(m.uvs.len(), 4);
    assert_eq!(m.normals.len(), 4);
    assert_eq!(m.indices, vec![0, 3, 1, 1, 3, 2]);
}

#[test]
fn build_face_corners_are_canonical() {
    let m = build_face(AtlasCoord { u: 0, v: 0 });
    assert_eq!(
        m.positions,
        vec![
            Vec3fx { x: -HALF, y: HALF, z: -HALF },
            Vec3fx { x: HALF, y: HALF, z: -HALF },
            Vec3fx { x: HALF, y: HALF, z: HALF },
            Vec3fx { x: -HALF, y: HALF, z: HALF },
        ]
    );
    for n in &m.normals {
        assert_eq!(*n, Vec3fx { x: 0, y: 3600, z: 0 });
    }
}

#[test]
fn build_face_uvs_exact() {
    let u = 1080;
    let v = 2520;
    let m = build_face(AtlasCoord { u, v });
    assert_eq!(
        m.uvs,
        vec![
            Uv { u, v: v + CELL },
            Uv { u, v },
            Uv { u: u + CELL, v },
            Uv { u: u + CELL, v: v + CELL },
        ]
    );
}

#[test]
fn build_face_cell_zero_one() {
    // The cell one tenth down the first column: texture coordinates
    // (0.0, 0.2), (0.0, 0.1), (0.1, 0.1), (0.1, 0.2) in fixed-point units.
    let m = build_face(AtlasCoord { u: 0, v: 360 });
    assert_eq!(
        m.uvs,
        vec![
            Uv { u: 0, v: 720 },
            Uv { u: 0, v: 360 },
            Uv { u: 360, v: 360 },
            Uv { u: 360, v: 720 },
        ]
    );
}

#[test]
fn face_kind_mapping() {
    assert_eq!(face_kind(0), Some(FaceKind::Top));
    for i in 1..=4 {
        assert_eq!(face_kind(i), Some(FaceKind::Side));
    }
    assert_eq!(face_kind(5), Some(FaceKind::Bottom));
    assert_eq!(face_kind(6), None);
    assert_eq!(face_kind(100), None);
}

#[test]
fn face_atlas_cells() {
    assert_eq!(face_atlas(FaceKind::Top), AtlasCoord { u: 0, v: 0 });
    assert_eq!(face_atlas(FaceKind::Side), AtlasCoord { u: 0, v: CELL });
    assert_eq!(face_atlas(FaceKind::Bottom), AtlasCoord { u: 0, v: 2 * CELL });
}

#[test]
fn cube_faces_spawn_plan() {
    let faces = cube_faces();
    assert_eq!(faces.len(), 6);
    for (i, f) in faces.iter().enumerate() {
        assert_eq!(Some(f.placement), face_transform(i));
        let expected = build_face(face_atlas(face_kind(i).unwrap()));
        assert_eq!(f.mesh, expected);
    }
}

#[test]
fn atlas_grid_invariant() {
    assert!(atlas_cell_in_grid(&AtlasCoord { u: 0, v: 0 }));
    assert!(atlas_cell_in_grid(&AtlasCoord { u: 360, v: 3240 }));
    assert!(!atlas_cell_in_grid(&AtlasCoord { u: 3600, v: 0 })); // past the last cell
    assert!(!atlas_cell_in_grid(&AtlasCoord { u: 5, v: 0 })); // off the grid
    assert!(!atlas_cell_in_grid(&AtlasCoord { u: -360, v: 0 }));
    // Out-of-grid cells are the caller's responsibility: the builder still
    // accepts them and silently yields out-of-range texture coordinates.
    let m = build_face(AtlasCoord { u: 3600, v: 0 });
    assert_eq!(m.uvs[2], Uv { u: 3960, v: 0 });
}

#[test]
fn face_transform_past_the_cube_is_refused() {
    assert!(face_transform(6).is_none());
    assert!(face_transform(7).is_none());
}
