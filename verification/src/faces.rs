//! Placement of the six cube faces.
//!
//! A placement transform is rigid: a rotation and a translation, unit
//! scale. The six predefined transforms each map the canonical `+y`-facing
//! face mesh onto one face of the unit cube without deforming it. All six
//! rotations turn by quarter or half turns, so their matrices have entries
//! in `{-1, 0, 1}` and the whole assembly is exact integer arithmetic.

use vstd::prelude::*;
use vstd::pervasive::unreached;
use crate::fixed::{in_pos_lim, vec_in_pos_lim, Vec3fx, FP};
use crate::mesh::{
    build_face, canonical_positions, is_face_mesh, AtlasCoord, FaceMesh, CELL, HALF,
};

verus! {

/// A rotation matrix, row by row; for the predefined placements every
/// entry is `-1`, `0` or `1`.
#[derive(Clone, Copy, PartialEq, Eq, Structural, Debug)]
pub struct Mat3 {
    pub xx: i64,
    pub xy: i64,
    pub xz: i64,
    pub yx: i64,
    pub yy: i64,
    pub yz: i64,
    pub zx: i64,
    pub zy: i64,
    pub zz: i64,
}

/// A rigid placement: rotate, then translate; unit scale.
#[derive(Clone, Copy, PartialEq, Eq, Structural, Debug)]
pub struct FaceTransform {
    pub rotation: Mat3,
    pub translation: Vec3fx,
}

pub open spec fn unit_entry(e: i64) -> bool {
    -1 <= e <= 1
}

/// Every rotation entry is a unit factor, so rotating never scales a
/// coordinate up.
pub open spec fn unit_rotation(m: Mat3) -> bool {
    unit_entry(m.xx) && unit_entry(m.xy) && unit_entry(m.xz) && unit_entry(m.yx) && unit_entry(
        m.yy,
    ) && unit_entry(m.yz) && unit_entry(m.zx) && unit_entry(m.zy) && unit_entry(m.zz)
}

/// Multiplication of a coordinate by a unit rotation entry, written out by
/// cases; `lemma_uscale_is_mul` proves it equal to the ordinary product.
pub open spec fn uscale(e: i64, c: i64) -> int {
    if e == 1 {
        c as int
    } else if e == -1 {
        -(c as int)
    } else {
        0
    }
}

/// For a unit entry, the case form is exactly the ordinary product.
pub proof fn lemma_uscale_is_mul(e: i64, c: i64)
    requires
        unit_entry(e),
    ensures
        uscale(e, c) == e * c,
{
    if e == 1 {
        assert(1 * c == c) by (nonlinear_arith);
    } else if e == -1 {
        assert((-1) * c == -c) by (nonlinear_arith);
    } else {
        assert(0 * c == 0) by (nonlinear_arith);
    }
}

pub open spec fn apply_x(t: FaceTransform, p: Vec3fx) -> int {
    uscale(t.rotation.xx, p.x) + uscale(t.rotation.xy, p.y) + uscale(t.rotation.xz, p.z)
        + t.translation.x
}

pub open spec fn apply_y(t: FaceTransform, p: Vec3fx) -> int {
    uscale(t.rotation.yx, p.x) + uscale(t.rotation.yy, p.y) + uscale(t.rotation.yz, p.z)
        + t.translation.y
}

pub open spec fn apply_z(t: FaceTransform, p: Vec3fx) -> int {
    uscale(t.rotation.zx, p.x) + uscale(t.rotation.zy, p.y) + uscale(t.rotation.zz, p.z)
        + t.translation.z
}

/// Where a placement carries a point: rotation first, then translation.
pub open spec fn apply_spec(t: FaceTransform, p: Vec3fx) -> (int, int, int) {
    (apply_x(t, p), apply_y(t, p), apply_z(t, p))
}

/// The six predefined placements, in spawn order: the face at `-y`, the
/// four sides at `-x`, `+x`, `-z`, `+z`, and the face at `+y`.
pub open spec fn face_transform_spec(i: int) -> FaceTransform {
    if i == 0 {
        FaceTransform {
            rotation: Mat3 { xx: 1, xy: 0, xz: 0, yx: 0, yy: 1, yz: 0, zx: 0, zy: 0, zz: 1 },
            translation: Vec3fx { x: 0, y: (-3600) as i64, z: 0 },
        }
    } else if i == 1 {
        FaceTransform {
            rotation: Mat3 {
                xx: 0,
                xy: 1,
                xz: 0,
                yx: 1,
                yy: 0,
                yz: 0,
                zx: 0,
                zy: 0,
                zz: (-1) as i64,
            },
            translation: Vec3fx { x: (-3600) as i64, y: 0, z: 0 },
        }
    } else if i == 2 {
        FaceTransform {
            rotation: Mat3 {
                xx: 0,
                xy: (-1) as i64,
                xz: 0,
                yx: 1,
                yy: 0,
                yz: 0,
                zx: 0,
                zy: 0,
                zz: 1,
            },
            translation: Vec3fx { x: 3600, y: 0, z: 0 },
        }
    } else if i == 3 {
        FaceTransform {
            rotation: Mat3 { xx: 0, xy: 0, xz: 1, yx: 1, yy: 0, yz: 0, zx: 0, zy: 1, zz: 0 },
            translation: Vec3fx { x: 0, y: 0, z: (-3600) as i64 },
        }
    } else if i == 4 {
        FaceTransform {
            rotation: Mat3 {
                xx: 0,
                xy: 0,
                xz: (-1) as i64,
                yx: 1,
                yy: 0,
                yz: 0,
                zx: 0,
                zy: (-1) as i64,
                zz: 0,
            },
            translation: Vec3fx { x: 0, y: 0, z: 3600 },
        }
    } else {
        FaceTransform {
            rotation: Mat3 {
                xx: 1,
                xy: 0,
                xz: 0,
                yx: 0,
                yy: (-1) as i64,
                yz: 0,
                zx: 0,
                zy: 0,
                zz: (-1) as i64,
            },
            translation: Vec3fx { x: 0, y: 3600, z: 0 },
        }
    }
}

/// Hands out placement `i` of the six, and nothing for an index past the
/// cube: an unrecognized face index fails fast instead of falling back to
/// some default face.
pub fn face_transform(i: usize) -> (r: Option<FaceTransform>)
    ensures
        i < 6 ==> r == Some(face_transform_spec(i as int)),
        i < 6 ==> unit_rotation(face_transform_spec(i as int).rotation) && vec_in_pos_lim(
            face_transform_spec(i as int).translation,
        ),
        i >= 6 ==> r is None,
{
    if i == 0 {
        Some(
            FaceTransform {
                rotation: Mat3 { xx: 1, xy: 0, xz: 0, yx: 0, yy: 1, yz: 0, zx: 0, zy: 0, zz: 1 },
                translation: Vec3fx { x: 0, y: -FP, z: 0 },
            },
        )
    } else if i == 1 {
        Some(
            FaceTransform {
                rotation: Mat3 { xx: 0, xy: 1, xz: 0, yx: 1, yy: 0, yz: 0, zx: 0, zy: 0, zz: -1 },
                translation: Vec3fx { x: -FP, y: 0, z: 0 },
            },
        )
    } else if i == 2 {
        Some(
            FaceTransform {
                rotation: Mat3 { xx: 0, xy: -1, xz: 0, yx: 1, yy: 0, yz: 0, zx: 0, zy: 0, zz: 1 },
                translation: Vec3fx { x: FP, y: 0, z: 0 },
            },
        )
    } else if i == 3 {
        Some(
            FaceTransform {
                rotation: Mat3 { xx: 0, xy: 0, xz: 1, yx: 1, yy: 0, yz: 0, zx: 0, zy: 1, zz: 0 },
                translation: Vec3fx { x: 0, y: 0, z: -FP },
            },
        )
    } else if i == 4 {
        Some(
            FaceTransform {
                rotation: Mat3 { xx: 0, xy: 0, xz: -1, yx: 1, yy: 0, yz: 0, zx: 0, zy: -1, zz: 0 },
                translation: Vec3fx { x: 0, y: 0, z: FP },
            },
        )
    } else if i == 5 {
        Some(
            FaceTransform {
                rotation: Mat3 { xx: 1, xy: 0, xz: 0, yx: 0, yy: -1, yz: 0, zx: 0, zy: 0, zz: -1 },
                translation: Vec3fx { x: 0, y: FP, z: 0 },
            },
        )
    } else {
        None
    }
}

/// Multiplies a coordinate by a unit rotation entry.
fn unit_mul(e: i64, c: i64) -> (r: i64)
    requires
        unit_entry(e),
        in_pos_lim(c as int),
    ensures
        r as int == uscale(e, c),
        in_pos_lim(r as int),
{
    if e == 1 {
        c
    } else if e == -1 {
        -c
    } else {
        0
    }
}

/// Carries a point through a rigid placement: rotation first, then
/// translation. The result is the ordinary matrix-vector product plus the
/// translation, stated both through `apply_spec` and directly.
pub fn apply_transform(t: &FaceTransform, p: &Vec3fx) -> (q: Vec3fx)
    requires
        unit_rotation(t.rotation),
        vec_in_pos_lim(*p),
        vec_in_pos_lim(t.translation),
    ensures
        q.x as int == apply_x(*t, *p),
        q.y as int == apply_y(*t, *p),
        q.z as int == apply_z(*t, *p),
        q.x as int == t.rotation.xx * p.x + t.rotation.xy * p.y + t.rotation.xz * p.z
            + t.translation.x,
        q.y as int == t.rotation.yx * p.x + t.rotation.yy * p.y + t.rotation.yz * p.z
            + t.translation.y,
        q.z as int == t.rotation.zx * p.x + t.rotation.zy * p.y + t.rotation.zz * p.z
            + t.translation.z,
{
    proof {
        lemma_uscale_is_mul(t.rotation.xx, p.x);
        lemma_uscale_is_mul(t.rotation.xy, p.y);
        lemma_uscale_is_mul(t.rotation.xz, p.z);
        lemma_uscale_is_mul(t.rotation.yx, p.x);
        lemma_uscale_is_mul(t.rotation.yy, p.y);
        lemma_uscale_is_mul(t.rotation.yz, p.z);
        lemma_uscale_is_mul(t.rotation.zx, p.x);
        lemma_uscale_is_mul(t.rotation.zy, p.y);
        lemma_uscale_is_mul(t.rotation.zz, p.z);
    }
    Vec3fx {
        x: unit_mul(t.rotation.xx, p.x) + unit_mul(t.rotation.xy, p.y) + unit_mul(
            t.rotation.xz,
            p.z,
        ) + t.translation.x,
        y: unit_mul(t.rotation.yx, p.x) + unit_mul(t.rotation.yy, p.y) + unit_mul(
            t.rotation.yz,
            p.z,
        ) + t.translation.y,
        z: unit_mul(t.rotation.zx, p.x) + unit_mul(t.rotation.zy, p.y) + unit_mul(
            t.rotation.zz,
            p.z,
        ) + t.translation.z,
    }
}

/// The role a face index plays in the spawn order: the top cell of the
/// atlas for face 0, the side cell for faces 1 through 4, the bottom cell
/// for face 5.
#[derive(Clone, Copy, PartialEq, Eq, Structural, Debug)]
pub enum FaceKind {
    Top,
    Side,
    Bottom,
}

pub open spec fn face_kind_spec(i: int) -> Option<FaceKind> {
    if i == 0 {
        Some(FaceKind::Top)
    } else if 1 <= i <= 4 {
        Some(FaceKind::Side)
    } else if i == 5 {
        Some(FaceKind::Bottom)
    } else {
        None
    }
}

/// Which atlas cell a face kind samples.
pub open spec fn face_atlas_spec(k: FaceKind) -> AtlasCoord {
    match k {
        FaceKind::Top => AtlasCoord { u: 0, v: 0 },
        FaceKind::Side => AtlasCoord { u: 0, v: CELL },
        FaceKind::Bottom => AtlasCoord { u: 0, v: (2 * CELL) as i64 },
    }
}

/// Classifies a face index, and rejects one past the six faces of a cube:
/// fail fast, no defensive fallback to the top face.
pub fn face_kind(i: usize) -> (r: Option<FaceKind>)
    ensures
        r == face_kind_spec(i as int),
{
    if i == 0 {
        Some(FaceKind::Top)
    } else if i <= 4 {
        Some(FaceKind::Side)
    } else if i == 5 {
        Some(FaceKind::Bottom)
    } else {
        None
    }
}

/// The atlas cell a face kind samples: top row of the atlas, cells 0, 1
/// and 2 down the first column.
pub fn face_atlas(k: FaceKind) -> (a: AtlasCoord)
    ensures
        a == face_atlas_spec(k),
{
    match k {
        FaceKind::Top => AtlasCoord { u: 0, v: 0 },
        FaceKind::Side => AtlasCoord { u: 0, v: CELL },
        FaceKind::Bottom => AtlasCoord { u: 0, v: 2 * CELL },
    }
}

/// One ready-to-spawn cube face: its mesh and where it goes.
#[derive(Clone, PartialEq, Eq, Debug)]
pub struct CubeFace {
    pub mesh: FaceMesh,
    pub placement: FaceTransform,
}

/// Builds the full spawn plan for one textured cube: six faces, each with
/// the mesh for its atlas cell and its placement transform.
pub fn cube_faces() -> (faces: Vec<CubeFace>)
    ensures
        faces@.len() == 6,
        forall|i: int|
            0 <= i < 6 ==> (#[trigger] faces@[i]).placement == face_transform_spec(i),
        forall|i: int|
            0 <= i < 6 ==> is_face_mesh(
                (#[trigger] faces@[i]).mesh,
                face_atlas_spec(face_kind_spec(i).unwrap()),
            ),
{
    let mut faces: Vec<CubeFace> = Vec::new();
    let mut i: usize = 0;
    while i < 6
        invariant
            i <= 6,
            faces@.len() == i,
            forall|j: int|
                0 <= j < i ==> (#[trigger] faces@[j]).placement == face_transform_spec(j),
            forall|j: int|
                0 <= j < i ==> is_face_mesh(
                    (#[trigger] faces@[j]).mesh,
                    face_atlas_spec(face_kind_spec(j).unwrap()),
                ),
        decreases 6 - i,
    {
        let kind = match face_kind(i) {
            Some(k) => k,
            None => unreached(),
        };
        let atlas = face_atlas(kind);
        let mesh = build_face(atlas);
        let placement = match face_transform(i) {
            Some(t) => t,
            None => unreached(),
        };
        faces.push(CubeFace { mesh, placement });
        i = i + 1;
    }
    faces
}

/// The center of the canonical face, on which the placements act.
pub open spec fn face_center() -> Vec3fx {
    Vec3fx { x: 0, y: 1800, z: 0 }
}

/// Every point any of the six placements makes of a canonical face corner.
pub open spec fn transformed_corners() -> Set<(int, int, int)> {
    Set::new(
        |q: (int, int, int)|
            exists|i: int, j: int|
                0 <= i < 6 && 0 <= j < 4 && q == apply_spec(
                    face_transform_spec(i),
                    canonical_positions()[j],
                ),
    )
}

/// The eight corners of the unit cube.
pub open spec fn cube_corners() -> Set<(int, int, int)> {
    Set::new(
        |q: (int, int, int)|
            (q.0 == HALF || q.0 == -HALF) && (q.1 == HALF || q.1 == -HALF) && (q.2 == HALF
                || q.2 == -HALF),
    )
}

/// The six placements assemble a cube: each carries the canonical face
/// center onto the center of a distinct cube face, at distance one half
/// along one axis, and the twenty-four transformed face corners are
/// exactly the eight corners of the unit cube.
pub proof fn lemma_cube_assembly()
    ensures
        apply_spec(face_transform_spec(0), face_center()) == (0int, -1800int, 0int),
        apply_spec(face_transform_spec(1), face_center()) == (-1800int, 0int, 0int),
        apply_spec(face_transform_spec(2), face_center()) == (1800int, 0int, 0int),
        apply_spec(face_transform_spec(3), face_center()) == (0int, 0int, -1800int),
        apply_spec(face_transform_spec(4), face_center()) == (0int, 0int, 1800int),
        apply_spec(face_transform_spec(5), face_center()) == (0int, 1800int, 0int),
        transformed_corners() =~= cube_corners(),
        cube_corners().finite(),
        cube_corners().len() == 8,
{
    let eight: Set<(int, int, int)> = set![
        (-1800int, -1800int, -1800int),
        (-1800int, -1800int, 1800int),
        (-1800int, 1800int, -1800int),
        (-1800int, 1800int, 1800int),
        (1800int, -1800int, -1800int),
        (1800int, -1800int, 1800int),
        (1800int, 1800int, -1800int),
        (1800int, 1800int, 1800int),
    ];
    assert(cube_corners() =~= eight);
    assert(eight.len() == 8);
    assert forall|q: (int, int, int)| transformed_corners().contains(q) implies cube_corners()
        .contains(q) by {
        let (i, j) = choose|i: int, j: int|
            0 <= i < 6 && 0 <= j < 4 && q == apply_spec(
                face_transform_spec(i),
                canonical_positions()[j],
            );
        assert(0 <= i < 6 && 0 <= j < 4);
    }
    assert forall|q: (int, int, int)| cube_corners().contains(q) implies transformed_corners()
        .contains(q) by {
        assert(apply_spec(face_transform_spec(0), canonical_positions()[0]) == (
            -1800int,
            -1800int,
            -1800int,
        ));
        assert(apply_spec(face_transform_spec(0), canonical_positions()[1]) == (
            1800int,
            -1800int,
            -1800int,
        ));
        assert(apply_spec(face_transform_spec(0), canonical_positions()[2]) == (
            1800int,
            -1800int,
            1800int,
        ));
        assert(apply_spec(face_transform_spec(0), canonical_positions()[3]) == (
            -1800int,
            -1800int,
            1800int,
        ));
        assert(apply_spec(face_transform_spec(5), canonical_positions()[0]) == (
            -1800int,
            1800int,
            1800int,
        ));
        assert(apply_spec(face_transform_spec(5), canonical_positions()[1]) == (
            1800int,
            1800int,
            1800int,
        ));
        assert(apply_spec(face_transform_spec(5), canonical_positions()[2]) == (
            1800int,
            1800int,
            -1800int,
        ));
        assert(apply_spec(face_transform_spec(5), canonical_positions()[3]) == (
            -1800int,
            1800int,
            -1800int,
        ));
    }
}

} // verus!
