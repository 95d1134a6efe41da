//! The cube-face mesh builder.
//!
//! A face mesh is a unit square on the local `+y` plane, centered on the
//! local origin so that rotating the owning object's transform rotates the
//! face about the cube's center of mass. Its texture coordinates sample one
//! cell of a 10x10 texture atlas whose cells span one tenth of UV space.

use vstd::prelude::*;
use crate::fixed::{Vec3fx, FP};

verus! {

/// Half the edge length of the unit cube, in fixed-point units (0.5).
pub const HALF: i64 = 1800;

/// The side of one texture-atlas cell, in fixed-point units (0.1).
pub const CELL: i64 = 360;

/// Offset of a texture-atlas cell, in fixed-point units of UV space.
/// For the sampled cell to stay inside `[0, 1]` the offset should be a
/// multiple of `CELL` between `0` and `9 * CELL` on each axis; the builder
/// performs no bounds validation, so an out-of-range offset silently yields
/// texture coordinates outside `[0, 1]`.
#[derive(Clone, Copy, PartialEq, Eq, Structural, Debug)]
pub struct AtlasCoord {
    pub u: i64,
    pub v: i64,
}

/// One texture coordinate, in fixed-point units of UV space.
#[derive(Clone, Copy, PartialEq, Eq, Structural, Debug)]
pub struct Uv {
    pub u: i64,
    pub v: i64,
}

/// The geometry of one square cube face: four corners, four texture
/// coordinates, four normals and two counter-clockwise triangles.
/// Immutable once built; faces have no relation to one another.
#[derive(Clone, PartialEq, Eq, Debug)]
pub struct FaceMesh {
    pub positions: Vec<Vec3fx>,
    pub uvs: Vec<Uv>,
    pub normals: Vec<Vec3fx>,
    pub indices: Vec<u32>,
}

/// The four corners of the canonical face: a unit square at `y == HALF`,
/// wound counter-clockwise when viewed from `+y`.
pub open spec fn canonical_positions() -> Seq<Vec3fx> {
    seq![
        Vec3fx { x: (-1800) as i64, y: 1800, z: (-1800) as i64 },
        Vec3fx { x: 1800, y: 1800, z: (-1800) as i64 },
        Vec3fx { x: 1800, y: 1800, z: 1800 },
        Vec3fx { x: (-1800) as i64, y: 1800, z: 1800 },
    ]
}

/// The canonical face points straight up: every vertex normal is `+y` with
/// unit length.
pub open spec fn face_normal() -> Vec3fx {
    Vec3fx { x: 0, y: FP, z: 0 }
}

/// The two triangles of a face, counter-clockwise from outside the cube.
pub open spec fn face_indices() -> Seq<u32> {
    seq![0u32, 3u32, 1u32, 1u32, 3u32, 2u32]
}

/// The atlas-cell invariant: an offset on the 10x10 grid, a multiple of
/// `CELL` between zero and nine cells on each axis, so the sampled cell
/// stays inside `[0, 1]` UV space.
pub open spec fn atlas_in_grid(a: AtlasCoord) -> bool {
    0 <= a.u <= 9 * CELL && 0 <= a.v <= 9 * CELL && a.u % CELL == 0 && a.v % CELL == 0
}

/// Whether an offset lies on the 10x10 atlas grid; the builder itself
/// never checks this, so a caller that wants the invariant of its cells
/// holds them against this before building.
pub fn atlas_cell_in_grid(a: &AtlasCoord) -> (b: bool)
    ensures
        b == atlas_in_grid(*a),
{
    if a.u < 0 || a.v < 0 || a.u > 9 * CELL || a.v > 9 * CELL {
        return false;
    }
    (a.u as u64) % (CELL as u64) == 0 && (a.v as u64) % (CELL as u64) == 0
}

/// What it means for `m` to be the face mesh for the atlas cell at `a`:
/// exactly the four canonical corners, the four texture coordinates of the
/// cell (one tenth on a side, counter-clockwise in step with the corners),
/// four `+y` unit normals, and the fixed two-triangle index list.
pub open spec fn is_face_mesh(m: FaceMesh, a: AtlasCoord) -> bool {
    &&& m.positions@ == canonical_positions()
    &&& m.uvs@.len() == 4
    &&& m.uvs@[0].u == a.u && m.uvs@[0].v == a.v + CELL
    &&& m.uvs@[1].u == a.u && m.uvs@[1].v == a.v
    &&& m.uvs@[2].u == a.u + CELL && m.uvs@[2].v == a.v
    &&& m.uvs@[3].u == a.u + CELL && m.uvs@[3].v == a.v + CELL
    &&& m.normals@.len() == 4
    &&& forall|k: int| 0 <= k < 4 ==> m.normals@[k] == face_normal()
    &&& m.indices@ == face_indices()
}

/// Builds the mesh for one cube face sampling the atlas cell at `atlas`.
///
/// Pure: a fresh mesh value per call, nothing cached. Callers that want the
/// same cell twice reuse the returned value.
pub fn build_face(atlas: AtlasCoord) -> (m: FaceMesh)
    requires
        atlas.u + CELL <= i64::MAX,
        atlas.v + CELL <= i64::MAX,
    ensures
        is_face_mesh(m, atlas),
{
    let mut positions: Vec<Vec3fx> = Vec::new();
    positions.push(Vec3fx { x: -HALF, y: HALF, z: -HALF });
    positions.push(Vec3fx { x: HALF, y: HALF, z: -HALF });
    positions.push(Vec3fx { x: HALF, y: HALF, z: HALF });
    positions.push(Vec3fx { x: -HALF, y: HALF, z: HALF });

    let mut uvs: Vec<Uv> = Vec::new();
    uvs.push(Uv { u: atlas.u, v: atlas.v + CELL });
    uvs.push(Uv { u: atlas.u, v: atlas.v });
    uvs.push(Uv { u: atlas.u + CELL, v: atlas.v });
    uvs.push(Uv { u: atlas.u + CELL, v: atlas.v + CELL });

    let mut normals: Vec<Vec3fx> = Vec::new();
    normals.push(Vec3fx { x: 0, y: FP, z: 0 });
    normals.push(Vec3fx { x: 0, y: FP, z: 0 });
    normals.push(Vec3fx { x: 0, y: FP, z: 0 });
    normals.push(Vec3fx { x: 0, y: FP, z: 0 });

    let mut indices: Vec<u32> = Vec::new();
    indices.push(0);
    indices.push(3);
    indices.push(1);
    indices.push(1);
    indices.push(3);
    indices.push(2);

    proof {
        assert(positions@ =~= canonical_positions());
        assert(indices@ =~= face_indices());
    }
    FaceMesh { positions, uvs, normals, indices }
}

} // verus!
