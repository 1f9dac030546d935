//! The textured square: four vertices with flipped texture coordinates, two
//! triangles of indices, and a drifting position.

use crate::camera::TARGET_MAX;
use crate::geometry::{indices_valid, TexCoord, VertexPT};
use crate::math::{clamp_i, clamp64, V3};
use vstd::prelude::*;

verus! {

/// How far the square drifts per update: a hundredth of a unit in x and y.
pub const DRIFT_STEP: i64 = 10_000;

pub struct TexturedSquare {
    pub vertices: Vec<VertexPT>,
    pub indices: Vec<u32>,
    pub position: V3,
}

/// The square's corners; the texture coordinates are intentionally flipped
/// so the image renders upright.
pub open spec fn textured_square_vertices() -> Seq<VertexPT> {
    seq![
        (VertexPT { pos: V3 { x: -500_000i64, y: -500_000i64, z: 0 }, tex: TexCoord { u: 1, v: 1 } }),
        (VertexPT { pos: V3 { x: 500_000, y: -500_000i64, z: 0 }, tex: TexCoord { u: 0, v: 1 } }),
        (VertexPT { pos: V3 { x: 500_000, y: 500_000, z: 0 }, tex: TexCoord { u: 0, v: 0 } }),
        (VertexPT { pos: V3 { x: -500_000i64, y: 500_000, z: 0 }, tex: TexCoord { u: 1, v: 0 } }),
    ]
}

pub open spec fn textured_square_indices() -> Seq<u32> {
    seq![0u32, 1u32, 2u32, 2u32, 3u32, 0u32]
}

impl TexturedSquare {
    pub open spec fn wf(self) -> bool {
        &&& self.vertices@.len() == 4
        &&& self.indices@.len() == 6
        &&& indices_valid(self.indices@, self.vertices@.len())
        &&& -TARGET_MAX <= self.position.x <= TARGET_MAX
        &&& -TARGET_MAX <= self.position.y <= TARGET_MAX
        &&& -TARGET_MAX <= self.position.z <= TARGET_MAX
    }

    pub fn new() -> (s: TexturedSquare)
        ensures
            s.vertices@ == textured_square_vertices(),
            s.indices@ == textured_square_indices(),
            s.position == (V3 { x: 0, y: 0, z: 0 }),
            s.wf(),
    {
        let vertices: Vec<VertexPT> = vec![
            VertexPT { pos: V3 { x: -500_000i64, y: -500_000i64, z: 0 }, tex: TexCoord { u: 1, v: 1 } },
            VertexPT { pos: V3 { x: 500_000, y: -500_000i64, z: 0 }, tex: TexCoord { u: 0, v: 1 } },
            VertexPT { pos: V3 { x: 500_000, y: 500_000, z: 0 }, tex: TexCoord { u: 0, v: 0 } },
            VertexPT { pos: V3 { x: -500_000i64, y: 500_000, z: 0 }, tex: TexCoord { u: 1, v: 0 } },
        ];
        let indices: Vec<u32> = vec![0, 1, 2, 2, 3, 0];
        proof {
            assert(vertices@ =~= textured_square_vertices());
            assert(indices@ =~= textured_square_indices());
        }
        TexturedSquare { vertices, indices, position: V3 { x: 0, y: 0, z: 0 } }
    }

    /// Drift one step diagonally, saturating at the world bound.
    pub fn update(&mut self)
        requires
            old(self).wf(),
        ensures
            final(self).position.x == clamp_i(
                old(self).position.x + DRIFT_STEP,
                -TARGET_MAX as int,
                TARGET_MAX as int,
            ),
            final(self).position.y == clamp_i(
                old(self).position.y + DRIFT_STEP,
                -TARGET_MAX as int,
                TARGET_MAX as int,
            ),
            final(self).position.z == old(self).position.z,
            final(self).vertices == old(self).vertices,
            final(self).indices == old(self).indices,
            final(self).wf(),
    {
        self.position = V3 {
            x: clamp64(self.position.x + DRIFT_STEP, -TARGET_MAX, TARGET_MAX),
            y: clamp64(self.position.y + DRIFT_STEP, -TARGET_MAX, TARGET_MAX),
            z: self.position.z,
        };
    }

    /// Number of indices a draw call must cover.
    pub fn index_count(&self) -> (n: i32)
        requires
            self.wf(),
        ensures
            n == 6,
    {
        self.indices.len() as i32
    }
}

} // verus!
