//! The colored unit square: four vertices and two triangles of indices.

use crate::geometry::{indices_valid, Rgba, VertexPC};
use crate::math::V3;
use vstd::prelude::*;

verus! {

pub struct Square {
    pub vertices: Vec<VertexPC>,
    pub indices: Vec<u32>,
}

/// The square's four corners: half a unit out from the origin in x and y,
/// one color per corner.
pub open spec fn square_vertices() -> Seq<VertexPC> {
    seq![
        (VertexPC {
            pos: V3 { x: -500_000i64, y: -500_000i64, z: 0 },
            color: Rgba { r: 255, g: 0, b: 0, a: 255 },
        }),
        (VertexPC {
            pos: V3 { x: 500_000, y: -500_000i64, z: 0 },
            color: Rgba { r: 0, g: 255, b: 0, a: 255 },
        }),
        (VertexPC {
            pos: V3 { x: 500_000, y: 500_000, z: 0 },
            color: Rgba { r: 0, g: 0, b: 255, a: 255 },
        }),
        (VertexPC {
            pos: V3 { x: -500_000i64, y: 500_000, z: 0 },
            color: Rgba { r: 255, g: 255, b: 255, a: 255 },
        }),
    ]
}

/// Two counter-clockwise triangles covering the square.
pub open spec fn square_indices() -> Seq<u32> {
    seq![0u32, 1u32, 2u32, 2u32, 3u32, 0u32]
}

impl Square {
    pub open spec fn wf(self) -> bool {
        &&& self.vertices@.len() == 4
        &&& self.indices@.len() == 6
        &&& indices_valid(self.indices@, self.vertices@.len())
    }

    pub fn new() -> (s: Square)
        ensures
            s.vertices@ == square_vertices(),
            s.indices@ == square_indices(),
            s.wf(),
    {
        let vertices: Vec<VertexPC> = vec![
            VertexPC {
                pos: V3 { x: -500_000i64, y: -500_000i64, z: 0 },
                color: Rgba { r: 255, g: 0, b: 0, a: 255 },
            },
            VertexPC {
                pos: V3 { x: 500_000, y: -500_000i64, z: 0 },
                color: Rgba { r: 0, g: 255, b: 0, a: 255 },
            },
            VertexPC {
                pos: V3 { x: 500_000, y: 500_000, z: 0 },
                color: Rgba { r: 0, g: 0, b: 255, a: 255 },
            },
            VertexPC {
                pos: V3 { x: -500_000i64, y: 500_000, z: 0 },
                color: Rgba { r: 255, g: 255, b: 255, a: 255 },
            },
        ];
        let indices: Vec<u32> = vec![0, 1, 2, 2, 3, 0];
        proof {
            assert(vertices@ =~= square_vertices());
            assert(indices@ =~= square_indices());
        }
        Square { vertices, indices }
    }

    /// Number of indices a draw call must cover.
    pub fn index_count(&self) -> (n: i32)
        requires
            self.wf(),
        ensures
            n == 6,
    {
        self.indices.len() as i32
    }
}

} // verus!
